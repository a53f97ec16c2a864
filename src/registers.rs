use vstd::prelude::*;

verus! {

/// Value of the identity register for this device family.
pub const KXTJ3_DEVID: u8 = 0x35;

pub const KXTJ3_XOUT_HPF_L: u8 = 0x00;
pub const KXTJ3_XOUT_HPF_H: u8 = 0x01;
pub const KXTJ3_YOUT_HPF_L: u8 = 0x02;
pub const KXTJ3_YOUT_HPF_H: u8 = 0x03;
pub const KXTJ3_ZOUT_HPF_L: u8 = 0x04;
pub const KXTJ3_ZOUT_HPF_H: u8 = 0x05;
pub const KXTJ3_XOUT_L: u8 = 0x06;
pub const KXTJ3_XOUT_H: u8 = 0x07;
pub const KXTJ3_YOUT_L: u8 = 0x08;
pub const KXTJ3_YOUT_H: u8 = 0x09;
pub const KXTJ3_ZOUT_L: u8 = 0x0A;
pub const KXTJ3_ZOUT_H: u8 = 0x0B;
pub const KXTJ3_ST_RESP: u8 = 0x0C;
pub const KXTJ3_WHO_AM_I: u8 = 0x0F;
pub const KXTJ3_TILT_POS_CUR: u8 = 0x10;
pub const KXTJ3_TILT_POS_PRE: u8 = 0x11;
pub const KXTJ3_INT_SRC_REG1: u8 = 0x15;
pub const KXTJ3_INT_SRC_REG2: u8 = 0x16;
pub const KXTJ3_STATUS_REG: u8 = 0x18;
pub const KXTJ3_INT_REL: u8 = 0x1A;
pub const KXTJ3_CTRL_REG1: u8 = 0x1B;
pub const KXTJ3_CTRL_REG2: u8 = 0x1C;
pub const KXTJ3_CTRL_REG3: u8 = 0x1D;
pub const KXTJ3_INT_CTRL_REG1: u8 = 0x1E;
pub const KXTJ3_INT_CTRL_REG2: u8 = 0x1F;
pub const KXTJ3_INT_CTRL_REG3: u8 = 0x20;
pub const KXTJ3_DATA_CTRL_REG: u8 = 0x21;
pub const KXTJ3_TILT_TIMER: u8 = 0x28;
pub const KXTJ3_WUF_TIMER: u8 = 0x29;
pub const KXTJ3_TDT_TIMER: u8 = 0x2B;
pub const KXTJ3_TDT_H_THRESH: u8 = 0x2C;
pub const KXTJ3_TDT_L_THRESH: u8 = 0x2D;
pub const KXTJ3_TDT_TAP_TIMER: u8 = 0x2E;
pub const KXTJ3_TDT_TOTAL_TIMER: u8 = 0x2F;
pub const KXTJ3_TDT_LATENCY_TIMER: u8 = 0x30;
pub const KXTJ3_TDT_WINDOW_TIMER: u8 = 0x31;
pub const KXTJ3_WUF_THRESH: u8 = 0x5A;
pub const KXTJ3_TILT_ANGLE: u8 = 0x5C;
pub const KXTJ3_HYST_SET: u8 = 0x5F;

/// Control register 1: mask that clears the power-enable bit.
pub const KXTJ3_DISABLE: u8 = 0x7F;
/// Control register 1: power-enable bit (bit 7).
pub const KXTJ3_ENABLE: u8 = 0x80;
/// Control register 1: interrupt-enable bit (bit 5).
pub const KXTJ3_INT_ENABLE: u8 = 0x20;

/// Control register 1, resolution field (bit 6): 8-bit output.
pub const KXTJ3_RES_8BIT: u8 = 0x00;
/// Control register 1, resolution field (bit 6): 12-bit output.
pub const KXTJ3_RES_12BIT: u8 = 0x40;

/// Control register 1, range field (bits 3 and 4): +/-2g.
pub const KXTJ3_G_2G: u8 = 0x00;
/// Control register 1, range field (bits 3 and 4): +/-4g.
pub const KXTJ3_G_4G: u8 = 0x08;
/// Control register 1, range field (bits 3 and 4): +/-8g.
pub const KXTJ3_G_8G: u8 = 0x10;

/// Largest positive raw output code; it stands for the full-scale acceleration.
pub const KXTJ3_FULL_SCALE_CODE: i64 = 1023;

/// Output data rates, each written to the data-rate register as a one-byte code.
#[derive(Clone, Copy, Debug, PartialEq, Eq, Structural)]
pub enum KXTJ3DataRate {
    Odr12_5,
    Odr25,
    Odr50,
    Odr100,
    Odr200,
    Odr400,
    Odr800,
}

/// Output resolution, selected by bit 6 of control register 1.
#[derive(Clone, Copy, Debug, PartialEq, Eq, Structural)]
pub enum Resolution {
    Bits8,
    Bits12,
}

/// Measurement range, selected by bits 3 and 4 of control register 1.
#[derive(Clone, Copy, Debug, PartialEq, Eq, Structural)]
pub enum GRange {
    G2,
    G4,
    G8,
}

pub open spec fn data_rate_code_spec(rate: KXTJ3DataRate) -> u8 {
    match rate {
        KXTJ3DataRate::Odr12_5 => 0,
        KXTJ3DataRate::Odr25 => 1,
        KXTJ3DataRate::Odr50 => 2,
        KXTJ3DataRate::Odr100 => 3,
        KXTJ3DataRate::Odr200 => 4,
        KXTJ3DataRate::Odr400 => 5,
        KXTJ3DataRate::Odr800 => 6,
    }
}

pub open spec fn resolution_bits_spec(res: Resolution) -> u8 {
    match res {
        Resolution::Bits8 => KXTJ3_RES_8BIT,
        Resolution::Bits12 => KXTJ3_RES_12BIT,
    }
}

pub open spec fn range_bits_spec(range: GRange) -> u8 {
    match range {
        GRange::G2 => KXTJ3_G_2G,
        GRange::G4 => KXTJ3_G_4G,
        GRange::G8 => KXTJ3_G_8G,
    }
}

/// The acceleration, in g, that the full-scale raw code stands for.
pub open spec fn full_scale_g_spec(range: GRange) -> int {
    match range {
        GRange::G2 => 2,
        GRange::G4 => 4,
        GRange::G8 => 8,
    }
}

/// Standby configuration byte of control register 1: the resolution field and
/// the range field combined, with the power-enable bit clear.
pub open spec fn standby_config_spec(res: Resolution, range: GRange) -> u8 {
    resolution_bits_spec(res) | range_bits_spec(range)
}

/// Active configuration byte of control register 1: the standby byte with the
/// power-enable bit set, so that the fields stay as programmed.
pub open spec fn active_config_spec(res: Resolution, range: GRange) -> u8 {
    standby_config_spec(res, range) | KXTJ3_ENABLE
}

impl KXTJ3DataRate {
    /// The code written to the data-rate register for this rate.
    pub fn code(self) -> (r: u8)
        ensures
            r == data_rate_code_spec(self),
            r <= 6,
    {
        match self {
            KXTJ3DataRate::Odr12_5 => 0,
            KXTJ3DataRate::Odr25 => 1,
            KXTJ3DataRate::Odr50 => 2,
            KXTJ3DataRate::Odr100 => 3,
            KXTJ3DataRate::Odr200 => 4,
            KXTJ3DataRate::Odr400 => 5,
            KXTJ3DataRate::Odr800 => 6,
        }
    }
}

impl Resolution {
    /// The resolution field of control register 1.
    pub fn bits(self) -> (r: u8)
        ensures
            r == resolution_bits_spec(self),
    {
        match self {
            Resolution::Bits8 => KXTJ3_RES_8BIT,
            Resolution::Bits12 => KXTJ3_RES_12BIT,
        }
    }
}

impl GRange {
    /// The range field of control register 1.
    pub fn bits(self) -> (r: u8)
        ensures
            r == range_bits_spec(self),
    {
        match self {
            GRange::G2 => KXTJ3_G_2G,
            GRange::G4 => KXTJ3_G_4G,
            GRange::G8 => KXTJ3_G_8G,
        }
    }

    /// The acceleration, in g, of the full-scale raw code.
    pub fn full_scale_g(self) -> (r: i64)
        ensures
            r == full_scale_g_spec(self),
    {
        match self {
            GRange::G2 => 2,
            GRange::G4 => 4,
            GRange::G8 => 8,
        }
    }
}

/// The byte written to control register 1 while in standby: resolution and
/// range fields combined, power-enable bit clear.
pub fn standby_config(res: Resolution, range: GRange) -> (r: u8)
    ensures
        r == standby_config_spec(res, range),
        r & KXTJ3_ENABLE == 0,
{
    let a = res.bits();
    let b = range.bits();
    let r = a | b;
    assert(r & KXTJ3_ENABLE == 0) by {
        assert((a == 0u8 || a == 0x40u8) && (b == 0u8 || b == 0x08u8 || b == 0x10u8));
        assert(((a == 0u8 || a == 0x40u8) && (b == 0u8 || b == 0x08u8 || b == 0x10u8))
            ==> (a | b) & 0x80u8 == 0u8) by (bit_vector);
    }
    r
}

/// The byte written to control register 1 to start measuring: resolution and
/// range fields as in standby, power-enable bit set.
pub fn active_config(res: Resolution, range: GRange) -> (r: u8)
    ensures
        r == active_config_spec(res, range),
        r & KXTJ3_ENABLE == KXTJ3_ENABLE,
        r & KXTJ3_DISABLE == standby_config_spec(res, range),
{
    let standby = standby_config(res, range);
    let r = standby | KXTJ3_ENABLE;
    assert(r & KXTJ3_ENABLE == KXTJ3_ENABLE && r & KXTJ3_DISABLE == standby) by {
        assert(standby & 0x80u8 == 0u8 ==> ((standby | 0x80u8) & 0x80u8 == 0x80u8 && (standby
            | 0x80u8) & 0x7Fu8 == standby)) by (bit_vector);
    }
    r
}

} // verus!
