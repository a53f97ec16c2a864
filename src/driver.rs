use vstd::prelude::*;

use crate::bus::{BusOp, RegisterBus};
use crate::registers::{
    active_config, active_config_spec, data_rate_code_spec, standby_config, standby_config_spec,
    GRange, KXTJ3DataRate, Resolution, KXTJ3_CTRL_REG1, KXTJ3_DATA_CTRL_REG, KXTJ3_WHO_AM_I,
    KXTJ3_XOUT_L,
};
use crate::sample::{sample_from_bytes, sample_spec, AccelerometerSample};

verus! {

/// A failure of the transport, tagged with the operation that was under way.
#[derive(Debug)]
pub enum KXTJ3Error<E> {
    /// A configuration write failed while the driver was being created.
    Configuration(E),
    /// The identity read failed.
    Identity(E),
    /// The register select or the bulk read of a sample failed.
    Sample(E),
}

/// Sensors that provide 3-axis accelerometer readings.
pub trait Accelerometer {
    type Error;

    /// Grabs an accelerometer sample from the device.
    fn accelerometer_sample(&mut self) -> Result<AccelerometerSample, Self::Error>;
}

/// The `i`-th configuration write, with its acknowledgement: the data rate,
/// then 12-bit resolution and the range with the power bit clear, then the
/// same fields with the power bit set.
pub open spec fn configuration_write(
    rate: KXTJ3DataRate,
    range: GRange,
    i: int,
    acked: bool,
) -> BusOp {
    if i == 0 {
        BusOp::WriteRegister {
            register: KXTJ3_DATA_CTRL_REG,
            value: data_rate_code_spec(rate),
            acked,
        }
    } else if i == 1 {
        BusOp::WriteRegister {
            register: KXTJ3_CTRL_REG1,
            value: standby_config_spec(Resolution::Bits12, range),
            acked,
        }
    } else {
        BusOp::WriteRegister {
            register: KXTJ3_CTRL_REG1,
            value: active_config_spec(Resolution::Bits12, range),
            acked,
        }
    }
}

/// The transactions of a configuration whose three writes all succeed, in order.
pub open spec fn configuration_writes(rate: KXTJ3DataRate, range: GRange) -> Seq<
    BusOp,
> {
    seq![
        configuration_write(rate, range, 0, true),
        configuration_write(rate, range, 1, true),
        configuration_write(rate, range, 2, true),
    ]
}

/// The transactions of a configuration that stopped at a write the bus did not
/// acknowledge: the earlier writes, acknowledged, then the failed one.
pub open spec fn failed_configuration(
    rate: KXTJ3DataRate,
    range: GRange,
    ops: Seq<BusOp>,
) -> bool {
    ||| ops == seq![configuration_write(rate, range, 0, false)]
    ||| ops == seq![
        configuration_write(rate, range, 0, true),
        configuration_write(rate, range, 1, false),
    ]
    ||| ops == seq![
        configuration_write(rate, range, 0, true),
        configuration_write(rate, range, 1, true),
        configuration_write(rate, range, 2, false),
    ]
}

/// The configuration that `new` programs: 400 Hz, +/-2g (always 12-bit).
pub open spec fn default_configuration<T: RegisterBus>(d: KXTJ3Accelerometer<T>) -> bool {
    &&& d.rate_spec() == KXTJ3DataRate::Odr400
    &&& d.range_spec() == GRange::G2
}

/// `t` is a transport whose history is `before` followed by a configuration
/// that stopped at its first unacknowledged write: nothing was sent after it.
pub open spec fn ended_in_failed_configuration<T: RegisterBus>(
    t: T,
    before: Seq<BusOp>,
    rate: KXTJ3DataRate,
    range: GRange,
) -> bool {
    &&& t.transactions().len() > before.len()
    &&& t.transactions().take(before.len() as int) == before
    &&& failed_configuration(rate, range, t.transactions().skip(before.len() as int))
}

/// The one-byte write that selects the first output register.
pub open spec fn select_output(acked: bool) -> BusOp {
    BusOp::Write { bytes: seq![KXTJ3_XOUT_L], acked }
}

/// The six-byte bulk read of the output registers.
pub open spec fn bulk_read(reply: Option<Seq<u8>>) -> BusOp {
    BusOp::Read { len: 6, reply }
}

/// The bytes that a successful read brought back.
pub open spec fn reply_of(op: BusOp) -> Seq<u8> {
    match op {
        BusOp::Read { reply: Some(b), .. } => b,
        _ => Seq::empty(),
    }
}

/// Programs the device: data rate, then 12-bit resolution and the range while
/// the power bit is clear, then the same fields with the power bit set, so
/// that measurement starts with them in place. Stops at the first write that
/// fails.
pub fn configure<T: RegisterBus>(
    bus: &mut T,
    rate: KXTJ3DataRate,
    range: GRange,
) -> (r: Result<(), T::Error>)
    ensures
        r is Ok <==> final(bus).transactions() == old(bus).transactions() + configuration_writes(
            rate,
            range,
        ),
        r is Err ==> final(bus).transactions().len() > old(bus).transactions().len()
            && final(bus).transactions().take(old(bus).transactions().len() as int)
            == old(bus).transactions() && failed_configuration(
            rate,
            range,
            final(bus).transactions().skip(old(bus).transactions().len() as int),
        ),
{
    let ghost before = bus.transactions();
    let code = rate.code();
    match bus.smbus_write_byte_data(KXTJ3_DATA_CTRL_REG, code) {
        Ok(()) => {},
        Err(e) => {
            assert(bus.transactions().skip(before.len() as int) =~= seq![
                configuration_write(rate, range, 0, false),
            ]);
            assert(bus.transactions().take(before.len() as int) =~= before);
            assert(bus.transactions() != before + configuration_writes(rate, range)) by {
                assert((before + configuration_writes(rate, range)).len() == before.len() + 3);
            }
            return Err(e);
        },
    }
    let config = standby_config(Resolution::Bits12, range);
    match bus.smbus_write_byte_data(KXTJ3_CTRL_REG1, config) {
        Ok(()) => {},
        Err(e) => {
            assert(bus.transactions().skip(before.len() as int) =~= seq![
                configuration_write(rate, range, 0, true),
                configuration_write(rate, range, 1, false),
            ]);
            assert(bus.transactions().take(before.len() as int) =~= before);
            assert(bus.transactions() != before + configuration_writes(rate, range)) by {
                assert((before + configuration_writes(rate, range)).len() == before.len() + 3);
            }
            return Err(e);
        },
    }
    let active = active_config(Resolution::Bits12, range);
    match bus.smbus_write_byte_data(KXTJ3_CTRL_REG1, active) {
        Ok(()) => {},
        Err(e) => {
            let ghost after = bus.transactions();
            assert(after.skip(before.len() as int) =~= seq![
                configuration_write(rate, range, 0, true),
                configuration_write(rate, range, 1, true),
                configuration_write(rate, range, 2, false),
            ]);
            assert(after.take(before.len() as int) =~= before);
            assert(after != before + configuration_writes(rate, range)) by {
                let want = before + configuration_writes(rate, range);
                assert(want[before.len() + 2int] != after[before.len() + 2int]);
            }
            return Err(e);
        },
    }
    assert(bus.transactions() =~= before + configuration_writes(rate, range));
    Ok(())
}


/// A KXTJ3 accelerometer reached through a register transport, which it owns.
///
/// The device always runs at 12-bit resolution. The driver remembers the rate
/// and range it programmed, so that raw codes are scaled by the range the
/// device was set to.
pub struct KXTJ3Accelerometer<T: RegisterBus> {
    i2cdev: T,
    rate: KXTJ3DataRate,
    range: GRange,
}

impl<T: RegisterBus> KXTJ3Accelerometer<T> {
    /// The transport the driver owns.
    pub closed spec fn transport_spec(&self) -> T {
        self.i2cdev
    }

    /// The data rate the device was programmed with.
    pub closed spec fn rate_spec(&self) -> KXTJ3DataRate {
        self.rate
    }

    /// The range the device was programmed with.
    pub closed spec fn range_spec(&self) -> GRange {
        self.range
    }

    /// The transport the driver owns, for inspection.
    pub fn transport(&self) -> (r: &T)
        ensures
            *r == self.transport_spec(),
    {
        &self.i2cdev
    }

    /// Ends the driver and hands its transport back; the device keeps the
    /// configuration it was given.
    pub fn release(self) -> (r: T)
        ensures
            r == self.transport_spec(),
    {
        self.i2cdev
    }

    /// Configures the device with 400 Hz output, 12-bit resolution and a
    /// +/-2g range, and leaves it in measurement mode.
    pub fn new(i2cdev: T) -> (r: Result<KXTJ3Accelerometer<T>, KXTJ3Error<T::Error>>)
        ensures
            match r {
                Ok(d) => {
                    &&& d.transport_spec().transactions() == i2cdev.transactions()
                        + configuration_writes(KXTJ3DataRate::Odr400, GRange::G2)
                    &&& default_configuration(d)
                },
                Err(e) => {
                    &&& e is Configuration
                    &&& exists|t: T|
                        #[trigger] ended_in_failed_configuration(
                            t,
                            i2cdev.transactions(),
                            KXTJ3DataRate::Odr400,
                            GRange::G2,
                        )
                },
            },
    {
        Self::with_config(i2cdev, KXTJ3DataRate::Odr400, GRange::G2)
    }

    /// Configures the device with the given data rate and range, at 12-bit
    /// resolution, and leaves it in measurement mode. Fails with the first
    /// write that the transport does not carry out, and sends nothing after it.
    pub fn with_config(mut i2cdev: T, rate: KXTJ3DataRate, range: GRange) -> (r:
        Result<KXTJ3Accelerometer<T>, KXTJ3Error<T::Error>>)
        ensures
            match r {
                Ok(d) => {
                    &&& d.transport_spec().transactions() == i2cdev.transactions()
                        + configuration_writes(rate, range)
                    &&& d.rate_spec() == rate
                    &&& d.range_spec() == range
                },
                Err(e) => {
                    &&& e is Configuration
                    &&& exists|t: T|
                        #[trigger] ended_in_failed_configuration(
                            t,
                            i2cdev.transactions(),
                            rate,
                            range,
                        )
                },
            },
    {
        let ghost before = i2cdev.transactions();
        match configure(&mut i2cdev, rate, range) {
            Ok(()) => Ok(KXTJ3Accelerometer { i2cdev, rate, range }),
            Err(e) => {
                assert(ended_in_failed_configuration(i2cdev, before, rate, range));
                Err(KXTJ3Error::Configuration(e))
            },
        }
    }

    /// Reads the identity register. The byte is returned as the device gave
    /// it; the driver does not check it.
    pub fn device_id(&mut self) -> (r: Result<u8, KXTJ3Error<T::Error>>)
        ensures
            final(self).transport_spec().transactions() == old(self).transport_spec().transactions().push(
                BusOp::ReadRegister {
                    register: KXTJ3_WHO_AM_I,
                    byte: match r {
                        Ok(v) => Some(v),
                        Err(_) => None,
                    },
                },
            ),
            r is Err ==> r->Err_0 is Identity,
            final(self).rate_spec() == old(self).rate_spec(),
            final(self).range_spec() == old(self).range_spec(),
    {
        match self.i2cdev.smbus_read_byte_data(KXTJ3_WHO_AM_I) {
            Ok(v) => Ok(v),
            Err(e) => Err(KXTJ3Error::Identity(e)),
        }
    }
}

/// Creating a driver twice, on fresh transports to the same device, programs
/// the same three writes each time, and the two drivers turn identical output
/// bytes into identical samples: configuration depends on no earlier call.
pub proof fn lemma_configuration_idempotent<T: RegisterBus>(
    d1: KXTJ3Accelerometer<T>,
    d2: KXTJ3Accelerometer<T>,
    bytes: Seq<u8>,
)
    requires
        default_configuration(d1),
        default_configuration(d2),
    ensures
        configuration_writes(d1.rate_spec(), d1.range_spec()) == configuration_writes(
            d2.rate_spec(),
            d2.range_spec(),
        ),
        sample_spec(bytes, d1.range_spec()) == sample_spec(bytes, d2.range_spec()),
{
}

impl<T: RegisterBus> Accelerometer for KXTJ3Accelerometer<T> {
    type Error = KXTJ3Error<T::Error>;

    /// Takes one sample: selects the first output register, reads the six
    /// output bytes in one bulk transaction, and scales them by the
    /// configured range.
    fn accelerometer_sample(&mut self) -> (r: Result<AccelerometerSample, KXTJ3Error<T::Error>>)
        ensures
            final(self).rate_spec() == old(self).rate_spec(),
            final(self).range_spec() == old(self).range_spec(),
            ({
                let before = old(self).transport_spec().transactions();
                let after = final(self).transport_spec().transactions();
                match r {
                    Ok(s) => {
                        &&& after == before.push(select_output(true)).push(
                            bulk_read(Some(reply_of(after.last()))),
                        )
                        &&& reply_of(after.last()).len() == 6
                        &&& s == sample_spec(reply_of(after.last()), old(self).range_spec())
                    },
                    Err(e) => {
                        &&& e is Sample
                        &&& after == before.push(select_output(false)) || after == before.push(
                            select_output(true),
                        ).push(bulk_read(None))
                    },
                }
            }),
    {
        let select: [u8; 1] = [KXTJ3_XOUT_L];
        match self.i2cdev.write(&select) {
            Ok(()) => {},
            Err(e) => {
                assert(select@ =~= seq![KXTJ3_XOUT_L]);
                return Err(KXTJ3Error::Sample(e));
            },
        }
        assert(select@ =~= seq![KXTJ3_XOUT_L]);
        let mut buf: Vec<u8> = vec![0u8; 6];
        match self.i2cdev.read(buf.as_mut_slice()) {
            Ok(()) => {},
            Err(e) => {
                return Err(KXTJ3Error::Sample(e));
            },
        }
        Ok(sample_from_bytes(buf.as_slice(), self.range))
    }
}

} // verus!
