use vstd::arithmetic::div_mod::lemma_div_is_ordered;
use vstd::prelude::*;

use crate::registers::{full_scale_g_spec, GRange, KXTJ3_FULL_SCALE_CODE};

verus! {

/// One 3-axis reading, each axis in millionths of standard gravity (micro-g).
#[derive(Clone, Copy, Debug, PartialEq, Eq, Structural)]
pub struct AccelerometerSample {
    /// x-axis, micro-g
    pub x: i32,
    /// y-axis, micro-g
    pub y: i32,
    /// z-axis, micro-g
    pub z: i32,
}

/// The signed 16-bit value whose little-endian bytes are `lo`, `hi`.
pub open spec fn le_i16_spec(lo: u8, hi: u8) -> int {
    let u = hi as int * 256 + lo as int;
    if u < 0x8000 {
        u
    } else {
        u - 0x10000
    }
}

/// A raw output code in micro-g: `raw * full_scale_g / 1023`, rounded toward zero.
pub open spec fn micro_g_spec(raw: int, range: GRange) -> int {
    let m = raw * full_scale_g_spec(range) * 1_000_000;
    if m >= 0 {
        m / KXTJ3_FULL_SCALE_CODE as int
    } else {
        -((-m) / KXTJ3_FULL_SCALE_CODE as int)
    }
}

/// The sample that six output bytes (x low, x high, y low, y high, z low,
/// z high) stand for under `range`.
pub open spec fn sample_spec(b: Seq<u8>, range: GRange) -> AccelerometerSample
    recommends
        b.len() == 6,
{
    AccelerometerSample {
        x: micro_g_spec(le_i16_spec(b[0], b[1]), range) as i32,
        y: micro_g_spec(le_i16_spec(b[2], b[3]), range) as i32,
        z: micro_g_spec(le_i16_spec(b[4], b[5]), range) as i32,
    }
}

/// The conversion from raw codes to micro-g keeps order and is odd: a larger
/// code never gives a smaller acceleration, and opposite codes give opposite
/// accelerations.
pub proof fn lemma_micro_g_monotone_odd(r1: int, r2: int, range: GRange)
    requires
        r1 <= r2,
    ensures
        micro_g_spec(r1, range) <= micro_g_spec(r2, range),
        micro_g_spec(-r1, range) == -micro_g_spec(r1, range),
{
    let fs = full_scale_g_spec(range);
    let m1 = r1 * fs * 1_000_000;
    let m2 = r2 * fs * 1_000_000;
    assert(m1 <= m2) by (nonlinear_arith)
        requires
            r1 <= r2,
            fs > 0,
            m1 == r1 * fs * 1_000_000,
            m2 == r2 * fs * 1_000_000,
    ;
    assert((-r1) * fs * 1_000_000 == -m1) by (nonlinear_arith)
        requires
            m1 == r1 * fs * 1_000_000,
    ;
    if m1 >= 0 {
        lemma_div_is_ordered(m1, m2, 1023);
    } else if m2 < 0 {
        lemma_div_is_ordered(-m2, -m1, 1023);
    } else {
        lemma_div_is_ordered(0, m2, 1023);
        lemma_div_is_ordered(0, -m1, 1023);
    }
}

/// Joins a low and a high byte into a signed 16-bit value, low byte first.
pub fn i16_from_le_bytes(lo: u8, hi: u8) -> (r: i16)
    ensures
        r as int == le_i16_spec(lo, hi),
{
    let u: i32 = hi as i32 * 256 + lo as i32;
    if u < 0x8000 {
        u as i16
    } else {
        (u - 0x10000) as i16
    }
}

/// Converts a raw output code to micro-g under `range`, rounding toward zero.
pub fn counts_to_micro_g(raw: i16, range: GRange) -> (r: i32)
    ensures
        r as int == micro_g_spec(raw as int, range),
{
    let fs: i64 = range.full_scale_g();
    assert(-32768 * 8 * 1_000_000 <= raw as int * fs * 1_000_000 <= 32767 * 8 * 1_000_000)
        by (nonlinear_arith)
        requires
            -32768 <= raw <= 32767,
            2 <= fs <= 8,
    ;
    let m: i64 = raw as i64 * fs * 1_000_000;
    if m >= 0 {
        (m / KXTJ3_FULL_SCALE_CODE) as i32
    } else {
        let q: i64 = (-m) / KXTJ3_FULL_SCALE_CODE;
        -(q as i32)
    }
}

/// Decodes six output bytes (x low, x high, y low, y high, z low, z high)
/// into a sample under `range`.
pub fn sample_from_bytes(b: &[u8], range: GRange) -> (r: AccelerometerSample)
    requires
        b@.len() == 6,
    ensures
        r == sample_spec(b@, range),
        r.x as int == micro_g_spec(le_i16_spec(b@[0], b@[1]), range),
        r.y as int == micro_g_spec(le_i16_spec(b@[2], b@[3]), range),
        r.z as int == micro_g_spec(le_i16_spec(b@[4], b@[5]), range),
{
    let x = counts_to_micro_g(i16_from_le_bytes(b[0], b[1]), range);
    let y = counts_to_micro_g(i16_from_le_bytes(b[2], b[3]), range);
    let z = counts_to_micro_g(i16_from_le_bytes(b[4], b[5]), range);
    AccelerometerSample { x, y, z }
}

} // verus!
