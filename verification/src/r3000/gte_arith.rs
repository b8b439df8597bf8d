use vstd::prelude::*;
use crate::mips1::{abs, trunc_div};
use crate::register::spec_half;

verus! {

/// Halfword `index` of a register, as a signed 16-bit value.
pub open spec fn s16(value: u32, index: u32) -> int {
    spec_half(value, index) as i16 as int
}

/// A register as a signed 32-bit value.
pub open spec fn s32(value: u32) -> int {
    value as i32 as int
}

pub open spec fn clamp(value: int, min: int, max: int) -> int {
    if value < min {
        min
    } else if value > max {
        max
    } else {
        value
    }
}

pub fn read_s16(value: u32, index: u32) -> (r: i64)
    requires
        index < 2,
    ensures
        r == s16(value, index),
        -0x8000 <= r <= 0x7FFF,
{
    crate::register::half_of(value, index) as i16 as i64
}

pub fn read_s32(value: u32) -> (r: i64)
    ensures
        r == s32(value),
        -0x8000_0000 <= r <= 0x7FFF_FFFF,
{
    value as i32 as i64
}

/// Arithmetic right shift by 12: division by 4096 rounding toward minus infinity.
pub fn shr12(x: i64) -> (r: i64)
    ensures
        r == x as int / 4096,
{
    assert((x >> 12u64) as int == (x as int) / 4096) by (bit_vector);
    x >> 12u64
}

/// Arithmetic right shift by 16: division by 65536 rounding toward minus infinity.
pub fn shr16(x: i64) -> (r: i64)
    ensures
        r == x as int / 65536,
{
    assert((x >> 16u64) as int == (x as int) / 65536) by (bit_vector);
    x >> 16u64
}

/// Left shift by 12 of a value small enough not to overflow: multiplication by 4096.
pub fn shl12(x: i64) -> (r: i64)
    requires
        -0x8000_0000_0000 <= x <= 0x7FFF_FFFF_FFFF,
    ensures
        r == x as int * 4096,
{
    assert((x << 12u64) as int == (x as int) * 4096) by (bit_vector)
        requires -0x8000_0000_0000 <= x <= 0x7FFF_FFFF_FFFF;
    x << 12u64
}

/// Signed 64-bit division rounding toward zero (as Rust's `/`), for operands
/// far from the limits of the type.
pub fn trunc_div_i64(a: i64, b: i64) -> (r: i64)
    requires
        b != 0,
        -0x4000_0000_0000_0000 < a < 0x4000_0000_0000_0000,
        -0x4000_0000_0000_0000 < b < 0x4000_0000_0000_0000,
    ensures
        r == trunc_div(a as int, b as int),
{
    let ua: u64 = if a < 0 {
        (-a) as u64
    } else {
        a as u64
    };
    let ub: u64 = if b < 0 {
        (-b) as u64
    } else {
        b as u64
    };
    let uq = ua / ub;
    assert(uq <= ua) by {
        vstd::arithmetic::div_mod::lemma_div_is_ordered_by_denominator(ua as int, 1, ub as int);
    }
    if (a >= 0) == (b > 0) {
        uq as i64
    } else {
        -(uq as i64)
    }
}

/// Products of two 16-bit values fit comfortably in 64 bits.
pub proof fn lemma_mul_bounds(a: int, b: int, bound_a: int, bound_b: int)
    requires
        -bound_a <= a <= bound_a,
        -bound_b <= b <= bound_b,
        0 <= bound_a,
        0 <= bound_b,
    ensures
        -(bound_a * bound_b) <= a * b <= bound_a * bound_b,
{
    assert(-(bound_a * bound_b) <= a * b <= bound_a * bound_b) by (nonlinear_arith)
        requires
            -bound_a <= a <= bound_a,
            -bound_b <= b <= bound_b,
            0 <= bound_a,
            0 <= bound_b,
    ;
}

pub fn clamp_i64(value: i64, min: i64, max: i64) -> (r: i64)
    requires
        min <= max,
    ensures
        r == clamp(value as int, min as int, max as int),
        min <= r <= max,
{
    crate::mips1::checked_clamp(value, min, max).0
}

} // verus!
