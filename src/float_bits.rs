//! Range checks on IEEE-754 single-precision values held as bit patterns.
//!
//! A non-negative value's pattern orders as the value does, every NaN pattern
//! lies above that of +infinity (0x7F80_0000) once the sign bit is cleared,
//! and -0.0 (0x8000_0000) equals 0.0. The checks below are exact on that basis.
use vstd::prelude::*;

verus! {

/// Bit pattern of 1.0.
pub const ONE: u32 = 0x3F80_0000;

/// Bit pattern of -1.0.
pub const MINUS_ONE: u32 = 0xBF80_0000;

/// Bit pattern of -0.0.
pub const MINUS_ZERO: u32 = 0x8000_0000;

/// Bit pattern of 60.0.
pub const SIXTY: u32 = 0x4270_0000;

/// Bit pattern of 1000.0.
pub const THOUSAND: u32 = 0x447A_0000;

/// The value is -1, 0 or 1.
pub open spec fn is_unit_sign(b: u32) -> bool {
    b == 0 || b == MINUS_ZERO || b == ONE || b == MINUS_ONE
}

/// The value lies in [-1, 1].
pub open spec fn in_minus_one_one(b: u32) -> bool {
    b % 0x8000_0000 <= ONE
}

/// The value lies in [0, 1].
pub open spec fn in_zero_one(b: u32) -> bool {
    b <= ONE || b == MINUS_ZERO
}

/// The value lies in [0, 60].
pub open spec fn in_zero_sixty(b: u32) -> bool {
    b <= SIXTY || b == MINUS_ZERO
}

/// The value lies in [0, 1000).
pub open spec fn in_zero_thousand(b: u32) -> bool {
    b < THOUSAND || b == MINUS_ZERO
}

pub fn unit_sign(b: u32) -> (r: bool)
    ensures
        r == is_unit_sign(b),
{
    b == 0 || b == MINUS_ZERO || b == ONE || b == MINUS_ONE
}

pub fn minus_one_one(b: u32) -> (r: bool)
    ensures
        r == in_minus_one_one(b),
{
    b % 0x8000_0000 <= ONE
}

pub fn zero_one(b: u32) -> (r: bool)
    ensures
        r == in_zero_one(b),
{
    b <= ONE || b == MINUS_ZERO
}

pub fn zero_sixty(b: u32) -> (r: bool)
    ensures
        r == in_zero_sixty(b),
{
    b <= SIXTY || b == MINUS_ZERO
}

pub fn zero_thousand(b: u32) -> (r: bool)
    ensures
        r == in_zero_thousand(b),
{
    b < THOUSAND || b == MINUS_ZERO
}

} // verus!
