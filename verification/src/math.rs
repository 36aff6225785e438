//! 16.16 fixed-point numbers for deterministic simulation math.
//!
//! A `Fixed` holds the raw bits of a signed 16.16 fixed-point value, so its
//! mathematical value is `bits / 65536`. The arithmetic that the simulation
//! needs is delegated to the `fixed` crate (`FixedI32<U16>`).

use fixed::types::extra::U16;
use fixed::FixedI32;
use vstd::prelude::*;

verus! {

/// Number of raw units in one whole fixed-point unit (2^16).
pub const FIXED_SCALE: i32 = 65536;

/// Signed 16.16 fixed-point value, stored as its raw bits.
#[derive(Debug, Clone, Copy, PartialEq, Eq, PartialOrd, Ord, Hash, Structural)]
pub struct Fixed {
    pub bits: i32,
}

/// Smallest whole number a `Fixed` can hold.
pub open spec fn fixed_int_min() -> int {
    -32768
}

/// Largest whole number a `Fixed` can hold.
pub open spec fn fixed_int_max() -> int {
    32767
}

/// Whether the product of two raw values stays inside the 64-bit intermediate
/// that `FixedI32<U16>` multiplication uses (it asserts on overflow).
pub open spec fn mul_fits(a: int, b: int) -> bool {
    i64::MIN <= a * b * 65536 <= i64::MAX
}

/// Raw bits of `FixedI32<U16>::from_num(v)` for a whole number `v` that the
/// type can hold. Claimed: the conversion is exact, so the bits are `v * 2^16`.
#[verifier::external_body]
fn outside_from_int(v: i32) -> (bits: i32)
    requires
        fixed_int_min() <= v <= fixed_int_max(),
    ensures
        bits == v * 65536,
{
    FixedI32::<U16>::from_num(v).to_bits()
}

/// Raw bits of `FixedI32<U16>::from_bits(a) * FixedI32<U16>::from_bits(b)`.
/// Claimed: when `a * b * 2^16` fits in an `i64` (the crate's intermediate,
/// whose overflow it asserts against), the product is `a * b` shifted right
/// by 16 bits, that is rounded toward negative infinity.
#[verifier::external_body]
fn outside_mul(a: i32, b: i32) -> (bits: i32)
    requires
        mul_fits(a as int, b as int),
    ensures
        bits as int == (a as int * b as int) / 65536,
{
    (FixedI32::<U16>::from_bits(a) * FixedI32::<U16>::from_bits(b)).to_bits()
}

/// `FixedI32::<U16>::from_bits(bits).floor().to_num::<i32>()`. Claimed: the
/// whole part rounded toward negative infinity, `bits / 2^16`.
#[verifier::external_body]
fn outside_floor_to_int(bits: i32) -> (v: i32)
    ensures
        v as int == bits as int / 65536,
{
    FixedI32::<U16>::from_bits(bits).floor().to_num::<i32>()
}

impl Fixed {
    /// The value `bits / 65536`, as a rational number scaled by 65536.
    pub open spec fn raw(self) -> int {
        self.bits as int
    }

    /// Builds a value from its raw bits.
    pub fn from_bits(bits: i32) -> (f: Fixed)
        ensures
            f.bits == bits,
    {
        Fixed { bits }
    }

    /// The raw bits of this value.
    pub fn to_bits(self) -> (b: i32)
        ensures
            b == self.bits,
    {
        self.bits
    }

    /// Zero.
    pub fn zero() -> (f: Fixed)
        ensures
            f.bits == 0,
    {
        Fixed { bits: 0 }
    }

    /// One.
    pub fn one() -> (f: Fixed)
        ensures
            f.bits == 65536,
    {
        Fixed { bits: 65536 }
    }

    /// The whole number `v` as a fixed-point value.
    pub fn from_int(v: i32) -> (f: Fixed)
        requires
            fixed_int_min() <= v <= fixed_int_max(),
        ensures
            f.bits == v * 65536,
    {
        Fixed { bits: outside_from_int(v) }
    }

    /// Rounds toward negative infinity and returns the whole part.
    pub fn floor_to_int(self) -> (v: i32)
        ensures
            v as int == self.bits as int / 65536,
            v as int * 65536 <= self.bits < v as int * 65536 + 65536,
    {
        outside_floor_to_int(self.bits)
    }

    /// Sum; the raw bits add.
    pub fn add(self, other: Fixed) -> (f: Fixed)
        requires
            i32::MIN <= self.bits + other.bits <= i32::MAX,
        ensures
            f.bits == self.bits + other.bits,
    {
        Fixed { bits: self.bits + other.bits }
    }

    /// Difference; the raw bits subtract.
    pub fn sub(self, other: Fixed) -> (f: Fixed)
        requires
            i32::MIN <= self.bits - other.bits <= i32::MAX,
        ensures
            f.bits == self.bits - other.bits,
    {
        Fixed { bits: self.bits - other.bits }
    }

    /// Product, rounded toward negative infinity.
    pub fn mul(self, other: Fixed) -> (f: Fixed)
        requires
            mul_fits(self.bits as int, other.bits as int),
        ensures
            f.bits as int == (self.bits as int * other.bits as int) / 65536,
    {
        Fixed { bits: outside_mul(self.bits, other.bits) }
    }
}

/// The whole number `v` as a fixed-point value.
pub fn fixed_from_i32(v: i32) -> (f: Fixed)
    requires
        fixed_int_min() <= v <= fixed_int_max(),
    ensures
        f.bits == v * 65536,
{
    Fixed::from_int(v)
}

} // verus!
