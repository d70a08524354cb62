//! Floating-point numbers, held as the bits of their IEEE 754 encoding.
//!
//! The library stores such numbers, passes them on and compares them; it does not compute with
//! them.

use vstd::prelude::*;
#[allow(unused_imports)]
use vstd::std_specs::cmp::PartialEqSpec;
use vstd::std_specs::cmp::PartialEqSpecImpl;

verus! {

/// A number in single precision.
#[derive(Clone, Copy, Debug)]
pub struct Float32 {
    pub bits: u32,
}

impl Float32 {
    /// Whether these are the bits of something that is not a number.
    pub open spec fn is_nan(self) -> bool {
        self.bits % 0x8000_0000 > 0x7f80_0000
    }

    /// Whether these are the bits of zero, of either sign.
    pub open spec fn is_zero(self) -> bool {
        self.bits % 0x8000_0000 == 0
    }
}

impl PartialEq for Float32 {
    fn eq(&self, other: &Self) -> (same: bool) {
        let a: u32 = self.bits % 0x8000_0000;
        let b: u32 = other.bits % 0x8000_0000;
        a <= 0x7f80_0000 && b <= 0x7f80_0000 && (self.bits == other.bits || (a == 0 && b == 0))
    }
}

impl PartialEqSpecImpl for Float32 {
    open spec fn obeys_eq_spec() -> bool {
        true
    }

    /// Numbers are equal when their bits are, save that the two zeros are equal and that what is
    /// not a number equals nothing.
    open spec fn eq_spec(&self, other: &Self) -> bool {
        &&& !self.is_nan() && !other.is_nan()
        &&& self.bits == other.bits || (self.is_zero() && other.is_zero())
    }
}

/// A number in double precision.
#[derive(Clone, Copy, Debug)]
pub struct Float64 {
    pub bits: u64,
}

impl Float64 {
    /// Whether these are the bits of something that is not a number.
    pub open spec fn is_nan(self) -> bool {
        self.bits % 0x8000_0000_0000_0000 > 0x7ff0_0000_0000_0000
    }
}

/// What is no number is all ones in the exponent and not all zeros in the fraction, whatever its
/// sign.
pub proof fn what_is_no_number(single: Float32, double: Float64)
    ensures
        single.is_nan() <==> single.bits / 0x80_0000 % 0x100 == 0xff && single.bits % 0x80_0000
            != 0,
        double.is_nan() <==> double.bits / 0x10_0000_0000_0000 % 0x800 == 0x7ff && double.bits
            % 0x10_0000_0000_0000 != 0,
{
}

/// Zero equals itself, whatever its sign. Any other number equals itself alone, and what is no
/// number equals nothing.
pub proof fn numbers_equal_themselves(a: Float32, b: Float32)
    ensures
        a.is_zero() <==> a.bits == 0 || a.bits == 0x8000_0000,
        a.is_nan() ==> !PartialEqSpec::eq_spec(&a, &b) && !PartialEqSpec::eq_spec(&b, &a),
        !a.is_nan() && a.bits == b.bits ==> PartialEqSpec::eq_spec(&a, &b),
        a.is_zero() && b.is_zero() ==> PartialEqSpec::eq_spec(&a, &b),
        PartialEqSpec::eq_spec(&a, &b) && a.bits != b.bits ==> a.is_zero() && b.is_zero(),
{
}

} // verus!
