//! The coarse three-way kind used by the word-oriented [`crate::boxable`]
//! layout: a genuine double, a boxed integer word, or a boxed pointer address.

use vstd::prelude::*;

verus! {

#[derive(Debug, PartialEq, Eq, Structural)]
pub enum Type {
    Double,
    Int,
    Ptr,
}

impl Type {
    /// Classifies a double, given by its bit pattern: a NaN pattern is a
    /// boxed integer word, anything else a genuine double.
    pub fn from_f64_bits(bits: u64) -> (t: Type)
        ensures
            t == (if crate::nan::nan_bits(bits) {
                Type::Int
            } else {
                Type::Double
            }),
    {
        if bits & crate::nan::EXP_MASK == crate::nan::EXP_MASK && bits & crate::nan::FRAC_MASK
            != 0 {
            Type::Int
        } else {
            Type::Double
        }
    }

    /// A pointer-sized address always boxes as a pointer.
    pub fn from_addr(_addr: u64) -> (t: Type)
        ensures
            t == Type::Ptr,
    {
        Type::Ptr
    }
}

/// A plain machine word is always boxed as an integer.
impl From<u64> for Type {
    fn from(_value: u64) -> (r: Type) {
        Type::Int
    }
}

impl vstd::std_specs::convert::FromSpecImpl<u64> for Type {
    open spec fn obeys_from_spec() -> bool {
        true
    }

    open spec fn from_spec(_value: u64) -> Type {
        Type::Int
    }
}

} // verus!
