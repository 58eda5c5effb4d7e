//! A word-oriented boxing layout: an 8-bit tag at bits 44..=51 and a 44-bit
//! payload at bits 0..=43, stamped into the bit pattern of positive
//! infinity. Both fields lie inside the double's fraction field (bits
//! 0..=51), so the exponent of the template survives stamping: a boxed word
//! or pointer carries a nonzero tag in the fraction and is therefore always
//! an IEEE-754 NaN pattern.
//!
//! The box is the 64-bit pattern itself, so [`Boxable`] is implemented
//! directly for `u64`: a value of that type stands for the double with that
//! bit pattern.

use vstd::prelude::*;

use crate::nan::EXP_MASK;
use crate::nan::FRAC_MASK;
use crate::typemod::Type;

verus! {

/// Width of the tag field, at bits 44..=51.
pub const TYPE_BITS: u64 = 8;
/// Width of the payload field, at bits 0..=43.
pub const PAYLOAD_BITS: u64 = 44;
/// Bit pattern of positive infinity: the template a box is stamped into.
pub const INF_BITS: u64 = 0x7FF0_0000_0000_0000;
/// The tag field in place: bits 44..=51.
pub const WORD_TYPE_MASK: u64 = 0x000F_F000_0000_0000;
/// The payload field in place: bits 0..=43.
pub const WORD_VALUE_MASK: u64 = 0x0000_0FFF_FFFF_FFFF;

/// The tag field of a pattern: bits 44..=51.
pub open spec fn word_tag(b: u64) -> u64 {
    (b >> PAYLOAD_BITS) & (WORD_TYPE_MASK >> PAYLOAD_BITS)
}

/// The payload field of a pattern: bits 0..=43.
pub open spec fn word_payload(b: u64) -> u64 {
    b & WORD_VALUE_MASK
}

/// The numeric code written into the tag field for each kind.
pub open spec fn word_type_code(t: Type) -> u64 {
    match t {
        Type::Double => 0,
        Type::Int => 1,
        Type::Ptr => 2,
    }
}

/// The kind a tag-field code decodes to; only codes 0..=2 are meaningful.
pub open spec fn word_type_of(code: u64) -> Type {
    if code == 0 {
        Type::Double
    } else if code == 1 {
        Type::Int
    } else {
        Type::Ptr
    }
}

/// The pattern after the tag field is replaced by `code` (low 8 bits).
pub open spec fn with_word_tag(b: u64, code: u64) -> u64 {
    (b & !WORD_TYPE_MASK) | ((code & (WORD_TYPE_MASK >> PAYLOAD_BITS)) << PAYLOAD_BITS)
}

/// The pattern after the tag field is replaced by the code for `t`.
pub open spec fn spec_set_word_type(b: u64, t: Type) -> u64 {
    with_word_tag(b, word_type_code(t))
}

/// The pattern after the payload field is replaced by the low bits of `v`.
pub open spec fn spec_set_word_value(b: u64, v: u64) -> u64 {
    (b & !WORD_VALUE_MASK) | (v & WORD_VALUE_MASK)
}

/// Stamping a nonzero tag code and a payload into the infinity template
/// leaves the exponent all ones and the fraction nonzero: the box is a NaN
/// pattern carrying exactly that tag and the low 44 bits of the value.
proof fn lemma_word_box_bits(v: u64, code: u64, b: u64)
    by (bit_vector)
    requires
        1 <= code && code <= 2,
        b == spec_set_word_value(with_word_tag(INF_BITS, code), v),
    ensures
        crate::nan::nan_bits(b),
        word_tag(b) == code,
        word_payload(b) == v & WORD_VALUE_MASK,
{
}

/// A box that can carry a double, an integer word or a pointer address.
///
/// `bits` is the 64-bit pattern the box stands for. Reading the tag back
/// (`get_type`, `is_ptr`) is only defined while the tag field holds one of
/// the three known codes; a foreign pattern with any other code is an
/// invalid state the caller must not hand in.
pub trait Boxable: Sized {
    /// The 64-bit pattern of the box.
    spec fn bits(&self) -> u64;

    fn get_type(&self) -> (t: Type)
        requires
            word_tag(self.bits()) <= 2,
        ensures
            t == word_type_of(word_tag(self.bits())),
    ;

    fn get_value(&self) -> (v: u64)
        ensures
            v == word_payload(self.bits()),
    ;

    fn set_type(&mut self, typef: Type)
        ensures
            final(self).bits() == spec_set_word_type(old(self).bits(), typef),
    ;

    fn set_value(&mut self, value: u64)
        ensures
            final(self).bits() == spec_set_word_value(old(self).bits(), value),
    ;

    fn is_f64(&self) -> (r: bool)
        ensures
            r == !crate::nan::nan_bits(self.bits()),
    ;

    fn is_word(&self) -> (r: bool)
        ensures
            r == crate::nan::nan_bits(self.bits()),
    ;

    fn is_ptr(&self) -> (r: bool)
        requires
            word_tag(self.bits()) <= 2,
        ensures
            r == (word_type_of(word_tag(self.bits())) == Type::Ptr),
    ;

    fn as_f64(&self) -> (r: u64)
        ensures
            r == self.bits(),
    ;

    fn as_word(&self) -> (r: u64)
        ensures
            r == word_payload(self.bits()),
    ;

    fn nan_as_ptr(&self) -> (r: u64)
        ensures
            r == word_payload(self.bits()),
    ;

    fn from_f64(value: u64) -> (r: Self)
        ensures
            r.bits() == value,
    ;

    fn from_word(value: u64) -> (r: Self)
        ensures
            r.bits() == spec_set_word_value(spec_set_word_type(INF_BITS, Type::Int), value),
            crate::nan::nan_bits(r.bits()),
            word_tag(r.bits()) == word_type_code(Type::Int),
            word_payload(r.bits()) == value & WORD_VALUE_MASK,
    ;

    fn from_ptr(value: u64) -> (r: Self)
        ensures
            r.bits() == spec_set_word_value(spec_set_word_type(INF_BITS, Type::Ptr), value),
            crate::nan::nan_bits(r.bits()),
            word_tag(r.bits()) == word_type_code(Type::Ptr),
            word_payload(r.bits()) == value & WORD_VALUE_MASK,
    ;
}

impl Boxable for u64 {
    open spec fn bits(&self) -> u64 {
        *self
    }

    #[inline(always)]
    fn get_type(&self) -> (t: Type) {
        let field: u64 = (*self >> PAYLOAD_BITS) & (WORD_TYPE_MASK >> PAYLOAD_BITS);
        if field == 0 {
            Type::Double
        } else if field == 1 {
            Type::Int
        } else {
            Type::Ptr
        }
    }

    #[inline(always)]
    fn get_value(&self) -> (v: u64) {
        *self & WORD_VALUE_MASK
    }

    #[inline(always)]
    fn set_type(&mut self, typef: Type) {
        let code: u64 = match typef {
            Type::Double => 0,
            Type::Int => 1,
            Type::Ptr => 2,
        };
        *self = (*self & !WORD_TYPE_MASK) | ((code & (WORD_TYPE_MASK >> PAYLOAD_BITS))
            << PAYLOAD_BITS);
    }

    #[inline(always)]
    fn set_value(&mut self, value: u64) {
        *self = (*self & !WORD_VALUE_MASK) | (value & WORD_VALUE_MASK);
    }

    #[inline(always)]
    fn is_f64(&self) -> (r: bool) {
        !(*self & EXP_MASK == EXP_MASK && *self & FRAC_MASK != 0)
    }

    #[inline(always)]
    fn is_word(&self) -> (r: bool) {
        *self & EXP_MASK == EXP_MASK && *self & FRAC_MASK != 0
    }

    #[inline(always)]
    fn is_ptr(&self) -> (r: bool) {
        let t: Type = self.get_type();
        t == Type::Ptr
    }

    #[inline(always)]
    fn as_f64(&self) -> (r: u64) {
        *self
    }

    #[inline(always)]
    fn as_word(&self) -> (r: u64) {
        self.get_value()
    }

    #[inline(always)]
    fn nan_as_ptr(&self) -> (r: u64) {
        self.get_value()
    }

    #[inline(always)]
    fn from_f64(value: u64) -> (r: Self) {
        value
    }

    #[inline(always)]
    fn from_word(value: u64) -> (r: Self) {
        let mut b: u64 = INF_BITS;
        b.set_type(Type::Int);
        b.set_value(value);
        proof {
            lemma_word_box_bits(value, 1, b);
        }
        b
    }

    #[inline(always)]
    fn from_ptr(value: u64) -> (r: Self) {
        let mut b: u64 = INF_BITS;
        b.set_type(Type::Ptr);
        b.set_value(value);
        proof {
            lemma_word_box_bits(value, 2, b);
        }
        b
    }
}

} // verus!
