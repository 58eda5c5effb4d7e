//! The boxed-value codec: a four-variant tagged value (double, signed
//! integer, unsigned integer, pointer address) encoded inside the 64-bit
//! pattern of an IEEE-754 double.
//!
//! A pattern whose exponent field is not all ones (or whose fraction is zero)
//! is an ordinary double. Any NaN pattern is a box: bits 48..=51 hold a
//! 4-bit type tag, bits 0..=47 hold the payload magnitude, and bit 63 holds
//! the sign of a signed payload. Construction always starts from the
//! canonical template (positive infinity, `EXP_MASK`), so stamping a nonzero
//! tag into bits 48..=51 makes the fraction nonzero and the pattern a NaN.

use vstd::prelude::*;

verus! {

/// Bits 52..=62: the IEEE-754 double exponent field. A pattern is a NaN
/// exactly when this field is all ones and the fraction is nonzero; the
/// pattern itself is also positive infinity, the canonical box template.
pub const EXP_MASK: u64 = 0x7FF0_0000_0000_0000;

/// Bits 0..=51: the IEEE-754 double fraction field.
pub const FRAC_MASK: u64 = 0x000F_FFFF_FFFF_FFFF;

/// Bits 48..=51: the 4-bit type tag of a boxed value.
pub const TYPE_MASK: u64 = 0x000F_0000_0000_0000;

/// Bits 0..=47: the 48-bit payload magnitude of a boxed value.
pub const VALUE_MASK: u64 = 0x0000_FFFF_FFFF_FFFF;

/// Bit 63: the double sign bit, reused as the sign of a signed payload.
pub const SIGN_MASK: u64 = 0x8000_0000_0000_0000;

/// The logical variant a boxed pattern holds.
#[derive(Debug, PartialEq, Eq, Structural)]
pub enum Type {
    F64,
    I64,
    U64,
    Ptr,
}

/// True when `b` is an IEEE-754 NaN pattern, i.e. a boxed (non-double) value.
pub open spec fn nan_bits(b: u64) -> bool {
    b & EXP_MASK == EXP_MASK && b & FRAC_MASK != 0
}

/// The 4-bit tag field of `b`, meaningful only when `nan_bits(b)`.
pub open spec fn tag_bits(b: u64) -> u64 {
    (b & TYPE_MASK) >> 48
}

/// The 48-bit payload magnitude of `b`.
pub open spec fn payload_bits(b: u64) -> u64 {
    b & VALUE_MASK
}

/// True when the sign bit of `b` is set.
pub open spec fn sign_bit(b: u64) -> bool {
    b & SIGN_MASK != 0
}

/// The tag code stamped into the tag field for each variant.
pub open spec fn tag_code(t: Type) -> u64 {
    match t {
        Type::F64 => 1,
        Type::I64 => 2,
        Type::U64 => 3,
        Type::Ptr => 4,
    }
}

/// The pattern after the tag field of `b` is replaced by `code` (low 4 bits).
pub open spec fn with_tag(b: u64, code: u64) -> u64 {
    (b & !TYPE_MASK) | (((TYPE_MASK >> 48) & code) << 48)
}

/// The magnitude of `v`: its absolute value as an unsigned word. Total even
/// at `i64::MIN`, whose magnitude is `0x8000_0000_0000_0000`.
pub open spec fn abs_mag(v: i64) -> u64 {
    if v >= 0 {
        v as u64
    } else {
        (-(v as int)) as u64
    }
}

/// The pattern after the payload field of `b` is replaced by the low 48 bits
/// of `m` and, when `neg` holds, the sign bit is set. The sign bit is only
/// ever added, never cleared, exactly as the encoder works.
pub open spec fn with_payload(b: u64, m: u64, neg: bool) -> u64 {
    if neg {
        (b & !VALUE_MASK) | (m & VALUE_MASK) | SIGN_MASK
    } else {
        (b & !VALUE_MASK) | (m & VALUE_MASK)
    }
}

/// What [`NaNBox::set_type`] returns.
pub open spec fn spec_set_type(x: u64, t: Type) -> u64 {
    with_tag(x, tag_code(t))
}

/// What [`NaNBox::set_value`] returns: sign-magnitude encoding of `v` in the
/// payload field and the sign bit.
pub open spec fn spec_set_value(x: u64, v: i64) -> u64 {
    with_payload(x, abs_mag(v), v < 0)
}

/// What [`NaNBox::get_value`] returns: the payload magnitude, negated when
/// the sign bit is set.
pub open spec fn spec_get_value(b: u64) -> i64 {
    if sign_bit(b) {
        (-(payload_bits(b) as int)) as i64
    } else {
        payload_bits(b) as i64
    }
}

/// What [`NaNBox::get_type`] returns: `Ok(Type::F64)` for any non-NaN
/// pattern, the variant named by the tag field for a NaN pattern with a
/// recognized tag, and `Err` carrying the raw tag bits otherwise.
pub open spec fn spec_get_type(b: u64) -> Result<Type, u64> {
    if !nan_bits(b) {
        Result::Ok(Type::F64)
    } else if tag_bits(b) == 1 {
        Result::Ok(Type::F64)
    } else if tag_bits(b) == 2 {
        Result::Ok(Type::I64)
    } else if tag_bits(b) == 3 {
        Result::Ok(Type::U64)
    } else if tag_bits(b) == 4 {
        Result::Ok(Type::Ptr)
    } else {
        Result::Err(tag_bits(b))
    }
}

/// True when [`NaNBox::is_f64`] holds: any non-NaN pattern counts as a
/// double, whatever its tag field holds.
pub open spec fn spec_is_f64(b: u64) -> bool {
    !nan_bits(b)
}

/// True when [`NaNBox::is_i64`] holds.
pub open spec fn spec_is_i64(b: u64) -> bool {
    nan_bits(b) && spec_get_type(b) == Result::<Type, u64>::Ok(Type::I64)
}

/// True when [`NaNBox::is_u64`] holds.
pub open spec fn spec_is_u64(b: u64) -> bool {
    nan_bits(b) && spec_get_type(b) == Result::<Type, u64>::Ok(Type::U64)
}

/// True when [`NaNBox::is_ptr`] holds.
pub open spec fn spec_is_ptr(b: u64) -> bool {
    nan_bits(b) && spec_get_type(b) == Result::<Type, u64>::Ok(Type::Ptr)
}

/// What [`NaNBox::from_i64`] returns.
pub open spec fn spec_from_i64(v: i64) -> u64 {
    spec_set_type(spec_set_value(EXP_MASK, v), Type::I64)
}

/// What [`NaNBox::from_u64`] returns: the low 48 bits of the value written
/// into the template's payload field, the sign bit left at the template
/// default (clear).
pub open spec fn spec_from_u64(v: u64) -> u64 {
    spec_set_type(with_payload(EXP_MASK, v, false), Type::U64)
}

/// What [`NaNBox::from_ptr`] returns: the low 48 bits of the address in the
/// payload field, the sign bit left clear.
pub open spec fn spec_from_ptr(a: u64) -> u64 {
    spec_set_type(with_payload(EXP_MASK, a, false), Type::Ptr)
}

/// A boxed value: the 64-bit pattern of a double. The field is the raw
/// pattern; reinterpret it as a double with `f64::from_bits` outside the
/// codec.
#[derive(Clone, Copy)]
pub struct NaNBox(pub u64);

/// Stamping a tag code 1..=4 and a payload into the canonical template
/// yields a NaN pattern carrying exactly that tag, the low 48 bits of the
/// magnitude, and the requested sign.
proof fn lemma_box_bits(m: u64, neg: bool, code: u64, b: u64)
    by (bit_vector)
    requires
        1 <= code && code <= 4,
        b == with_tag(with_payload(EXP_MASK, m, neg), code),
    ensures
        nan_bits(b),
        tag_bits(b) == code,
        payload_bits(b) == m & VALUE_MASK,
        sign_bit(b) == neg,
{
}

/// A magnitude below `2^48` passes through the payload mask unchanged.
proof fn lemma_mask_small(m: u64)
    by (bit_vector)
    requires
        m < 0x1_0000_0000_0000,
    ensures
        m & VALUE_MASK == m,
{
}

/// The payload field never reaches `2^48`.
proof fn lemma_payload_bound(b: u64)
    by (bit_vector)
    ensures
        payload_bits(b) < 0x1_0000_0000_0000,
{
}

impl NaNBox {
    /// The canonical template: positive infinity.
    #[inline(always)]
    fn mk_inf() -> (r: u64)
        ensures
            r == EXP_MASK,
    {
        EXP_MASK
    }

    /// Replaces the 4-bit tag field of `x` with the code for `nanbox_type`.
    #[inline(always)]
    pub fn set_type(x: u64, nanbox_type: Type) -> (r: u64)
        ensures
            r == spec_set_type(x, nanbox_type),
    {
        let type_val: u64 = match nanbox_type {
            Type::F64 => 1,
            Type::I64 => 2,
            Type::U64 => 3,
            Type::Ptr => 4,
        };
        (x & !TYPE_MASK) | (((TYPE_MASK >> 48) & type_val) << 48)
    }

    /// Classifies the pattern: any non-NaN is a double; a NaN decodes by its
    /// tag field, and an unrecognized tag is reported as `Err` with the raw
    /// tag bits.
    #[inline(always)]
    pub fn get_type(&self) -> (r: Result<Type, u64>)
        ensures
            r == spec_get_type(self.0),
    {
        if self.is_f64() {
            return Result::Ok(Type::F64);
        }
        let t: u64 = (self.0 & TYPE_MASK) >> 48;
        if t == 1 {
            Result::Ok(Type::F64)
        } else if t == 2 {
            Result::Ok(Type::I64)
        } else if t == 3 {
            Result::Ok(Type::U64)
        } else if t == 4 {
            Result::Ok(Type::Ptr)
        } else {
            Result::Err(t)
        }
    }

    /// Writes `value` into `x` in sign-magnitude form: the magnitude's low
    /// 48 bits into the payload field, the sign into bit 63. The magnitude
    /// of `i64::MIN` is taken as `2^63` (unsigned absolute value), so the
    /// encoder is total.
    #[inline(always)]
    pub fn set_value(x: u64, value: i64) -> (r: u64)
        ensures
            r == spec_set_value(x, value),
    {
        let mag: u64 = if value >= 0 {
            value as u64
        } else {
            (-(value as i128)) as u64
        };
        if value < 0 {
            (x & !VALUE_MASK) | (mag & VALUE_MASK) | SIGN_MASK
        } else {
            (x & !VALUE_MASK) | (mag & VALUE_MASK)
        }
    }

    /// Reads the sign-magnitude payload back: the 48-bit magnitude, negated
    /// when the sign bit is set.
    #[inline(always)]
    pub fn get_value(&self) -> (r: i64)
        ensures
            r == spec_get_value(self.0),
    {
        let bits: u64 = self.0;
        proof {
            lemma_payload_bound(bits);
        }
        let value: i64 = (bits & VALUE_MASK) as i64;
        if (bits & SIGN_MASK) != 0 {
            -value
        } else {
            value
        }
    }

    /// True for every non-NaN pattern, whatever the tag field holds.
    #[inline(always)]
    pub fn is_f64(&self) -> (r: bool)
        ensures
            r == spec_is_f64(self.0),
    {
        !(self.0 & EXP_MASK == EXP_MASK && self.0 & FRAC_MASK != 0)
    }

    /// True for a NaN pattern whose tag names the signed-integer variant.
    #[inline(always)]
    pub fn is_i64(&self) -> (r: bool)
        ensures
            r == spec_is_i64(self.0),
    {
        !self.is_f64() && (match self.get_type() {
            Result::Ok(Type::I64) => true,
            _ => false,
        })
    }

    /// True for a NaN pattern whose tag names the unsigned-integer variant.
    #[inline(always)]
    pub fn is_u64(&self) -> (r: bool)
        ensures
            r == spec_is_u64(self.0),
    {
        !self.is_f64() && (match self.get_type() {
            Result::Ok(Type::U64) => true,
            _ => false,
        })
    }

    /// True for a NaN pattern whose tag names the pointer variant.
    #[inline(always)]
    pub fn is_ptr(&self) -> (r: bool)
        ensures
            r == spec_is_ptr(self.0),
    {
        !self.is_f64() && (match self.get_type() {
            Result::Ok(Type::Ptr) => true,
            _ => false,
        })
    }

    /// The raw pattern, to be reinterpreted as a double with `f64::from_bits`;
    /// semantically meaningful only when [`NaNBox::is_f64`] holds.
    #[inline(always)]
    pub fn as_f64(&self) -> (r: u64)
        ensures
            r == self.0,
    {
        self.0
    }

    /// The decoded signed payload; meaningful only when the tag is `I64`.
    #[inline(always)]
    pub fn as_i64(&self) -> (r: i64)
        ensures
            r == spec_get_value(self.0),
    {
        self.get_value()
    }

    /// The decoded payload as unsigned; meaningful only when the tag is `U64`.
    #[inline(always)]
    pub fn as_u64(&self) -> (r: u64)
        ensures
            r == spec_get_value(self.0) as u64,
            spec_get_value(self.0) >= 0 ==> r == payload_bits(self.0),
    {
        proof {
            lemma_payload_bound(self.0);
        }
        #[verifier::truncate] (self.get_value() as u64)
    }

    /// The decoded payload as a pointer-sized address; meaningful only when
    /// the tag is `Ptr`.
    #[inline(always)]
    pub fn as_ptr(&self) -> (r: u64)
        ensures
            r == spec_get_value(self.0) as u64,
            spec_get_value(self.0) >= 0 ==> r == payload_bits(self.0),
    {
        proof {
            lemma_payload_bound(self.0);
        }
        #[verifier::truncate] (self.get_value() as u64)
    }

    /// Boxes a double by its bit pattern, unchanged. A non-NaN pattern
    /// classifies as a double; a NaN pattern is taken as already boxed and
    /// classifies by whatever its tag field happens to hold.
    #[inline(always)]
    pub fn from_f64(value: u64) -> (r: NaNBox)
        ensures
            r.0 == value,
            spec_is_f64(r.0) == !nan_bits(value),
            !nan_bits(value) ==> spec_get_type(r.0) == Result::<Type, u64>::Ok(Type::F64),
    {
        NaNBox(value)
    }

    /// Boxes an unsigned integer: the low 48 bits of the value go into the
    /// payload field (silent masking at or above `2^48`), and the sign bit
    /// stays at the template default, clear.
    #[inline(always)]
    pub fn from_u64(value: u64) -> (r: NaNBox)
        ensures
            r.0 == spec_from_u64(value),
            nan_bits(r.0),
            spec_get_type(r.0) == Result::<Type, u64>::Ok(Type::U64),
            spec_is_u64(r.0),
            payload_bits(r.0) == value & VALUE_MASK,
            !sign_bit(r.0),
            value < 0x1_0000_0000_0000 ==> spec_get_value(r.0) == value,
    {
        let stamped: u64 = (Self::mk_inf() & !VALUE_MASK) | (value & VALUE_MASK);
        let b: u64 = Self::set_type(stamped, Type::U64);
        proof {
            lemma_box_bits(value, false, 3, b);
            if value < 0x1_0000_0000_0000 {
                lemma_mask_small(value);
            }
        }
        NaNBox(b)
    }

    /// Boxes a signed integer in sign-magnitude form: the magnitude's low
    /// 48 bits in the payload field (silent masking at or above `2^48`), the
    /// sign in bit 63.
    #[inline(always)]
    pub fn from_i64(value: i64) -> (r: NaNBox)
        ensures
            r.0 == spec_from_i64(value),
            nan_bits(r.0),
            spec_get_type(r.0) == Result::<Type, u64>::Ok(Type::I64),
            spec_is_i64(r.0),
            payload_bits(r.0) == abs_mag(value) & VALUE_MASK,
            sign_bit(r.0) == (value < 0),
            -0x1_0000_0000_0000 < value < 0x1_0000_0000_0000 ==> spec_get_value(r.0)
                == value,
    {
        let b: u64 = Self::set_type(Self::set_value(Self::mk_inf(), value), Type::I64);
        proof {
            lemma_box_bits(abs_mag(value), value < 0, 2, b);
            if -0x1_0000_0000_0000 < value < 0x1_0000_0000_0000 {
                lemma_mask_small(abs_mag(value));
            }
        }
        NaNBox(b)
    }

    /// Boxes a pointer-sized address: the low 48 bits go into the payload
    /// field and the sign bit stays clear. Only address spaces up to 48 bits
    /// are represented faithfully; higher bits are silently masked away.
    #[inline(always)]
    pub fn from_ptr(value: u64) -> (r: NaNBox)
        ensures
            r.0 == spec_from_ptr(value),
            nan_bits(r.0),
            spec_get_type(r.0) == Result::<Type, u64>::Ok(Type::Ptr),
            spec_is_ptr(r.0),
            payload_bits(r.0) == value & VALUE_MASK,
            !sign_bit(r.0),
            value < 0x1_0000_0000_0000 ==> spec_get_value(r.0) == value,
    {
        let stamped: u64 = (Self::mk_inf() & !VALUE_MASK) | (value & VALUE_MASK);
        let b: u64 = Self::set_type(stamped, Type::Ptr);
        proof {
            lemma_box_bits(value, false, 4, b);
            if value < 0x1_0000_0000_0000 {
                lemma_mask_small(value);
            }
        }
        NaNBox(b)
    }

    /// The double's bit pattern, only if the value classifies as a double.
    #[inline(always)]
    pub fn get_f64(&self) -> (r: Option<u64>)
        ensures
            spec_is_f64(self.0) ==> r == Option::Some(self.0),
            !spec_is_f64(self.0) ==> r is None,
    {
        if self.is_f64() {
            Option::Some(self.as_f64())
        } else {
            Option::None
        }
    }

    /// The decoded signed payload, only if the tag names the `I64` variant.
    #[inline(always)]
    pub fn get_i64(&self) -> (r: Option<i64>)
        ensures
            spec_is_i64(self.0) ==> r == Option::Some(spec_get_value(self.0)),
            !spec_is_i64(self.0) ==> r is None,
    {
        if self.is_i64() {
            Option::Some(self.as_i64())
        } else {
            Option::None
        }
    }

    /// The decoded unsigned payload, only if the tag names the `U64` variant.
    #[inline(always)]
    pub fn get_u64(&self) -> (r: Option<u64>)
        ensures
            spec_is_u64(self.0) ==> r == Option::Some(spec_get_value(self.0) as u64),
            !spec_is_u64(self.0) ==> r is None,
    {
        if self.is_u64() {
            Option::Some(self.as_u64())
        } else {
            Option::None
        }
    }

    /// The decoded address, only if the tag names the `Ptr` variant.
    #[inline(always)]
    pub fn get_ptr(&self) -> (r: Option<u64>)
        ensures
            spec_is_ptr(self.0) ==> r == Option::Some(spec_get_value(self.0) as u64),
            !spec_is_ptr(self.0) ==> r is None,
    {
        if self.is_ptr() {
            Option::Some(self.as_ptr())
        } else {
            Option::None
        }
    }
}

/// How many of the four classification flags hold of a pattern.
pub open spec fn flag_count(b: u64) -> int {
    (if spec_is_f64(b) {
        1int
    } else {
        0int
    }) + (if spec_is_i64(b) {
        1int
    } else {
        0int
    }) + (if spec_is_u64(b) {
        1int
    } else {
        0int
    }) + (if spec_is_ptr(b) {
        1int
    } else {
        0int
    })
}

/// Mutual exclusivity of the classification flags: no pattern satisfies two
/// of `is_f64`/`is_i64`/`is_u64`/`is_ptr`, and exactly one holds unless the
/// pattern is a NaN whose tag field is outside 2..=4 — that is, a foreign
/// NaN with an unrecognized tag, or one carrying the reserved tag 1, which
/// classifies as `Ok(Type::F64)` without `is_f64` holding (`is_f64` is the
/// documented "not a NaN" shortcut, not `classify() == Ok(F64)`).
pub proof fn lemma_flags_exclusive(b: u64)
    ensures
        flag_count(b) <= 1,
        flag_count(b) == 1 <==> (!nan_bits(b) || 2 <= tag_bits(b) <= 4),
{
}

} // verus!
