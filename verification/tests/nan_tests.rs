use nanbox::nan::NaNBox;
use nanbox::nan::Type;
use nanbox::nan::EXP_MASK;

fn boxed(v: f64) -> NaNBox {
    NaNBox::from_f64(v.to_bits())
}

#[test]
fn float_round_trip() {
    for v in [3.14f64, 0.0, -0.0, 1.5e300, -2.25, f64::INFINITY, f64::NEG_INFINITY] {
        let b = boxed(v);
        assert_eq!(b.as_f64(), v.to_bits());
        assert_eq!(f64::from_bits(b.as_f64()).to_bits(), v.to_bits());
        assert_eq!(b.get_type(), Ok(Type::F64));
        assert!(b.is_f64());
    }
}

#[test]
fn float_nan_input_classifies_by_its_tag_bits() {
    // The standard quiet NaN has bits 48..=51 equal to 8: boxing it collides
    // with the tag field and classification reports the foreign tag.
    let b = boxed(f64::NAN);
    assert_eq!(b.get_type(), Err(8));
    assert!(!b.is_f64());
    assert_eq!(b.get_f64(), None);
}

#[test]
fn unsigned_round_trip() {
    for v in [0u64, 1, 42, 0xFFFF_FFFF_FFFF] {
        let b = NaNBox::from_u64(v);
        assert_eq!(b.get_type(), Ok(Type::U64));
        assert_eq!(b.as_u64(), v);
        assert_eq!(b.get_u64(), Some(v));
        assert!(b.is_u64());
    }
}

#[test]
fn unsigned_masking_boundary() {
    // One past the largest payload: the high bit is masked away and the box
    // decodes to zero, deterministically.
    let b = NaNBox::from_u64(1u64 << 48);
    assert_eq!(b.get_type(), Ok(Type::U64));
    assert_eq!(b.as_u64(), 0);
    let c = NaNBox::from_u64((1u64 << 48) + 5);
    assert_eq!(c.as_u64(), 5);
}

#[test]
fn signed_round_trip() {
    for v in [0i64, -1, 69, -69, 0xFFFF_FFFF_FFFF, -0xFFFF_FFFF_FFFF] {
        let b = NaNBox::from_i64(v);
        assert_eq!(b.get_type(), Ok(Type::I64));
        assert_eq!(b.as_i64(), v);
        assert_eq!(b.get_i64(), Some(v));
        assert!(b.is_i64());
    }
}

#[test]
fn signed_magnitude_overflow_policy() {
    // The magnitude is the unsigned absolute value, then masked to 48 bits:
    // at i64::MIN the masked magnitude is zero, so the box decodes to zero
    // rather than trapping.
    let b = NaNBox::from_i64(i64::MIN);
    assert_eq!(b.get_type(), Ok(Type::I64));
    assert_eq!(b.as_i64(), 0);
    let c = NaNBox::from_i64(-(1i64 << 48));
    assert_eq!(c.as_i64(), 0);
}

#[test]
fn pointer_round_trip() {
    let b = NaNBox::from_ptr(0x1234);
    assert_eq!(b.get_type(), Ok(Type::Ptr));
    assert_eq!(b.as_ptr(), 0x1234);
    assert!(b.is_ptr());
    let top = (1u64 << 48) - 1;
    assert_eq!(NaNBox::from_ptr(top).as_ptr(), top);
    assert_eq!(NaNBox::from_ptr(0).get_ptr(), Some(0));
    // High address bits are masked away; the sign bit stays clear.
    let wide = NaNBox::from_ptr((1u64 << 63) | 0x1234);
    assert_eq!(wide.as_ptr(), 0x1234);
    assert_eq!(wide.0 >> 63, 0);
}

#[test]
fn fallible_accessors() {
    let p = NaNBox::from_ptr(0x1234);
    assert_eq!(p.get_i64(), None);
    assert_eq!(p.get_u64(), None);
    assert_eq!(p.get_f64(), None);
    assert_eq!(p.get_ptr(), Some(0x1234));

    let u = NaNBox::from_u64(7);
    assert_eq!(u.get_u64(), Some(7));
    assert_eq!(u.get_i64(), None);
    assert_eq!(u.get_ptr(), None);
    assert_eq!(u.get_f64(), None);

    let f = boxed(2.5);
    assert_eq!(f.get_f64(), Some(2.5f64.to_bits()));
    assert_eq!(f.get_i64(), None);
    assert_eq!(f.get_u64(), None);
    assert_eq!(f.get_ptr(), None);
}

#[test]
fn unrecognized_tag_reports_raw_bits() {
    // A NaN pattern whose tag field holds 0: exponent all ones, a nonzero
    // fraction below the tag field, tag bits left clear.
    let foreign = NaNBox(EXP_MASK | 1);
    assert_eq!(foreign.get_type(), Err(0));
    assert!(!foreign.is_f64());
    assert!(!foreign.is_i64());
    assert!(!foreign.is_u64());
    assert!(!foreign.is_ptr());

    let five = NaNBox(EXP_MASK | (5u64 << 48));
    assert_eq!(five.get_type(), Err(5));
}

#[test]
fn reserved_tag_one_classifies_as_float_without_the_flag() {
    // Tag 1 is the reserved boxed-float tag: classification answers
    // Ok(F64), but is_f64 stays false because the pattern is a NaN.
    let b = NaNBox(EXP_MASK | (1u64 << 48));
    assert_eq!(b.get_type(), Ok(Type::F64));
    assert!(!b.is_f64());
    assert!(!b.is_i64());
    assert!(!b.is_u64());
    assert!(!b.is_ptr());
}

#[test]
fn flags_mutually_exclusive_on_constructed_values() {
    let values = [
        boxed(3.14),
        NaNBox::from_i64(-69),
        NaNBox::from_u64(42),
        NaNBox::from_ptr(0x1234),
    ];
    for b in values {
        let count = [b.is_f64(), b.is_i64(), b.is_u64(), b.is_ptr()]
            .iter()
            .filter(|&&f| f)
            .count();
        assert_eq!(count, 1);
    }
}

#[test]
fn tag_and_value_primitives() {
    let x = NaNBox::set_value(EXP_MASK, -5);
    let stamped = NaNBox::set_type(x, Type::I64);
    let b = NaNBox(stamped);
    assert_eq!(b.get_value(), -5);
    assert_eq!(b.get_type(), Ok(Type::I64));

    let y = NaNBox::set_type(NaNBox::set_value(EXP_MASK, 99), Type::U64);
    assert_eq!(NaNBox(y).get_value(), 99);
    assert_eq!(NaNBox(y).get_type(), Ok(Type::U64));
}

#[test]
fn large_unsigned_masks_to_low_bits() {
    // Any unsigned value keeps exactly its low 48 bits; the sign bit stays
    // at the template default, clear, however large the value.
    let b = NaNBox::from_u64(0x8000_0000_0000_0005);
    assert_eq!(b.get_type(), Ok(Type::U64));
    assert_eq!(b.as_u64(), 5);
    assert_eq!(b.0 >> 63, 0);
    assert!(f64::from_bits(b.0).is_nan());

    assert_eq!(NaNBox::from_u64(1u64 << 63).as_u64(), 0);
    assert_eq!(NaNBox::from_u64(u64::MAX).as_u64(), 0xFFFF_FFFF_FFFF);
}

#[test]
fn equality_is_by_decoded_value() {
    // Decoding is deterministic, so logical equality collapses to comparing
    // the decoded values; a float variant must be compared with native IEEE
    // equality, which keeps NaN's non-reflexivity.
    let a = NaNBox::from_u64(5);
    let b = NaNBox::from_u64(5);
    assert_eq!(a.get_type(), b.get_type());
    assert_eq!(a.as_u64(), b.as_u64());

    let n = boxed(f64::NAN);
    let back = f64::from_bits(n.as_f64());
    assert!(back != back);
    assert_eq!(n.as_f64(), f64::NAN.to_bits());
}
