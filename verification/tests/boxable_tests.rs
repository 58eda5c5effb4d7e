use nanbox::boxable::Boxable;
use nanbox::boxable::INF_BITS;
use nanbox::typemod::Type;

#[test]
fn word_tag_and_value_fields() {
    let mut b: u64 = INF_BITS;
    b.set_type(Type::Ptr);
    assert_eq!(b.get_type(), Type::Ptr);
    b.set_value(42);
    assert_eq!(b.get_value(), 42);
    // Tag 2 at bit 44, payload 42 at bit 0, exponent untouched.
    assert_eq!(b, 0x7FF0_2000_0000_002A);
}

#[test]
fn word_round_trip() {
    let b = u64::from_word(42);
    assert_eq!(b.get_type(), Type::Int);
    assert_eq!(b.as_word(), 42);
    assert_eq!(b, 0x7FF0_1000_0000_002A);
    // The payload field is 44 bits wide; higher bits are masked away.
    assert_eq!(u64::from_word((1u64 << 44) + 3).as_word(), 3);
}

#[test]
fn word_ptr_round_trip() {
    let b = u64::from_ptr(0x1234);
    assert_eq!(b.get_type(), Type::Ptr);
    assert!(b.is_ptr());
    assert_eq!(b.nan_as_ptr(), 0x1234);
    assert_eq!(b, 0x7FF0_2000_0000_1234);
}

#[test]
fn word_float_identity() {
    let bits = 3.14f64.to_bits();
    let b = u64::from_f64(bits);
    assert_eq!(b.as_f64(), bits);
    assert!(b.is_f64());
    assert!(!b.is_word());
}

#[test]
fn word_boxes_are_nan_patterns() {
    // The tag field sits inside the fraction, so stamping a nonzero tag
    // into the infinity template always yields a NaN pattern.
    for b in [u64::from_word(7), u64::from_word(0), u64::from_ptr(0x1234)] {
        assert!(b.is_word());
        assert!(!b.is_f64());
        assert!(f64::from_bits(b).is_nan());
    }
}

#[test]
fn nan_pattern_is_word() {
    // A genuine NaN pattern (exponent all ones, nonzero fraction) counts as
    // a boxed word.
    let b: u64 = f64::NAN.to_bits();
    assert!(b.is_word());
    assert!(!b.is_f64());
}

#[test]
fn typemod_from_word_is_int() {
    assert_eq!(Type::from(99u64), Type::Int);
    assert_eq!(Type::from(0u64), Type::Int);
}

#[test]
fn typemod_classifies_doubles_by_nan() {
    assert_eq!(Type::from_f64_bits(f64::NAN.to_bits()), Type::Int);
    assert_eq!(Type::from_f64_bits(3.0f64.to_bits()), Type::Double);
    assert_eq!(Type::from_f64_bits(f64::INFINITY.to_bits()), Type::Double);
}

#[test]
fn typemod_addresses_are_ptr() {
    assert_eq!(Type::from_addr(0x1234), Type::Ptr);
    assert_eq!(Type::from_addr(0), Type::Ptr);
}
