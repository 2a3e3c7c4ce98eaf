use tracing_etw::values::ValueTypes;

#[test]
fn default_value_is_unset() {
    assert!(matches!(ValueTypes::default(), ValueTypes::Unset));
    assert!(ValueTypes::default().is_none());
    assert!(!ValueTypes::v_u64(0).is_none());
}

#[test]
fn float_is_kept_as_its_bits() {
    let value = ValueTypes::from_f64_bits(4.5f64.to_bits());
    match value {
        ValueTypes::v_f64(bits) => assert_eq!(f64::from_bits(bits), 4.5),
        _ => panic!("not a float"),
    }
}

#[test]
fn clone_keeps_the_value() {
    let text = ValueTypes::v_str(String::from("9876f64"));
    match text.clone() {
        ValueTypes::v_str(s) => assert_eq!(s, "9876f64"),
        _ => panic!("not text"),
    }
    assert!(matches!(ValueTypes::v_i128(-5).clone(), ValueTypes::v_i128(-5)));
    assert!(matches!(ValueTypes::v_char('x').clone(), ValueTypes::v_char('x')));
}

#[test]
fn values_convert_from_their_kinds() {
    assert!(matches!(ValueTypes::from(7u64), ValueTypes::v_u64(7)));
    assert!(matches!(ValueTypes::from(-7i64), ValueTypes::v_i64(-7)));
    assert!(matches!(ValueTypes::from(7u128), ValueTypes::v_u128(7)));
    assert!(matches!(ValueTypes::from(-7i128), ValueTypes::v_i128(-7)));
    assert!(matches!(ValueTypes::from(true), ValueTypes::v_bool(true)));
    assert!(matches!(ValueTypes::from('x'), ValueTypes::v_char('x')));
    assert!(matches!(ValueTypes::from(String::from("asdf")), ValueTypes::v_str(s) if s == "asdf"));
    assert!(matches!(ValueTypes::from_text("asdf"), ValueTypes::v_str(s) if s == "asdf"));
}
