use tracing_etw::fields::{FieldAndValue, FieldTable};
use tracing_etw::values::ValueTypes;
use tracing_etw::wire::{
    char_low_byte, event_names_are_clean, i128_bits, is_clean_name, table_names_are_clean,
};

#[test]
fn names_with_nul_are_not_clean() {
    assert!(is_clean_name(""));
    assert!(is_clean_name("field1"));
    assert!(is_clean_name("日本語"));
    assert!(!is_clean_name("\0"));
    assert!(!is_clean_name("field\0"));
    assert!(!is_clean_name("\0field"));
    assert!(!is_clean_name("fi\0eld"));
}

#[test]
fn tables_and_events_are_checked_name_by_name() {
    assert!(table_names_are_clean(&FieldTable::allocate(&[])));
    assert!(table_names_are_clean(&FieldTable::allocate(&["a", "b"])));
    assert!(!table_names_are_clean(&FieldTable::allocate(&["a", "b\0", "c"])));
    assert!(event_names_are_clean(&[]));
    assert!(event_names_are_clean(&[FieldAndValue {
        field_name: "a",
        value: ValueTypes::Unset
    }]));
    assert!(!event_names_are_clean(&[
        FieldAndValue { field_name: "a", value: ValueTypes::Unset },
        FieldAndValue { field_name: "\0", value: ValueTypes::Unset },
    ]));
}

#[test]
fn signed_numbers_keep_their_bits() {
    for value in [0i128, 1, -1, -2, i128::MAX, i128::MIN, i128::MIN + 1] {
        assert_eq!(i128_bits(value), value as u128);
    }
    assert_eq!(i128_bits(-1), u128::MAX);
}

#[test]
fn characters_are_cut_to_a_byte() {
    assert_eq!(char_low_byte('x'), b'x');
    assert_eq!(char_low_byte('\0'), 0);
    assert_eq!(char_low_byte('\u{ff}'), 0xff);
    assert_eq!(char_low_byte('\u{100}'), 0);
    assert_eq!(char_low_byte('\u{10ffff}'), 0xff);
}
