use tracing_etw::fields::{
    count_set_values, sort_order, FieldAndValue, FieldTable, MAX_FIELDS,
};
use tracing_etw::values::ValueTypes;

fn u64_at(table: &FieldTable, i: usize) -> Option<u64> {
    match table.value(i) {
        ValueTypes::v_u64(u) => Some(*u),
        _ => None,
    }
}

#[test]
fn allocate_keeps_declaration_order() {
    let table = FieldTable::allocate(&["field3", "field2", "field1"]);
    assert_eq!(table.len(), 3);
    assert_eq!(table.name(0), "field3");
    assert_eq!(table.name(1), "field2");
    assert_eq!(table.name(2), "field1");
    for i in 0..3 {
        assert!(table.value(i).is_none());
    }
}

#[test]
fn sort_order_sorts_by_name() {
    assert_eq!(sort_order(&["field3", "field2", "field1"]), vec![2u8, 1, 0]);
    assert_eq!(sort_order(&["b", "a", "c"]), vec![1u8, 0, 2]);
    assert_eq!(sort_order(&[]), Vec::<u8>::new());
    assert_eq!(sort_order(&["x", "x", "a"]), vec![2u8, 0, 1]);
}

#[test]
fn round_trip_in_any_update_order() {
    let names = ["delta", "alpha", "charlie", "bravo", "echo"];
    let orders: [[usize; 5]; 4] =
        [[0, 1, 2, 3, 4], [4, 3, 2, 1, 0], [2, 0, 4, 1, 3], [1, 3, 0, 4, 2]];
    for order in orders {
        let mut table = FieldTable::allocate(&names);
        for i in order {
            assert!(table.update(names[i], ValueTypes::v_u64(100 + i as u64)));
        }
        for i in 0..names.len() {
            assert_eq!(table.name(i), names[i]);
            assert_eq!(u64_at(&table, i), Some(100 + i as u64));
        }
    }
}

#[test]
fn unknown_field_update_is_a_no_op() {
    let mut table = FieldTable::allocate(&["field1", "field2"]);
    assert!(table.update("field1", ValueTypes::v_u64(5)));
    assert!(!table.update("field3", ValueTypes::v_u64(9)));
    assert!(!table.update("", ValueTypes::v_u64(9)));
    assert!(!table.update("field", ValueTypes::v_u64(9)));
    assert_eq!(table.len(), 2);
    assert_eq!(table.name(0), "field1");
    assert_eq!(table.name(1), "field2");
    assert_eq!(u64_at(&table, 0), Some(5));
    assert!(table.value(1).is_none());
}

#[test]
fn update_overwrites_the_value() {
    let mut table = FieldTable::allocate(&["field1", "field2"]);
    assert!(table.update("field2", ValueTypes::v_u64(0)));
    assert!(table.update("field2", ValueTypes::v_str(String::from("9876f64"))));
    match table.value(1) {
        ValueTypes::v_str(s) => assert_eq!(s, "9876f64"),
        _ => panic!("not text"),
    }
}

#[test]
fn find_and_get_look_names_up() {
    let mut table = FieldTable::allocate(&["zulu", "mike", "alpha"]);
    assert_eq!(table.find("zulu"), Some(0));
    assert_eq!(table.find("mike"), Some(1));
    assert_eq!(table.find("alpha"), Some(2));
    assert_eq!(table.find("november"), None);
    assert!(table.get("mike").unwrap().is_none());
    assert!(table.get("november").is_none());
    table.update("mike", ValueTypes::v_bool(true));
    assert!(matches!(table.get("mike"), Some(ValueTypes::v_bool(true))));
}

#[test]
fn duplicate_name_goes_to_the_first_slot() {
    let mut table = FieldTable::allocate(&["b", "a", "b", "a", "b"]);
    assert_eq!(table.find("b"), Some(0));
    assert_eq!(table.find("a"), Some(1));
    assert!(table.update("b", ValueTypes::v_u64(1)));
    assert_eq!(u64_at(&table, 0), Some(1));
    assert!(table.value(2).is_none());
    assert!(table.value(4).is_none());
}

#[test]
fn empty_table_finds_nothing() {
    let mut table = FieldTable::allocate(&[]);
    assert_eq!(table.len(), 0);
    assert_eq!(table.find("a"), None);
    assert!(!table.update("a", ValueTypes::v_u64(1)));
}

#[test]
fn full_table_is_accepted() {
    let names: [&'static str; 32] = [
        "f31", "f30", "f29", "f28", "f27", "f26", "f25", "f24", "f23", "f22", "f21", "f20", "f19",
        "f18", "f17", "f16", "f15", "f14", "f13", "f12", "f11", "f10", "f09", "f08", "f07", "f06",
        "f05", "f04", "f03", "f02", "f01", "f00",
    ];
    assert_eq!(names.len(), MAX_FIELDS);
    let mut table = FieldTable::allocate(&names);
    for (i, name) in names.iter().enumerate() {
        assert_eq!(table.find(name), Some(i));
        assert!(table.update(name, ValueTypes::v_u64(i as u64)));
    }
    for i in 0..names.len() {
        assert_eq!(u64_at(&table, i), Some(i as u64));
    }
}

#[test]
fn record_applies_values_in_order() {
    let mut table = FieldTable::allocate(&["field1", "field2"]);
    table.record(&[
        FieldAndValue { field_name: "field1", value: ValueTypes::v_u64(1) },
        FieldAndValue { field_name: "other", value: ValueTypes::v_u64(2) },
        FieldAndValue { field_name: "field1", value: ValueTypes::v_u64(3) },
    ]);
    assert_eq!(u64_at(&table, 0), Some(3));
    assert!(table.value(1).is_none());
}

#[test]
fn index_lists_the_slots_by_name() {
    let table = FieldTable::allocate(&["field3", "field1", "field2"]);
    assert_eq!(table.sort_index(0), 1);
    assert_eq!(table.sort_index(1), 2);
    assert_eq!(table.sort_index(2), 0);
}

#[test]
fn index_stays_when_values_change() {
    let mut table = FieldTable::allocate(&["b", "a"]);
    table.update("a", ValueTypes::v_u64(1));
    table.update("c", ValueTypes::v_u64(1));
    assert_eq!(table.sort_index(0), 1);
    assert_eq!(table.sort_index(1), 0);
}

#[test]
fn set_fields_are_counted() {
    let mut table = FieldTable::allocate(&["a", "b", "c"]);
    assert_eq!(table.count_set(), 0);
    table.update("b", ValueTypes::v_u64(1));
    assert_eq!(table.count_set(), 1);
    table.update("b", ValueTypes::v_u64(2));
    table.update("c", ValueTypes::v_bool(false));
    assert_eq!(table.count_set(), 2);
    table.update("a", ValueTypes::Unset);
    assert_eq!(table.count_set(), 2);
    assert_eq!(count_set_values(&[]), 0);
    assert_eq!(
        count_set_values(&[
            FieldAndValue { field_name: "a", value: ValueTypes::Unset },
            FieldAndValue { field_name: "b", value: ValueTypes::v_u64(0) },
        ]),
        1
    );
}
