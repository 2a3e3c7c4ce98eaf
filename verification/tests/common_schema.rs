use tracing_etw::common_schema::{
    event_messages_are_text, fixed_hex, message_is_text, rename_for_part_c,
    table_messages_are_text,
};
use tracing_etw::fields::{FieldAndValue, FieldTable};
use tracing_etw::values::ValueTypes;

#[test]
fn message_becomes_body() {
    assert_eq!(rename_for_part_c("message"), "Body");
    assert_eq!(rename_for_part_c("Message"), "Message");
    assert_eq!(rename_for_part_c("messages"), "messages");
    assert_eq!(rename_for_part_c("field1"), "field1");
    assert_eq!(rename_for_part_c(""), "");
    assert_eq!(rename_for_part_c("Body"), "Body");
}

#[test]
fn span_id_text_is_sixteen_wide() {
    for id in [0u64, 1, 9, 10, 15, 16, 255, 0xabcdef, 0x1234_5678_9abc_def0, u64::MAX] {
        assert_eq!(fixed_hex(id).to_vec(), format!("{:16x}", id).into_bytes());
    }
    assert_eq!(&fixed_hex(255), b"              ff");
    assert_eq!(&fixed_hex(0), b"               0");
}


#[test]
fn message_must_hold_text() {
    assert!(message_is_text("message", &ValueTypes::v_str(String::from("hello"))));
    assert!(!message_is_text("message", &ValueTypes::v_u64(1)));
    assert!(!message_is_text("message", &ValueTypes::Unset));
    assert!(message_is_text("field1", &ValueTypes::v_u64(1)));
    assert!(message_is_text("Body", &ValueTypes::v_u64(1)));

    let mut table = FieldTable::allocate(&["field1", "message"]);
    assert!(!table_messages_are_text(&table));
    table.update("message", ValueTypes::v_str(String::from("hello")));
    assert!(table_messages_are_text(&table));
    table.update("message", ValueTypes::v_bool(true));
    assert!(!table_messages_are_text(&table));
    assert!(table_messages_are_text(&FieldTable::allocate(&["field1"])));

    assert!(event_messages_are_text(&[]));
    assert!(event_messages_are_text(&[FieldAndValue {
        field_name: "message",
        value: ValueTypes::v_str(String::from("hello"))
    }]));
    assert!(!event_messages_are_text(&[
        FieldAndValue { field_name: "field1", value: ValueTypes::v_u64(1) },
        FieldAndValue { field_name: "message", value: ValueTypes::v_u64(1) },
    ]));
}
