use tracelogging_dynamic::{EventBuilder, Level, Opcode, OutType};
use tracing_etw::fields::{FieldAndValue, FieldTable};
use tracing_etw::time::Timestamp;
use tracing_etw::values::ValueTypes;

#[test]
fn etw_schema_message_goes_out_as_body() {
    let mut actual = EventBuilder::new();
    actual.reset("e", Level::Verbose, 1, 0);
    tracing_etw::etw_cs::add_part_c_field(
        &mut actual,
        "message",
        &ValueTypes::v_str(String::from("inside main!")),
    );
    tracing_etw::etw_cs::add_part_c_field(&mut actual, "fieldA", &ValueTypes::v_i64(7));
    let mut expected = EventBuilder::new();
    expected.reset("e", Level::Verbose, 1, 0);
    expected.add_str8("Body", "inside main!", OutType::Utf8, 0);
    expected.add_i64("fieldA", 7, OutType::Default, 0);
    assert_eq!(format!("{:?}", actual), format!("{:?}", expected));
}

#[test]
fn etw_schema_span_with_parent() {
    let mut table = FieldTable::allocate(&["message", "fieldA"]);
    table.update("message", ValueTypes::v_str(String::from("hello")));
    table.update("fieldA", ValueTypes::v_u64(7));
    let mut actual = EventBuilder::new();
    tracing_etw::etw_cs::span_stop_with(
        &mut actual,
        "span name",
        0x2a,
        0x1,
        ("2001-09-09T01:46:40+00:00", "2001-09-09T01:46:41+00:00"),
        &table,
        4,
        1,
        0,
    );
    let mut expected = EventBuilder::new();
    expected.reset("span name", Level::Informational, 1, 0);
    expected.opcode(Opcode::Info);
    expected.add_u16("__csver__", 0x0401, OutType::Signed, 0);
    expected.add_struct("PartA", 2, 0);
    expected.add_str8("time", "2001-09-09T01:46:41+00:00", OutType::Utf8, 0);
    expected.add_struct("ext_dt", 2, 0);
    expected.add_str8("traceId", "", OutType::Utf8, 0);
    expected.add_str8("spanId", "              2a", OutType::Utf8, 0);
    expected.add_struct("PartB", 4, 0);
    expected.add_str8("_typeName", "Span", OutType::Utf8, 0);
    expected.add_str8("parentId", "               1", OutType::Utf8, 0);
    expected.add_str8("name", "span name", OutType::Utf8, 0);
    expected.add_str8("startTime", "2001-09-09T01:46:40+00:00", OutType::Utf8, 0);
    expected.add_struct("PartC", 2, 0);
    expected.add_str8("Body", "hello", OutType::Utf8, 0);
    expected.add_u64("fieldA", 7, OutType::Default, 0);
    assert_eq!(format!("{:?}", actual), format!("{:?}", expected));
}

#[test]
fn etw_schema_span_without_parent() {
    let table = FieldTable::allocate(&[]);
    let mut actual = EventBuilder::new();
    tracing_etw::etw_cs::span_stop_with(&mut actual, "s", 0x2a, 0, ("a", "b"), &table, 4, 1, 0);
    let mut expected = EventBuilder::new();
    expected.reset("s", Level::Informational, 1, 0);
    expected.opcode(Opcode::Info);
    expected.add_u16("__csver__", 0x0401, OutType::Signed, 0);
    expected.add_struct("PartA", 2, 0);
    expected.add_str8("time", "b", OutType::Utf8, 0);
    expected.add_struct("ext_dt", 2, 0);
    expected.add_str8("traceId", "", OutType::Utf8, 0);
    expected.add_str8("spanId", "              2a", OutType::Utf8, 0);
    expected.add_struct("PartB", 3, 0);
    expected.add_str8("_typeName", "Span", OutType::Utf8, 0);
    expected.add_str8("name", "s", OutType::Utf8, 0);
    expected.add_str8("startTime", "a", OutType::Utf8, 0);
    expected.add_struct("PartC", 0, 0);
    assert_eq!(format!("{:?}", actual), format!("{:?}", expected));
}

#[test]
fn etw_schema_event_inside_and_outside_a_span() {
    let fields = [FieldAndValue {
        field_name: "message",
        value: ValueTypes::v_str(String::from("error event")),
    }];
    for span in [0u64, 0xff] {
        let mut actual = EventBuilder::new();
        tracing_etw::etw_cs::write_record_with(&mut actual, "t", span, "event", 2, 1, 0, &fields);
        let mut expected = EventBuilder::new();
        expected.reset("event", Level::Error, 1, 0);
        expected.opcode(Opcode::Info);
        expected.add_u16("__csver__", 0x0401, OutType::Signed, 0);
        if span != 0 {
            expected.add_struct("PartA", 2, 0);
            expected.add_str8("time", "t", OutType::Utf8, 0);
            expected.add_struct("ext_dt", 2, 0);
            expected.add_str8("traceId", "", OutType::Utf8, 0);
            expected.add_str8("spanId", "              ff", OutType::Utf8, 0);
        } else {
            expected.add_struct("PartA", 1, 0);
            expected.add_str8("time", "t", OutType::Utf8, 0);
        }
        expected.add_struct("PartB", 3, 0);
        expected.add_str8("_typeName", "Log", OutType::Utf8, 0);
        expected.add_str8("name", "event", OutType::Utf8, 0);
        expected.add_str8("eventTime", "t", OutType::Utf8, 0);
        expected.add_struct("PartC", 1, 0);
        expected.add_str8("Body", "error event", OutType::Utf8, 0);
        assert_eq!(format!("{:?}", actual), format!("{:?}", expected));
    }
}

#[test]
fn etw_schema_span_start_leaves_the_builder_alone() {
    let mut eb = EventBuilder::new();
    eb.reset("e", Level::Verbose, 1, 0);
    let before = format!("{:?}", eb);
    tracing_etw::etw_cs::span_start(&mut eb);
    assert_eq!(format!("{:?}", eb), before);
}

#[test]
fn etw_schema_events_take_their_times_as_text() {
    let entered = Timestamp { secs: 1_000_000_000, nanos: 0 };
    let left = Timestamp { secs: 1_000_000_001, nanos: 0 };
    let table = FieldTable::allocate(&[]);
    let mut actual = EventBuilder::new();
    assert!(tracing_etw::etw_cs::span_stop(&mut actual, "s", 1, 0, (entered, left), &table, 4, 1, 0));
    let mut expected = EventBuilder::new();
    tracing_etw::etw_cs::span_stop_with(
        &mut expected,
        "s",
        1,
        0,
        ("2001-09-09T01:46:40+00:00", "2001-09-09T01:46:41+00:00"),
        &table,
        4,
        1,
        0,
    );
    assert_eq!(format!("{:?}", actual), format!("{:?}", expected));

    assert!(tracing_etw::etw_cs::write_record(&mut actual, &left, 0, "e", 4, 1, 0, &[]));
    tracing_etw::etw_cs::write_record_with(
        &mut expected,
        "2001-09-09T01:46:41+00:00",
        0,
        "e",
        4,
        1,
        0,
        &[],
    );
    assert_eq!(format!("{:?}", actual), format!("{:?}", expected));
}

#[test]
fn etw_schema_event_at_an_unreachable_time_is_not_built() {
    let never = Timestamp { secs: i64::MAX, nanos: 0 };
    let now = Timestamp { secs: 0, nanos: 0 };
    let table = FieldTable::allocate(&[]);
    let mut eb = EventBuilder::new();
    eb.reset("kept", Level::Verbose, 1, 0);
    let before = format!("{:?}", eb);
    assert!(!tracing_etw::etw_cs::span_stop(&mut eb, "s", 1, 0, (never, now), &table, 4, 1, 0));
    assert!(!tracing_etw::etw_cs::span_stop(&mut eb, "s", 1, 0, (now, never), &table, 4, 1, 0));
    assert!(!tracing_etw::etw_cs::write_record(&mut eb, &never, 0, "e", 4, 1, 0, &[]));
    assert_eq!(format!("{:?}", eb), before);
}

#[test]
fn etw_schema_group_counts_the_fields_it_holds() {
    let mut table = FieldTable::allocate(&["fieldA", "fieldB", "fieldC"]);
    table.update("fieldB", ValueTypes::v_u64(7));
    let mut actual = EventBuilder::new();
    tracing_etw::etw_cs::span_stop_with(&mut actual, "s", 0x2a, 0, ("a", "b"), &table, 4, 1, 0);
    let mut expected = EventBuilder::new();
    expected.reset("s", Level::Informational, 1, 0);
    expected.opcode(Opcode::Info);
    expected.add_u16("__csver__", 0x0401, OutType::Signed, 0);
    expected.add_struct("PartA", 2, 0);
    expected.add_str8("time", "b", OutType::Utf8, 0);
    expected.add_struct("ext_dt", 2, 0);
    expected.add_str8("traceId", "", OutType::Utf8, 0);
    expected.add_str8("spanId", "              2a", OutType::Utf8, 0);
    expected.add_struct("PartB", 3, 0);
    expected.add_str8("_typeName", "Span", OutType::Utf8, 0);
    expected.add_str8("name", "s", OutType::Utf8, 0);
    expected.add_str8("startTime", "a", OutType::Utf8, 0);
    expected.add_struct("PartC", 1, 0);
    expected.add_u64("fieldB", 7, OutType::Default, 0);
    assert_eq!(format!("{:?}", actual), format!("{:?}", expected));
}
