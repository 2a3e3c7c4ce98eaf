use eventheader_dynamic::{EventBuilder, FieldFormat, Opcode};
use tracing_etw::fields::{FieldAndValue, FieldTable};
use tracing_etw::time::Timestamp;
use tracing_etw::values::ValueTypes;

#[test]
fn tracepoint_schema_message_goes_out_as_body() {
    let mut actual = EventBuilder::new();
    actual.reset("e", 0);
    tracing_etw::user_events_cs::add_part_c_field(
        &mut actual,
        "message",
        &ValueTypes::v_str(String::from("inside main!")),
    );
    let mut expected = EventBuilder::new();
    expected.reset("e", 0);
    expected.add_str("Body", "inside main!", FieldFormat::Default, 0);
    assert_eq!(format!("{:?}", actual), format!("{:?}", expected));
}

#[test]
fn tracepoint_schema_span_with_parent() {
    let mut table = FieldTable::allocate(&["message", "fieldA"]);
    table.update("message", ValueTypes::v_str(String::from("hello")));
    table.update("fieldA", ValueTypes::v_u64(7));
    let mut actual = EventBuilder::new();
    tracing_etw::user_events_cs::span_stop_with(
        &mut actual,
        "span name",
        0x2a,
        0x1,
        ("2001-09-09T01:46:40+00:00", "2001-09-09T01:46:41+00:00"),
        &table,
        0,
    );
    let mut expected = EventBuilder::new();
    expected.reset("span name", 0);
    expected.opcode(Opcode::Info);
    expected.add_value("__csver__", 0x0401, FieldFormat::SignedInt, 0);
    expected.add_struct("PartA", 2, 0);
    expected.add_str("time", "2001-09-09T01:46:41+00:00", FieldFormat::Default, 0);
    expected.add_struct("ext_dt", 2, 0);
    expected.add_str("traceId", "", FieldFormat::Default, 0);
    expected.add_str("spanId", "              2a", FieldFormat::Default, 0);
    expected.add_struct("PartB", 4, 0);
    expected.add_str("_typeName", "Span", FieldFormat::Default, 0);
    expected.add_str("parentId", "               1", FieldFormat::Default, 0);
    expected.add_str("name", "span name", FieldFormat::Default, 0);
    expected.add_str("startTime", "2001-09-09T01:46:40+00:00", FieldFormat::Default, 0);
    expected.add_struct("PartC", 2, 0);
    expected.add_str("Body", "hello", FieldFormat::Default, 0);
    expected.add_value("fieldA", 7u64, FieldFormat::Default, 0);
    assert_eq!(format!("{:?}", actual), format!("{:?}", expected));
}

#[test]
fn tracepoint_schema_event_outside_a_span() {
    let fields = [FieldAndValue {
        field_name: "message",
        value: ValueTypes::v_str(String::from("error event")),
    }];
    let mut actual = EventBuilder::new();
    tracing_etw::user_events_cs::write_record_with(&mut actual, "t", 0, "event", 0, &fields);
    let mut expected = EventBuilder::new();
    expected.reset("event", 0);
    expected.opcode(Opcode::Info);
    expected.add_value("__csver__", 0x0401, FieldFormat::SignedInt, 0);
    expected.add_struct("PartA", 1, 0);
    expected.add_str("time", "t", FieldFormat::Default, 0);
    expected.add_struct("PartB", 3, 0);
    expected.add_str("_typeName", "Log", FieldFormat::Default, 0);
    expected.add_str("name", "event", FieldFormat::Default, 0);
    expected.add_str("eventTime", "t", FieldFormat::Default, 0);
    expected.add_struct("PartC", 1, 0);
    expected.add_str("Body", "error event", FieldFormat::Default, 0);
    assert_eq!(format!("{:?}", actual), format!("{:?}", expected));
}

#[test]
fn tracepoint_schema_span_start_leaves_the_builder_alone() {
    let mut eb = EventBuilder::new();
    eb.reset("e", 0);
    let before = format!("{:?}", eb);
    tracing_etw::user_events_cs::span_start(&mut eb);
    assert_eq!(format!("{:?}", eb), before);
}

#[test]
fn tracepoint_schema_events_take_their_times_as_text() {
    let entered = Timestamp { secs: 1_000_000_000, nanos: 0 };
    let left = Timestamp { secs: 1_000_000_001, nanos: 0 };
    let mut table = FieldTable::allocate(&["fieldA"]);
    table.update("fieldA", ValueTypes::v_u64(7));
    let mut actual = EventBuilder::new();
    assert!(tracing_etw::user_events_cs::span_stop(&mut actual, "s", 1, 2, (entered, left), &table, 0));
    let mut expected = EventBuilder::new();
    tracing_etw::user_events_cs::span_stop_with(
        &mut expected,
        "s",
        1,
        2,
        ("2001-09-09T01:46:40+00:00", "2001-09-09T01:46:41+00:00"),
        &table,
        0,
    );
    assert_eq!(format!("{:?}", actual), format!("{:?}", expected));

    let fields = [FieldAndValue { field_name: "fieldA", value: ValueTypes::v_u64(7) }];
    assert!(tracing_etw::user_events_cs::write_record(&mut actual, &left, 9, "e", 0, &fields));
    tracing_etw::user_events_cs::write_record_with(
        &mut expected,
        "2001-09-09T01:46:41+00:00",
        9,
        "e",
        0,
        &fields,
    );
    assert_eq!(format!("{:?}", actual), format!("{:?}", expected));
}

#[test]
fn tracepoint_schema_group_counts_the_fields_it_holds() {
    let mut table = FieldTable::allocate(&["fieldA", "fieldB", "fieldC"]);
    table.update("fieldC", ValueTypes::v_u64(7));
    let mut actual = EventBuilder::new();
    tracing_etw::user_events_cs::span_stop_with(&mut actual, "s", 0x2a, 0, ("a", "b"), &table, 0);
    let mut expected = envelope_without_parent();
    expected.add_struct("PartC", 1, 0);
    expected.add_value("fieldC", 7u64, FieldFormat::Default, 0);
    assert_eq!(format!("{:?}", actual), format!("{:?}", expected));
}

#[test]
fn tracepoint_schema_span_without_values_has_no_group() {
    for names in [&[][..], &["fieldA", "fieldB"][..]] {
        let table = FieldTable::allocate(names);
        let mut actual = EventBuilder::new();
        tracing_etw::user_events_cs::span_stop_with(
            &mut actual,
            "s",
            0x2a,
            0,
            ("a", "b"),
            &table,
            0,
        );
        let expected = envelope_without_parent();
        assert_eq!(format!("{:?}", actual), format!("{:?}", expected));
    }
}

#[test]
fn tracepoint_schema_event_without_fields_has_no_group() {
    let mut actual = EventBuilder::new();
    tracing_etw::user_events_cs::write_record_with(&mut actual, "t", 0, "event", 0, &[]);
    let mut expected = EventBuilder::new();
    expected.reset("event", 0);
    expected.opcode(Opcode::Info);
    expected.add_value("__csver__", 0x0401, FieldFormat::SignedInt, 0);
    expected.add_struct("PartA", 1, 0);
    expected.add_str("time", "t", FieldFormat::Default, 0);
    expected.add_struct("PartB", 3, 0);
    expected.add_str("_typeName", "Log", FieldFormat::Default, 0);
    expected.add_str("name", "event", FieldFormat::Default, 0);
    expected.add_str("eventTime", "t", FieldFormat::Default, 0);
    assert_eq!(format!("{:?}", actual), format!("{:?}", expected));
}

fn envelope_without_parent() -> EventBuilder {
    let mut expected = EventBuilder::new();
    expected.reset("s", 0);
    expected.opcode(Opcode::Info);
    expected.add_value("__csver__", 0x0401, FieldFormat::SignedInt, 0);
    expected.add_struct("PartA", 2, 0);
    expected.add_str("time", "b", FieldFormat::Default, 0);
    expected.add_struct("ext_dt", 2, 0);
    expected.add_str("traceId", "", FieldFormat::Default, 0);
    expected.add_str("spanId", "              2a", FieldFormat::Default, 0);
    expected.add_struct("PartB", 3, 0);
    expected.add_str("_typeName", "Span", FieldFormat::Default, 0);
    expected.add_str("name", "s", FieldFormat::Default, 0);
    expected.add_str("startTime", "a", FieldFormat::Default, 0);
    expected
}
