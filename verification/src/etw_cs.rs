//! The Common Schema envelope over TraceLogging events.
//!
//! A span gets one event, at its end; its start leaves none.

use crate::common_schema::{
    event_envelope, fixed_hex, messages_are_text, part_c_opening, part_c_slot, rename_for_part_c,
    span_envelope, MAX_GROUP_FIELDS, SCHEMA_VERSION,
};
use crate::etw::{
    add_field_value, etw_add_str8, etw_add_struct, etw_add_u16, etw_field, etw_items, etw_opcode,
    etw_opcode_of, etw_reset, MAX_EVENT_TAG, OUT_SIGNED, OUT_UTF8,
};
use crate::fields::{
    count_set_values, set_count, slots_of, FieldAndValue, FieldTable, Slot,
};
use crate::time::{rfc3339_text, Timestamp};
use crate::values::{Value, ValueTypes};
use crate::wire::{
    clean_names, encode_all, field, lemma_encode_all_count, lemma_encode_all_step, no_nul,
    optional_item, Payload, WireItem, OPCODE_INFO,
};
use vstd::prelude::*;

verus! {

/// The fields of `PartC`: every slot that holds a value, under its `PartC`
/// name, encoded as the plain encoder encodes it.
pub open spec fn part_c_fields(slots: Seq<Slot>) -> Seq<WireItem> {
    encode_all(slots, |slot: Slot| etw_field(part_c_slot(slot)))
}

/// `PartC`: the group, opened for as many fields as hold a value, and then
/// those fields.
pub open spec fn part_c(slots: Seq<Slot>) -> Seq<WireItem> {
    part_c_opening(set_count(slots) as u8) + part_c_fields(slots)
}

/// The group `PartC` holds its fields: as many fields follow its opening
/// as the opening says, one for each slot that holds a value.
pub proof fn lemma_part_c_holds_its_fields(slots: Seq<Slot>)
    ensures
        part_c_fields(slots).len() == set_count(slots),
{
    let encode = |slot: Slot| etw_field(part_c_slot(slot));
    assert forall|slot: Slot| #[trigger] encode(slot) is Some <==> slot.value
        != Value::Unset by {}
    lemma_encode_all_count(slots, encode);
}

/// The items that open every event of the schema: the reset and the
/// schema's version, a 16-bit number shown as signed.
pub open spec fn schema_head(name: Seq<char>, level: u8, keyword: u64, event_tag: u32) -> Seq<
    WireItem,
> {
    seq![
        WireItem::Begin { name, level, keyword, tag: event_tag },
        WireItem::Field(field("__csver__"@, Payload::U16(SCHEMA_VERSION), OUT_SIGNED)),
    ]
}

/// Adds one field to `PartC`: the field `message`, which must hold text,
/// goes under the name `Body`.
pub fn add_part_c_field(
    eb: &mut tracelogging_dynamic::EventBuilder,
    field_name: &str,
    value: &ValueTypes,
)
    requires
        no_nul(field_name@),
        field_name@ == "message"@ ==> value@ is Str,
    ensures
        etw_items(*final(eb)) == etw_items(*old(eb)) + optional_item(
            etw_field(part_c_slot(Slot { name: field_name@, value: value@ })),
        ),
        etw_opcode_of(*final(eb)) == etw_opcode_of(*old(eb)),
{
    add_field_value(eb, rename_for_part_c(field_name), value);
}

/// Adds the fields of a span to `PartC`, in declaration order.
pub fn add_table_fields(eb: &mut tracelogging_dynamic::EventBuilder, fields: &FieldTable)
    requires
        clean_names(fields@),
        messages_are_text(fields@),
    ensures
        etw_items(*final(eb)) == etw_items(*old(eb)) + part_c_fields(fields@),
        etw_opcode_of(*final(eb)) == etw_opcode_of(*old(eb)),
{
    let n = fields.len();
    let mut i: usize = 0;
    assert(etw_items(*eb) + part_c_fields(fields@.take(0)) =~= etw_items(*eb));
    while i < n
        invariant
            n == fields@.len(),
            i <= n,
            clean_names(fields@),
            messages_are_text(fields@),
            etw_items(*eb) == etw_items(*old(eb)) + part_c_fields(fields@.take(i as int)),
            etw_opcode_of(*eb) == etw_opcode_of(*old(eb)),
        decreases n - i,
    {
        assert(no_nul(fields@[i as int].name));
        add_part_c_field(eb, fields.name(i), fields.value(i));
        proof {
            lemma_encode_all_step(
                fields@,
                |slot: Slot| etw_field(part_c_slot(slot)),
                i as int,
            );
            assert(etw_items(*eb) =~= etw_items(*old(eb)) + part_c_fields(
                fields@.take(i as int + 1),
            ));
        }
        i = i + 1;
    }
    assert(fields@.take(n as int) =~= fields@);
}

/// Adds the fields of an event to `PartC`, in the order given.
pub fn add_event_fields(eb: &mut tracelogging_dynamic::EventBuilder, fields: &[FieldAndValue])
    requires
        clean_names(slots_of(fields@)),
        messages_are_text(slots_of(fields@)),
    ensures
        etw_items(*final(eb)) == etw_items(*old(eb)) + part_c_fields(slots_of(fields@)),
        etw_opcode_of(*final(eb)) == etw_opcode_of(*old(eb)),
{
    let n = fields.len();
    let ghost slots = slots_of(fields@);
    let mut i: usize = 0;
    assert(etw_items(*eb) + part_c_fields(slots.take(0)) =~= etw_items(*eb));
    while i < n
        invariant
            n == fields@.len(),
            slots == slots_of(fields@),
            i <= n,
            clean_names(slots),
            messages_are_text(slots),
            etw_items(*eb) == etw_items(*old(eb)) + part_c_fields(slots.take(i as int)),
            etw_opcode_of(*eb) == etw_opcode_of(*old(eb)),
        decreases n - i,
    {
        assert(no_nul(slots[i as int].name));
        assert(slots[i as int].name == "message"@ ==> slots[i as int].value is Str);
        add_part_c_field(eb, fields[i].field_name, &fields[i].value);
        proof {
            lemma_encode_all_step(
                slots,
                |slot: Slot| etw_field(part_c_slot(slot)),
                i as int,
            );
            assert(etw_items(*eb) =~= etw_items(*old(eb)) + part_c_fields(
                slots.take(i as int + 1),
            ));
        }
        i = i + 1;
    }
    assert(slots.take(n as int) =~= slots);
}

/// The entry into a span leaves no event in this schema: the builder is
/// left as it is.
pub fn span_start(eb: &mut tracelogging_dynamic::EventBuilder)
    ensures
        etw_items(*final(eb)) == etw_items(*old(eb)),
        etw_opcode_of(*final(eb)) == etw_opcode_of(*old(eb)),
{
}

/// Builds the one event of a span, at its end, with the opcode info: the
/// schema's head, the envelope of the span with both of its times as text,
/// and `PartC` with the span's fields. A parent id of zero stands for no
/// parent.
pub fn span_stop_with(
    eb: &mut tracelogging_dynamic::EventBuilder,
    span_name: &str,
    span_id: u64,
    parent_span_id: u64,
    start_stop_texts: (&str, &str),
    fields: &FieldTable,
    level: u8,
    keyword: u64,
    event_tag: u32,
)
    requires
        no_nul(span_name@),
        clean_names(fields@),
        messages_are_text(fields@),
        set_count(fields@) <= MAX_GROUP_FIELDS,
        event_tag <= MAX_EVENT_TAG,
    ensures
        etw_items(*final(eb)) == schema_head(span_name@, level, keyword, event_tag) + span_envelope(
            OUT_UTF8,
            span_name@,
            span_id,
            parent_span_id,
            start_stop_texts.0@,
            start_stop_texts.1@,
        ) + part_c(fields@),
        etw_opcode_of(*final(eb)) == OPCODE_INFO,
{
    proof {
        reveal_strlit("__csver__");
        reveal_strlit("PartA");
        reveal_strlit("time");
        reveal_strlit("ext_dt");
        reveal_strlit("traceId");
        reveal_strlit("spanId");
        reveal_strlit("PartB");
        reveal_strlit("_typeName");
        reveal_strlit("parentId");
        reveal_strlit("name");
        reveal_strlit("startTime");
        reveal_strlit("PartC");
        lemma_part_c_holds_its_fields(fields@);
    }
    let count = fields.count_set();
    let own_id = fixed_hex(span_id);
    etw_reset(eb, span_name, level, keyword, event_tag);
    etw_opcode(eb, OPCODE_INFO);
    etw_add_u16(eb, "__csver__", SCHEMA_VERSION, OUT_SIGNED);
    etw_add_struct(eb, "PartA", 2);
    etw_add_str8(eb, "time", start_stop_texts.1.as_bytes(), OUT_UTF8);
    etw_add_struct(eb, "ext_dt", 2);
    etw_add_str8(eb, "traceId", "".as_bytes(), OUT_UTF8);
    etw_add_str8(eb, "spanId", own_id.as_slice(), OUT_UTF8);
    if parent_span_id != 0 {
        let parent_id = fixed_hex(parent_span_id);
        etw_add_struct(eb, "PartB", 4);
        etw_add_str8(eb, "_typeName", "Span".as_bytes(), OUT_UTF8);
        etw_add_str8(eb, "parentId", parent_id.as_slice(), OUT_UTF8);
    } else {
        etw_add_struct(eb, "PartB", 3);
        etw_add_str8(eb, "_typeName", "Span".as_bytes(), OUT_UTF8);
    }
    etw_add_str8(eb, "name", span_name.as_bytes(), OUT_UTF8);
    etw_add_str8(eb, "startTime", start_stop_texts.0.as_bytes(), OUT_UTF8);
    let ghost before = etw_items(*eb);
    assert(before =~= schema_head(span_name@, level, keyword, event_tag) + span_envelope(
        OUT_UTF8,
        span_name@,
        span_id,
        parent_span_id,
        start_stop_texts.0@,
        start_stop_texts.1@,
    ));
    etw_add_struct(eb, "PartC", count as u8);
    add_table_fields(eb, fields);
    assert(etw_items(*eb) =~= before + part_c(fields@));
}

/// Builds a standalone event, with the opcode info: the schema's head, the
/// envelope of the event with its time as text, and `PartC` with the
/// event's fields. A span id of zero stands for an event outside any span.
pub fn write_record_with(
    eb: &mut tracelogging_dynamic::EventBuilder,
    time_text: &str,
    current_span: u64,
    event_name: &str,
    level: u8,
    keyword: u64,
    event_tag: u32,
    fields: &[FieldAndValue],
)
    requires
        no_nul(event_name@),
        clean_names(slots_of(fields@)),
        messages_are_text(slots_of(fields@)),
        set_count(slots_of(fields@)) <= MAX_GROUP_FIELDS,
        event_tag <= MAX_EVENT_TAG,
    ensures
        etw_items(*final(eb)) == schema_head(
            event_name@,
            level,
            keyword,
            event_tag,
        ) + event_envelope(
            OUT_UTF8,
            event_name@,
            current_span,
            time_text@,
        ) + part_c(slots_of(fields@)),
        etw_opcode_of(*final(eb)) == OPCODE_INFO,
{
    proof {
        reveal_strlit("__csver__");
        reveal_strlit("PartA");
        reveal_strlit("time");
        reveal_strlit("ext_dt");
        reveal_strlit("traceId");
        reveal_strlit("spanId");
        reveal_strlit("PartB");
        reveal_strlit("_typeName");
        reveal_strlit("name");
        reveal_strlit("eventTime");
        reveal_strlit("PartC");
        lemma_part_c_holds_its_fields(slots_of(fields@));
    }
    let count = count_set_values(fields);
    etw_reset(eb, event_name, level, keyword, event_tag);
    etw_opcode(eb, OPCODE_INFO);
    etw_add_u16(eb, "__csver__", SCHEMA_VERSION, OUT_SIGNED);
    if current_span != 0 {
        let span_id = fixed_hex(current_span);
        etw_add_struct(eb, "PartA", 2);
        etw_add_str8(eb, "time", time_text.as_bytes(), OUT_UTF8);
        etw_add_struct(eb, "ext_dt", 2);
        etw_add_str8(eb, "traceId", "".as_bytes(), OUT_UTF8);
        etw_add_str8(eb, "spanId", span_id.as_slice(), OUT_UTF8);
    } else {
        etw_add_struct(eb, "PartA", 1);
        etw_add_str8(eb, "time", time_text.as_bytes(), OUT_UTF8);
    }
    etw_add_struct(eb, "PartB", 3);
    etw_add_str8(eb, "_typeName", "Log".as_bytes(), OUT_UTF8);
    etw_add_str8(eb, "name", event_name.as_bytes(), OUT_UTF8);
    etw_add_str8(eb, "eventTime", time_text.as_bytes(), OUT_UTF8);
    let ghost before = etw_items(*eb);
    assert(before =~= schema_head(event_name@, level, keyword, event_tag) + event_envelope(
        OUT_UTF8,
        event_name@,
        current_span,
        time_text@,
    ));
    etw_add_struct(eb, "PartC", count as u8);
    add_event_fields(eb, fields);
    assert(etw_items(*eb) =~= before + part_c(slots_of(fields@)));
}

/// The RFC 3339 text of a point in time, where the calendar reaches it.
pub open spec fn text_of(timestamp: Timestamp) -> Option<Seq<char>> {
    rfc3339_text(timestamp.secs, timestamp.nanos)
}

/// Builds the one event of a span that was entered and left at two points
/// in time: see [`span_stop_with`]. Where the calendar does not reach one
/// of the times, nothing is built and the builder is left as it is.
/// Returns whether the event was built.
pub fn span_stop(
    eb: &mut tracelogging_dynamic::EventBuilder,
    span_name: &str,
    span_id: u64,
    parent_span_id: u64,
    start_stop_times: (Timestamp, Timestamp),
    fields: &FieldTable,
    level: u8,
    keyword: u64,
    event_tag: u32,
) -> (built: bool)
    requires
        no_nul(span_name@),
        clean_names(fields@),
        messages_are_text(fields@),
        set_count(fields@) <= MAX_GROUP_FIELDS,
        event_tag <= MAX_EVENT_TAG,
    ensures
        built == (text_of(start_stop_times.0) is Some && text_of(start_stop_times.1) is Some),
        !built ==> etw_items(*final(eb)) == etw_items(*old(eb))
            && etw_opcode_of(*final(eb)) == etw_opcode_of(*old(eb)),
        built ==> etw_items(*final(eb)) == schema_head(
            span_name@,
            level, keyword, event_tag,
        ) + span_envelope(
            OUT_UTF8,
            span_name@,
            span_id,
            parent_span_id,
            text_of(start_stop_times.0)->0,
            text_of(start_stop_times.1)->0,
        ) + part_c(fields@),
        built ==> etw_opcode_of(*final(eb)) == OPCODE_INFO,
{
    match start_stop_times.1.to_rfc3339() {
        Some(stop_text) => match start_stop_times.0.to_rfc3339() {
            Some(start_text) => {
                span_stop_with(
                    eb,
                    span_name,
                    span_id,
                    parent_span_id,
                    (start_text.as_str(), stop_text.as_str()),
                    fields,
                    level, keyword, event_tag,
                );
                true
            },
            None => false,
        },
        None => false,
    }
}

/// Builds a standalone event at a point in time: see
/// [`write_record_with`]. Where the calendar does not reach the time,
/// nothing is built and the builder is left as it is. Returns whether the
/// event was built.
pub fn write_record(
    eb: &mut tracelogging_dynamic::EventBuilder,
    timestamp: &Timestamp,
    current_span: u64,
    event_name: &str,
    level: u8,
    keyword: u64,
    event_tag: u32,
    fields: &[FieldAndValue],
) -> (built: bool)
    requires
        no_nul(event_name@),
        clean_names(slots_of(fields@)),
        messages_are_text(slots_of(fields@)),
        set_count(slots_of(fields@)) <= MAX_GROUP_FIELDS,
        event_tag <= MAX_EVENT_TAG,
    ensures
        built == (text_of(*timestamp) is Some),
        !built ==> etw_items(*final(eb)) == etw_items(*old(eb))
            && etw_opcode_of(*final(eb)) == etw_opcode_of(*old(eb)),
        built ==> etw_items(*final(eb)) == schema_head(
            event_name@,
            level, keyword, event_tag,
        ) + event_envelope(
            OUT_UTF8,
            event_name@,
            current_span,
            text_of(*timestamp)->0,
        ) + part_c(slots_of(fields@)),
        built ==> etw_opcode_of(*final(eb)) == OPCODE_INFO,
{
    match timestamp.to_rfc3339() {
        Some(time_text) => {
            write_record_with(
                eb,
                time_text.as_str(),
                current_span,
                event_name,
                level, keyword, event_tag,
                fields,
            );
            true
        },
        None => false,
    }
}

} // verus!
