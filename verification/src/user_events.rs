//! The EventHeader encoder: spans and events as Linux tracepoint events.
//!
//! The functions here fill an event builder; sending the finished event to
//! an event set is left to the caller, who holds the provider.

use crate::bytes::{le_bytes, u128_le_bytes};
use crate::fields::{slots_of, FieldAndValue, FieldTable, Slot};
use crate::time::Timestamp;
use crate::values::{Value, ValueTypes};
use crate::wire::{
    clean_names, counted, encode_all, field, i128_bits, i64_bits, lemma_encode_all_step, no_nul,
    optional_item, unsigned_bits, unsigned_bits64, Payload, WireField, WireItem, MAX_COUNTED,
    OPCODE_INFO, OPCODE_START, OPCODE_STOP,
};
use vstd::prelude::*;
use vstd::slice::slice_subrange;
use vstd::utf8::encode_utf8;

verus! {

/// `EventBuilder` of eventheader_dynamic: the builder of one event at a
/// time. Nothing of its inside is known here but what [`tracepoint_items`]
/// names.
#[verifier::external_type_specification]
#[verifier::external_body]
pub struct ExTracepointEventBuilder(eventheader_dynamic::EventBuilder);

/// Format: the decoder picks the form from the field's encoding.
pub const FORMAT_DEFAULT: u8 = 0;

/// Format: a signed decimal number.
pub const FORMAT_SIGNED_INT: u8 = 2;

/// Format: seconds since the Unix epoch.
pub const FORMAT_TIME: u8 = 6;

/// Format: true or false.
pub const FORMAT_BOOLEAN: u8 = 7;

/// Format: a floating-point number.
pub const FORMAT_FLOAT: u8 = 8;

/// Format: UTF text.
pub const FORMAT_STRING_UTF: u8 = 11;

/// What an EventHeader event builder holds: the reset that began the event
/// and the fields added since.
pub uninterp spec fn tracepoint_items(eb: eventheader_dynamic::EventBuilder) -> Seq<WireItem>;

/// The opcode that an EventHeader event builder holds for its event.
pub uninterp spec fn tracepoint_opcode_of(eb: eventheader_dynamic::EventBuilder) -> u8;

/// `EventBuilder::reset` of eventheader_dynamic: the builder forgets the
/// previous event and begins one with this name and tag, and with the
/// opcode info.
#[verifier::external_body]
pub(crate) fn eh_reset(eb: &mut eventheader_dynamic::EventBuilder, name: &str, event_tag: u16)
    requires
        no_nul(name@),
    ensures
        tracepoint_items(*final(eb)) == seq![
            WireItem::BeginTracepoint { name: name@, tag16: event_tag },
        ],
        tracepoint_opcode_of(*final(eb)) == OPCODE_INFO,
{
    eb.reset(name, event_tag);
}

/// `EventBuilder::opcode` of eventheader_dynamic: sets the event's opcode
/// and leaves everything else as it is.
#[verifier::external_body]
pub(crate) fn eh_opcode(eb: &mut eventheader_dynamic::EventBuilder, opcode: u8)
    ensures
        tracepoint_opcode_of(*final(eb)) == opcode,
        tracepoint_items(*final(eb)) == tracepoint_items(*old(eb)),
{
    eb.opcode(eventheader_dynamic::Opcode::from_int(opcode));
}

/// `EventBuilder::add_value` of eventheader_dynamic with a `u64`: appends
/// one field that holds a value of 64 bits, read as the format says.
#[verifier::external_body]
pub(crate) fn eh_add_u64(
    eb: &mut eventheader_dynamic::EventBuilder,
    name: &str,
    value: u64,
    format: u8,
)
    requires
        no_nul(name@),
        format <= 127,
    ensures
        tracepoint_items(*final(eb)) == tracepoint_items(*old(eb)).push(
            WireItem::Field(field(name@, Payload::Value64(value), format)),
        ),
        tracepoint_opcode_of(*final(eb)) == tracepoint_opcode_of(*old(eb)),
{
    eb.add_value(name, value, eventheader_dynamic::FieldFormat::from_int(format), 0);
}

/// `EventBuilder::add_value` of eventheader_dynamic with a `u32`: appends
/// one field that holds a value of 32 bits, read as the format says.
#[verifier::external_body]
pub(crate) fn eh_add_u32(
    eb: &mut eventheader_dynamic::EventBuilder,
    name: &str,
    value: u32,
    format: u8,
)
    requires
        no_nul(name@),
        format <= 127,
    ensures
        tracepoint_items(*final(eb)) == tracepoint_items(*old(eb)).push(
            WireItem::Field(field(name@, Payload::Value32(value), format)),
        ),
        tracepoint_opcode_of(*final(eb)) == tracepoint_opcode_of(*old(eb)),
{
    eb.add_value(name, value, eventheader_dynamic::FieldFormat::from_int(format), 0);
}

/// `EventBuilder::add_value` of eventheader_dynamic with a `u8`: appends
/// one field that holds a value of 8 bits, read as the format says.
#[verifier::external_body]
fn eh_add_u8(eb: &mut eventheader_dynamic::EventBuilder, name: &str, value: u8, format: u8)
    requires
        no_nul(name@),
        format <= 127,
    ensures
        tracepoint_items(*final(eb)) == tracepoint_items(*old(eb)).push(
            WireItem::Field(field(name@, Payload::Value8(value), format)),
        ),
        tracepoint_opcode_of(*final(eb)) == tracepoint_opcode_of(*old(eb)),
{
    eb.add_value(name, value, eventheader_dynamic::FieldFormat::from_int(format), 0);
}

/// `EventBuilder::add_value` of eventheader_dynamic with a `[u8; 16]`:
/// appends one field that holds a value of 128 bits, the sixteen bytes.
#[verifier::external_body]
fn eh_add_bytes16(
    eb: &mut eventheader_dynamic::EventBuilder,
    name: &str,
    value: [u8; 16],
    format: u8,
)
    requires
        no_nul(name@),
        format <= 127,
    ensures
        tracepoint_items(*final(eb)) == tracepoint_items(*old(eb)).push(
            WireItem::Field(field(name@, Payload::Value128(value@), format)),
        ),
        tracepoint_opcode_of(*final(eb)) == tracepoint_opcode_of(*old(eb)),
{
    eb.add_value(name, value, eventheader_dynamic::FieldFormat::from_int(format), 0);
}

/// `EventBuilder::add_str` of eventheader_dynamic with bytes: appends one
/// field that holds a counted string of 8-bit units. The string must fit
/// the count.
#[verifier::external_body]
fn eh_add_str(eb: &mut eventheader_dynamic::EventBuilder, name: &str, value: &[u8], format: u8)
    requires
        no_nul(name@),
        format <= 127,
        value@.len() <= MAX_COUNTED,
    ensures
        tracepoint_items(*final(eb)) == tracepoint_items(*old(eb)).push(
            WireItem::Field(field(name@, Payload::Str8(value@), format)),
        ),
        tracepoint_opcode_of(*final(eb)) == tracepoint_opcode_of(*old(eb)),
{
    eb.add_str(name, value, eventheader_dynamic::FieldFormat::from_int(format), 0);
}

/// `EventBuilder::add_struct` of eventheader_dynamic: appends one field that
/// groups the `count` fields that follow. A group is never empty.
#[verifier::external_body]
pub(crate) fn eh_add_struct(eb: &mut eventheader_dynamic::EventBuilder, name: &str, count: u8)
    requires
        no_nul(name@),
        1 <= count <= 127,
    ensures
        tracepoint_items(*final(eb)) == tracepoint_items(*old(eb)).push(
            WireItem::Field(field(name@, Payload::Struct(count), 0)),
        ),
        tracepoint_opcode_of(*final(eb)) == tracepoint_opcode_of(*old(eb)),
{
    eb.add_struct(name, count, 0);
}

/// Adds a text field: a counted string of 8-bit units, cut to the longest
/// that a counted field can hold.
pub fn add_text(eb: &mut eventheader_dynamic::EventBuilder, name: &str, value: &[u8], format: u8)
    requires
        no_nul(name@),
        format <= 127,
    ensures
        tracepoint_items(*final(eb)) == tracepoint_items(*old(eb)).push(
            WireItem::Field(field(name@, Payload::Str8(counted(value@)), format)),
        ),
        tracepoint_opcode_of(*final(eb)) == tracepoint_opcode_of(*old(eb)),
{
    if value.len() > MAX_COUNTED {
        let kept = slice_subrange(value, 0, MAX_COUNTED);
        assert(kept@ =~= counted(value@));
        eh_add_str(eb, name, kept, format);
    } else {
        eh_add_str(eb, name, value, format);
    }
}

/// The 8 bits of a boolean: one for true, zero for false.
pub open spec fn bool_bits(value: bool) -> u8 {
    if value {
        1
    } else {
        0
    }
}

/// The field that a slot becomes in a tracepoint event. A slot without a
/// value gives no field. Numbers of 64 bits are values of 64 bits, signed
/// ones marked as such; numbers of 128 bits are values of 128 bits, least
/// significant byte first; a float is its 64 bits marked as a float; a
/// boolean is 8 bits marked as a boolean; text is a counted string; a
/// character is its code in 32 bits, marked as text.
pub open spec fn tracepoint_field(slot: Slot) -> Option<WireField> {
    match slot.value {
        Value::Unset => None,
        Value::U64(u) => Some(field(slot.name, Payload::Value64(u), FORMAT_DEFAULT)),
        Value::I64(i) => Some(
            field(slot.name, Payload::Value64(unsigned_bits64(i)), FORMAT_SIGNED_INT),
        ),
        Value::U128(u) => Some(
            field(slot.name, Payload::Value128(le_bytes(u as nat, 16)), FORMAT_DEFAULT),
        ),
        Value::I128(i) => Some(
            field(
                slot.name,
                Payload::Value128(le_bytes(unsigned_bits(i) as nat, 16)),
                FORMAT_DEFAULT,
            ),
        ),
        Value::F64(bits) => Some(field(slot.name, Payload::Value64(bits), FORMAT_FLOAT)),
        Value::Bool(b) => Some(field(slot.name, Payload::Value8(bool_bits(b)), FORMAT_BOOLEAN)),
        Value::Str(s) => Some(
            field(slot.name, Payload::Str8(counted(encode_utf8(s))), FORMAT_DEFAULT),
        ),
        Value::Char(c) => Some(field(slot.name, Payload::Value32(c as u32), FORMAT_STRING_UTF)),
    }
}

/// Adds one field for a value: see [`tracepoint_field`].
pub fn add_field_value(
    eb: &mut eventheader_dynamic::EventBuilder,
    field_name: &str,
    value: &ValueTypes,
)
    requires
        no_nul(field_name@),
    ensures
        tracepoint_items(*final(eb)) == tracepoint_items(*old(eb)) + optional_item(
            tracepoint_field(Slot { name: field_name@, value: value@ }),
        ),
        tracepoint_opcode_of(*final(eb)) == tracepoint_opcode_of(*old(eb)),
{
    match value {
        ValueTypes::Unset => {
            assert(tracepoint_items(*eb) + Seq::<WireItem>::empty() =~= tracepoint_items(*eb));
        },
        ValueTypes::v_u64(u) => {
            eh_add_u64(eb, field_name, *u, FORMAT_DEFAULT);
        },
        ValueTypes::v_i64(i) => {
            eh_add_u64(eb, field_name, i64_bits(*i), FORMAT_SIGNED_INT);
        },
        ValueTypes::v_u128(u) => {
            eh_add_bytes16(eb, field_name, u128_le_bytes(*u), FORMAT_DEFAULT);
        },
        ValueTypes::v_i128(i) => {
            eh_add_bytes16(eb, field_name, u128_le_bytes(i128_bits(*i)), FORMAT_DEFAULT);
        },
        ValueTypes::v_f64(bits) => {
            eh_add_u64(eb, field_name, *bits, FORMAT_FLOAT);
        },
        ValueTypes::v_bool(b) => {
            let bits: u8 = if *b {
                1
            } else {
                0
            };
            eh_add_u8(eb, field_name, bits, FORMAT_BOOLEAN);
        },
        ValueTypes::v_str(s) => {
            add_text(eb, field_name, s.as_str().as_bytes(), FORMAT_DEFAULT);
        },
        ValueTypes::v_char(c) => {
            eh_add_u32(eb, field_name, *c as u32, FORMAT_STRING_UTF);
        },
    }
    assert(tracepoint_items(*eb) =~= tracepoint_items(*old(eb)) + optional_item(
        tracepoint_field(Slot { name: field_name@, value: value@ }),
    ));
}

/// The encoding of every slot: see [`tracepoint_field`].
pub open spec fn tracepoint_fields(slots: Seq<Slot>) -> Seq<WireItem> {
    encode_all(slots, |slot: Slot| tracepoint_field(slot))
}

/// Adds the fields of a span, in declaration order.
pub fn add_table_fields(eb: &mut eventheader_dynamic::EventBuilder, fields: &FieldTable)
    requires
        clean_names(fields@),
    ensures
        tracepoint_items(*final(eb)) == tracepoint_items(*old(eb)) + tracepoint_fields(fields@),
        tracepoint_opcode_of(*final(eb)) == tracepoint_opcode_of(*old(eb)),
{
    let n = fields.len();
    let mut i: usize = 0;
    assert(tracepoint_items(*eb) + tracepoint_fields(fields@.take(0)) =~= tracepoint_items(*eb));
    while i < n
        invariant
            n == fields@.len(),
            i <= n,
            clean_names(fields@),
            tracepoint_items(*eb) == tracepoint_items(*old(eb)) + tracepoint_fields(
                fields@.take(i as int),
            ),
            tracepoint_opcode_of(*eb) == tracepoint_opcode_of(*old(eb)),
        decreases n - i,
    {
        assert(no_nul(fields@[i as int].name));
        add_field_value(eb, fields.name(i), fields.value(i));
        proof {
            lemma_encode_all_step(fields@, |slot: Slot| tracepoint_field(slot), i as int);
            assert(tracepoint_items(*eb) =~= tracepoint_items(*old(eb)) + tracepoint_fields(
                fields@.take(i as int + 1),
            ));
        }
        i = i + 1;
    }
    assert(fields@.take(n as int) =~= fields@);
}

/// Adds the fields of an event, in the order given.
pub fn add_event_fields(eb: &mut eventheader_dynamic::EventBuilder, fields: &[FieldAndValue])
    requires
        clean_names(slots_of(fields@)),
    ensures
        tracepoint_items(*final(eb)) == tracepoint_items(*old(eb)) + tracepoint_fields(
            slots_of(fields@),
        ),
        tracepoint_opcode_of(*final(eb)) == tracepoint_opcode_of(*old(eb)),
{
    let n = fields.len();
    let ghost slots = slots_of(fields@);
    let mut i: usize = 0;
    assert(tracepoint_items(*eb) + tracepoint_fields(slots.take(0)) =~= tracepoint_items(*eb));
    while i < n
        invariant
            n == fields@.len(),
            slots == slots_of(fields@),
            i <= n,
            clean_names(slots),
            tracepoint_items(*eb) == tracepoint_items(*old(eb)) + tracepoint_fields(
                slots.take(i as int),
            ),
            tracepoint_opcode_of(*eb) == tracepoint_opcode_of(*old(eb)),
        decreases n - i,
    {
        assert(no_nul(slots[i as int].name));
        add_field_value(eb, fields[i].field_name, &fields[i].value);
        proof {
            lemma_encode_all_step(slots, |slot: Slot| tracepoint_field(slot), i as int);
            assert(tracepoint_items(*eb) =~= tracepoint_items(*old(eb)) + tracepoint_fields(
                slots.take(i as int + 1),
            ));
        }
        i = i + 1;
    }
    assert(slots.take(n as int) =~= slots);
}

/// The low 16 bits of an event tag: all that a tracepoint event keeps of it.
pub open spec fn short_tag(event_tag: u32) -> u16 {
    (event_tag % 0x1_0000) as u16
}

/// Cuts an event tag down to the 16 bits that a tracepoint event keeps.
pub fn low_tag(event_tag: u32) -> (out: u16)
    ensures
        out == short_tag(event_tag),
{
    (event_tag % 0x1_0000) as u16
}

/// The items before the fields of an event: the reset and the time, in
/// seconds since the Unix epoch, under the name that goes with the event's
/// opcode.
pub open spec fn tracepoint_head(
    name: Seq<char>,
    event_tag: u32,
    time_name: Seq<char>,
    unix_seconds: u64,
) -> Seq<WireItem> {
    seq![
        WireItem::BeginTracepoint { name, tag16: short_tag(event_tag) },
        WireItem::Field(field(time_name, Payload::Value64(unix_seconds), FORMAT_TIME)),
    ]
}

/// Builds the event that marks the entry into a span: opcode start, the
/// field `start time`, then the span's fields in declaration order.
pub fn span_start_with(
    eb: &mut eventheader_dynamic::EventBuilder,
    span_name: &str,
    unix_seconds: u64,
    fields: &FieldTable,
    event_tag: u32,
)
    requires
        no_nul(span_name@),
        clean_names(fields@),
    ensures
        tracepoint_items(*final(eb)) == tracepoint_head(
            span_name@,
            event_tag,
            "start time"@,
            unix_seconds,
        ) + tracepoint_fields(fields@),
        tracepoint_opcode_of(*final(eb)) == OPCODE_START,
{
    proof {
        reveal_strlit("start time");
    }
    eh_reset(eb, span_name, low_tag(event_tag));
    eh_opcode(eb, OPCODE_START);
    eh_add_u64(eb, "start time", unix_seconds, FORMAT_TIME);
    assert(tracepoint_items(*eb) =~= tracepoint_head(
        span_name@,
        event_tag,
        "start time"@,
        unix_seconds,
    ));
    add_table_fields(eb, fields);
}

/// Builds the event that marks the exit from a span: opcode stop, the field
/// `stop time` with the exit time, then the span's fields as they stand.
pub fn span_stop_with(
    eb: &mut eventheader_dynamic::EventBuilder,
    span_name: &str,
    start_stop_seconds: (u64, u64),
    fields: &FieldTable,
    event_tag: u32,
)
    requires
        no_nul(span_name@),
        clean_names(fields@),
    ensures
        tracepoint_items(*final(eb)) == tracepoint_head(
            span_name@,
            event_tag,
            "stop time"@,
            start_stop_seconds.1,
        ) + tracepoint_fields(fields@),
        tracepoint_opcode_of(*final(eb)) == OPCODE_STOP,
{
    proof {
        reveal_strlit("stop time");
    }
    eh_reset(eb, span_name, low_tag(event_tag));
    eh_opcode(eb, OPCODE_STOP);
    eh_add_u64(eb, "stop time", start_stop_seconds.1, FORMAT_TIME);
    assert(tracepoint_items(*eb) =~= tracepoint_head(
        span_name@,
        event_tag,
        "stop time"@,
        start_stop_seconds.1,
    ));
    add_table_fields(eb, fields);
}

/// Builds a standalone event: opcode info, the field `time`, then the
/// event's fields in the order given.
pub fn write_record_with(
    eb: &mut eventheader_dynamic::EventBuilder,
    unix_seconds: u64,
    event_name: &str,
    event_tag: u32,
    fields: &[FieldAndValue],
)
    requires
        no_nul(event_name@),
        clean_names(slots_of(fields@)),
    ensures
        tracepoint_items(*final(eb)) == tracepoint_head(
            event_name@,
            event_tag,
            "time"@,
            unix_seconds,
        ) + tracepoint_fields(slots_of(fields@)),
        tracepoint_opcode_of(*final(eb)) == OPCODE_INFO,
{
    proof {
        reveal_strlit("time");
    }
    eh_reset(eb, event_name, low_tag(event_tag));
    eh_opcode(eb, OPCODE_INFO);
    eh_add_u64(eb, "time", unix_seconds, FORMAT_TIME);
    assert(tracepoint_items(*eb) =~= tracepoint_head(
        event_name@,
        event_tag,
        "time"@,
        unix_seconds,
    ));
    add_event_fields(eb, fields);
}

/// The whole seconds from the Unix epoch to a point in time at or after it.
pub open spec fn unix_seconds_of(timestamp: Timestamp) -> Option<u64> {
    if timestamp.secs >= 0 {
        Some(timestamp.secs as u64)
    } else {
        None
    }
}

/// Builds the event that marks the entry into a span at a point in time:
/// see [`span_start_with`]. For a time before the Unix epoch nothing is
/// built and the builder is left as it is. Returns whether the event was
/// built.
pub fn span_start(
    eb: &mut eventheader_dynamic::EventBuilder,
    span_name: &str,
    timestamp: &Timestamp,
    fields: &FieldTable,
    event_tag: u32,
) -> (built: bool)
    requires
        no_nul(span_name@),
        clean_names(fields@),
    ensures
        built == (timestamp.secs >= 0),
        !built ==> tracepoint_items(*final(eb)) == tracepoint_items(*old(eb))
            && tracepoint_opcode_of(*final(eb)) == tracepoint_opcode_of(*old(eb)),
        built ==> tracepoint_items(*final(eb)) == tracepoint_head(
            span_name@,
            event_tag,
            "start time"@,
            timestamp.secs as u64,
        ) + tracepoint_fields(fields@),
        built ==> tracepoint_opcode_of(*final(eb)) == OPCODE_START,
{
    match timestamp.unix_seconds() {
        Some(seconds) => {
            span_start_with(eb, span_name, seconds, fields, event_tag);
            true
        },
        None => false,
    }
}

/// Builds the event that marks the exit from a span that was entered and
/// left at two points in time: see [`span_stop_with`]. For an exit before
/// the Unix epoch nothing is built and the builder is left as it is.
/// Returns whether the event was built.
pub fn span_stop(
    eb: &mut eventheader_dynamic::EventBuilder,
    span_name: &str,
    start_stop_times: (Timestamp, Timestamp),
    fields: &FieldTable,
    event_tag: u32,
) -> (built: bool)
    requires
        no_nul(span_name@),
        clean_names(fields@),
    ensures
        built == (start_stop_times.1.secs >= 0),
        !built ==> tracepoint_items(*final(eb)) == tracepoint_items(*old(eb))
            && tracepoint_opcode_of(*final(eb)) == tracepoint_opcode_of(*old(eb)),
        built ==> tracepoint_items(*final(eb)) == tracepoint_head(
            span_name@,
            event_tag,
            "stop time"@,
            start_stop_times.1.secs as u64,
        ) + tracepoint_fields(fields@),
        built ==> tracepoint_opcode_of(*final(eb)) == OPCODE_STOP,
{
    match start_stop_times.1.unix_seconds() {
        Some(seconds) => {
            span_stop_with(eb, span_name, (seconds, seconds), fields, event_tag);
            true
        },
        None => false,
    }
}

/// Builds a standalone event at a point in time: see
/// [`write_record_with`]. For a time before the Unix epoch nothing is built
/// and the builder is left as it is. Returns whether the event was built.
pub fn write_record(
    eb: &mut eventheader_dynamic::EventBuilder,
    timestamp: &Timestamp,
    event_name: &str,
    event_tag: u32,
    fields: &[FieldAndValue],
) -> (built: bool)
    requires
        no_nul(event_name@),
        clean_names(slots_of(fields@)),
    ensures
        built == (timestamp.secs >= 0),
        !built ==> tracepoint_items(*final(eb)) == tracepoint_items(*old(eb))
            && tracepoint_opcode_of(*final(eb)) == tracepoint_opcode_of(*old(eb)),
        built ==> tracepoint_items(*final(eb)) == tracepoint_head(
            event_name@,
            event_tag,
            "time"@,
            timestamp.secs as u64,
        ) + tracepoint_fields(slots_of(fields@)),
        built ==> tracepoint_opcode_of(*final(eb)) == OPCODE_INFO,
{
    match timestamp.unix_seconds() {
        Some(seconds) => {
            write_record_with(eb, seconds, event_name, event_tag, fields);
            true
        },
        None => false,
    }
}

} // verus!
