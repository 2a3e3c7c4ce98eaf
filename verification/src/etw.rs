//! The TraceLogging encoder: spans and events as self-describing events.
//!
//! The functions here fill an event builder; sending the finished event is
//! left to the caller, who holds the provider.

use crate::fields::{slots_of, FieldAndValue, FieldTable, Slot};
use crate::time::{system_time_words, utc_civil_time, Timestamp, Win32SystemTime};
use crate::values::{Value, ValueTypes};
use crate::wire::{
    char_low_byte, clean_names, counted, encode_all, field, i128_bits, lemma_encode_all_step,
    low_byte, no_nul, optional_item, unsigned_bits, Payload, WireField, WireItem, OPCODE_INFO,
    OPCODE_START, OPCODE_STOP,
};
use vstd::prelude::*;
use vstd::utf8::encode_utf8;

verus! {

/// `EventBuilder` of tracelogging_dynamic: the builder of one event at a
/// time. Nothing of its inside is known here but what [`etw_items`] names.
#[verifier::external_type_specification]
#[verifier::external_body]
pub struct ExEtwEventBuilder(tracelogging_dynamic::EventBuilder);

/// Out type: the decoder picks the form from the field's type.
pub const OUT_DEFAULT: u8 = 0;

/// Out type: text in the system's 8-bit code page.
pub const OUT_STRING: u8 = 2;

/// Out type: true or false.
pub const OUT_BOOLEAN: u8 = 3;

/// Out type: hexadecimal.
pub const OUT_HEX: u8 = 4;

/// Out type: a signed decimal number.
pub const OUT_SIGNED: u8 = 17;

/// Out type: UTF-8 text.
pub const OUT_UTF8: u8 = 35;

/// Out type: a date and time in UTC.
pub const OUT_DATETIME_UTC: u8 = 38;

/// The largest event tag: tags have 28 bits.
pub const MAX_EVENT_TAG: u32 = 0x0FFF_FFFF;

/// What a TraceLogging event builder holds: the reset that began the event
/// and what was set and added since.
pub uninterp spec fn etw_items(eb: tracelogging_dynamic::EventBuilder) -> Seq<WireItem>;

/// The opcode that a TraceLogging event builder holds for its event.
pub uninterp spec fn etw_opcode_of(eb: tracelogging_dynamic::EventBuilder) -> u8;

/// `EventBuilder::reset` of tracelogging_dynamic: the builder forgets the
/// previous event and begins one with this name, level, keyword and tag,
/// and with the opcode info.
#[verifier::external_body]
pub(crate) fn etw_reset(
    eb: &mut tracelogging_dynamic::EventBuilder,
    name: &str,
    level: u8,
    keyword: u64,
    event_tag: u32,
)
    requires
        no_nul(name@),
        event_tag <= MAX_EVENT_TAG,
    ensures
        etw_items(*final(eb)) == seq![
            WireItem::Begin { name: name@, level, keyword, tag: event_tag },
        ],
        etw_opcode_of(*final(eb)) == OPCODE_INFO,
{
    eb.reset(name, tracelogging::Level::from_int(level), keyword, event_tag);
}

/// `EventBuilder::opcode` of tracelogging_dynamic: sets the event's opcode
/// and leaves everything else as it is.
#[verifier::external_body]
pub(crate) fn etw_opcode(eb: &mut tracelogging_dynamic::EventBuilder, opcode: u8)
    ensures
        etw_opcode_of(*final(eb)) == opcode,
        etw_items(*final(eb)) == etw_items(*old(eb)),
{
    eb.opcode(tracelogging::Opcode::from_int(opcode));
}

/// `EventBuilder::add_systemtime` of tracelogging_dynamic: appends one field
/// that holds a date and time as eight 16-bit numbers.
#[verifier::external_body]
fn etw_add_systemtime(
    eb: &mut tracelogging_dynamic::EventBuilder,
    name: &str,
    value: &[u16; 8],
    out_type: u8,
)
    requires
        no_nul(name@),
        out_type <= 127,
    ensures
        etw_items(*final(eb)) == etw_items(*old(eb)).push(
            WireItem::Field(field(name@, Payload::SystemTime(value@), out_type)),
        ),
        etw_opcode_of(*final(eb)) == etw_opcode_of(*old(eb)),
{
    eb.add_systemtime(name, value, tracelogging::OutType::from_int(out_type), 0);
}

/// `EventBuilder::add_u64` of tracelogging_dynamic: appends one field that
/// holds a 64-bit unsigned number.
#[verifier::external_body]
fn etw_add_u64(eb: &mut tracelogging_dynamic::EventBuilder, name: &str, value: u64, out_type: u8)
    requires
        no_nul(name@),
        out_type <= 127,
    ensures
        etw_items(*final(eb)) == etw_items(*old(eb)).push(
            WireItem::Field(field(name@, Payload::U64(value), out_type)),
        ),
        etw_opcode_of(*final(eb)) == etw_opcode_of(*old(eb)),
{
    eb.add_u64(name, value, tracelogging::OutType::from_int(out_type), 0);
}

/// `EventBuilder::add_i64` of tracelogging_dynamic: appends one field that
/// holds a 64-bit signed number.
#[verifier::external_body]
fn etw_add_i64(eb: &mut tracelogging_dynamic::EventBuilder, name: &str, value: i64, out_type: u8)
    requires
        no_nul(name@),
        out_type <= 127,
    ensures
        etw_items(*final(eb)) == etw_items(*old(eb)).push(
            WireItem::Field(field(name@, Payload::I64(value), out_type)),
        ),
        etw_opcode_of(*final(eb)) == etw_opcode_of(*old(eb)),
{
    eb.add_i64(name, value, tracelogging::OutType::from_int(out_type), 0);
}

/// `EventBuilder::add_u64_sequence` of tracelogging_dynamic: appends one
/// field that holds a counted array of 64-bit unsigned numbers.
#[verifier::external_body]
fn etw_add_u64_sequence(
    eb: &mut tracelogging_dynamic::EventBuilder,
    name: &str,
    values: &[u64; 2],
    out_type: u8,
)
    requires
        no_nul(name@),
        out_type <= 127,
    ensures
        etw_items(*final(eb)) == etw_items(*old(eb)).push(
            WireItem::Field(field(name@, Payload::U64Sequence(values@), out_type)),
        ),
        etw_opcode_of(*final(eb)) == etw_opcode_of(*old(eb)),
{
    eb.add_u64_sequence(name, values, tracelogging::OutType::from_int(out_type), 0);
}

/// `EventBuilder::raw_add_meta_scalar` and `raw_add_data_value` of
/// tracelogging_dynamic, as its `add_f64` calls them: appends one field of
/// the 64-bit float type whose data are the given eight bytes.
#[verifier::external_body]
fn etw_add_f64_bits(
    eb: &mut tracelogging_dynamic::EventBuilder,
    name: &str,
    bits: u64,
    out_type: u8,
)
    requires
        no_nul(name@),
        out_type <= 127,
    ensures
        etw_items(*final(eb)) == etw_items(*old(eb)).push(
            WireItem::Field(field(name@, Payload::F64(bits), out_type)),
        ),
        etw_opcode_of(*final(eb)) == etw_opcode_of(*old(eb)),
{
    eb.raw_add_meta_scalar(
        name,
        tracelogging::InType::F64,
        tracelogging::OutType::from_int(out_type),
        0,
    ).raw_add_data_value(&bits);
}

/// `EventBuilder::add_bool32` of tracelogging_dynamic: appends one field
/// that holds a boolean in 32 bits.
#[verifier::external_body]
fn etw_add_bool32(
    eb: &mut tracelogging_dynamic::EventBuilder,
    name: &str,
    value: i32,
    out_type: u8,
)
    requires
        no_nul(name@),
        out_type <= 127,
    ensures
        etw_items(*final(eb)) == etw_items(*old(eb)).push(
            WireItem::Field(field(name@, Payload::Bool32(value), out_type)),
        ),
        etw_opcode_of(*final(eb)) == etw_opcode_of(*old(eb)),
{
    eb.add_bool32(name, value, tracelogging::OutType::from_int(out_type), 0);
}

/// `EventBuilder::add_str8` of tracelogging_dynamic: appends one field that
/// holds a counted string of 8-bit units, cut to the longest that
/// a counted field can hold.
#[verifier::external_body]
pub(crate) fn etw_add_str8(
    eb: &mut tracelogging_dynamic::EventBuilder,
    name: &str,
    value: &[u8],
    out_type: u8,
)
    requires
        no_nul(name@),
        out_type <= 127,
    ensures
        etw_items(*final(eb)) == etw_items(*old(eb)).push(
            WireItem::Field(field(name@, Payload::Str8(counted(value@)), out_type)),
        ),
        etw_opcode_of(*final(eb)) == etw_opcode_of(*old(eb)),
{
    eb.add_str8(name, value, tracelogging::OutType::from_int(out_type), 0);
}

/// `EventBuilder::add_u8` of tracelogging_dynamic: appends one field that
/// holds one byte.
#[verifier::external_body]
fn etw_add_u8(eb: &mut tracelogging_dynamic::EventBuilder, name: &str, value: u8, out_type: u8)
    requires
        no_nul(name@),
        out_type <= 127,
    ensures
        etw_items(*final(eb)) == etw_items(*old(eb)).push(
            WireItem::Field(field(name@, Payload::U8(value), out_type)),
        ),
        etw_opcode_of(*final(eb)) == etw_opcode_of(*old(eb)),
{
    eb.add_u8(name, value, tracelogging::OutType::from_int(out_type), 0);
}

/// `EventBuilder::add_u16` of tracelogging_dynamic: appends one field that
/// holds a 16-bit unsigned number.
#[verifier::external_body]
pub(crate) fn etw_add_u16(
    eb: &mut tracelogging_dynamic::EventBuilder,
    name: &str,
    value: u16,
    out_type: u8,
)
    requires
        no_nul(name@),
        out_type <= 127,
    ensures
        etw_items(*final(eb)) == etw_items(*old(eb)).push(
            WireItem::Field(field(name@, Payload::U16(value), out_type)),
        ),
        etw_opcode_of(*final(eb)) == etw_opcode_of(*old(eb)),
{
    eb.add_u16(name, value, tracelogging::OutType::from_int(out_type), 0);
}

/// `EventBuilder::add_struct` of tracelogging_dynamic: appends one field
/// that groups the `count` fields that follow.
#[verifier::external_body]
pub(crate) fn etw_add_struct(eb: &mut tracelogging_dynamic::EventBuilder, name: &str, count: u8)
    requires
        no_nul(name@),
        count <= 127,
    ensures
        etw_items(*final(eb)) == etw_items(*old(eb)).push(
            WireItem::Field(field(name@, Payload::Struct(count), 0)),
        ),
        etw_opcode_of(*final(eb)) == etw_opcode_of(*old(eb)),
{
    eb.add_struct(name, count, 0);
}

/// The two 64-bit words of a 128-bit number, low word first.
pub open spec fn words_of(value: u128) -> Seq<u64> {
    seq![(value % 0x1_0000_0000_0000_0000) as u64, (value / 0x1_0000_0000_0000_0000) as u64]
}

/// Splits a 128-bit number into its two 64-bit words, low word first.
pub fn u128_words(value: u128) -> (out: [u64; 2])
    ensures
        out@ == words_of(value),
{
    let out = [
        (value % 0x1_0000_0000_0000_0000) as u64,
        (value / 0x1_0000_0000_0000_0000) as u64,
    ];
    assert(out@ =~= words_of(value));
    out
}

/// The field that a slot becomes in a TraceLogging event. A slot without a
/// value gives no field. Numbers of 64 bits and floats keep their type;
/// numbers of 128 bits become two 64-bit words shown in hexadecimal; a
/// boolean becomes a 32-bit boolean; text is marked as UTF-8; a character
/// becomes the low byte of its code, shown as text.
pub open spec fn etw_field(slot: Slot) -> Option<WireField> {
    match slot.value {
        Value::Unset => None,
        Value::U64(u) => Some(field(slot.name, Payload::U64(u), OUT_DEFAULT)),
        Value::I64(i) => Some(field(slot.name, Payload::I64(i), OUT_DEFAULT)),
        Value::U128(u) => Some(field(slot.name, Payload::U64Sequence(words_of(u)), OUT_HEX)),
        Value::I128(i) => Some(
            field(slot.name, Payload::U64Sequence(words_of(unsigned_bits(i))), OUT_HEX),
        ),
        Value::F64(bits) => Some(field(slot.name, Payload::F64(bits), OUT_DEFAULT)),
        Value::Bool(b) => Some(
            field(slot.name, Payload::Bool32(if b { 1i32 } else { 0i32 }), OUT_BOOLEAN),
        ),
        Value::Str(s) => Some(field(slot.name, Payload::Str8(counted(encode_utf8(s))), OUT_UTF8)),
        Value::Char(c) => Some(field(slot.name, Payload::U8(low_byte(c)), OUT_STRING)),
    }
}

/// Adds one field for a value: see [`etw_field`].
pub fn add_field_value(
    eb: &mut tracelogging_dynamic::EventBuilder,
    field_name: &str,
    value: &ValueTypes,
)
    requires
        no_nul(field_name@),
    ensures
        etw_items(*final(eb)) == etw_items(*old(eb)) + optional_item(
            etw_field(Slot { name: field_name@, value: value@ }),
        ),
        etw_opcode_of(*final(eb)) == etw_opcode_of(*old(eb)),
{
    match value {
        ValueTypes::Unset => {
            assert(etw_items(*eb) + Seq::<WireItem>::empty() =~= etw_items(*eb));
        },
        ValueTypes::v_u64(u) => {
            etw_add_u64(eb, field_name, *u, OUT_DEFAULT);
        },
        ValueTypes::v_i64(i) => {
            etw_add_i64(eb, field_name, *i, OUT_DEFAULT);
        },
        ValueTypes::v_u128(u) => {
            let words = u128_words(*u);
            etw_add_u64_sequence(eb, field_name, &words, OUT_HEX);
        },
        ValueTypes::v_i128(i) => {
            let words = u128_words(i128_bits(*i));
            etw_add_u64_sequence(eb, field_name, &words, OUT_HEX);
        },
        ValueTypes::v_f64(bits) => {
            etw_add_f64_bits(eb, field_name, *bits, OUT_DEFAULT);
        },
        ValueTypes::v_bool(b) => {
            let as_int: i32 = if *b {
                1
            } else {
                0
            };
            etw_add_bool32(eb, field_name, as_int, OUT_BOOLEAN);
        },
        ValueTypes::v_str(s) => {
            etw_add_str8(eb, field_name, s.as_str().as_bytes(), OUT_UTF8);
        },
        ValueTypes::v_char(c) => {
            etw_add_u8(eb, field_name, char_low_byte(*c), OUT_STRING);
        },
    }
    assert(etw_items(*eb) =~= etw_items(*old(eb)) + optional_item(
        etw_field(Slot { name: field_name@, value: value@ }),
    ));
}

/// The encoding of every slot: see [`etw_field`].
pub open spec fn etw_fields(slots: Seq<Slot>) -> Seq<WireItem> {
    encode_all(slots, |slot: Slot| etw_field(slot))
}

/// Adds the fields of a span, in declaration order.
pub fn add_table_fields(eb: &mut tracelogging_dynamic::EventBuilder, fields: &FieldTable)
    requires
        clean_names(fields@),
    ensures
        etw_items(*final(eb)) == etw_items(*old(eb)) + etw_fields(fields@),
        etw_opcode_of(*final(eb)) == etw_opcode_of(*old(eb)),
{
    let n = fields.len();
    let mut i: usize = 0;
    assert(etw_items(*eb) + etw_fields(fields@.take(0)) =~= etw_items(*eb));
    while i < n
        invariant
            n == fields@.len(),
            i <= n,
            clean_names(fields@),
            etw_items(*eb) == etw_items(*old(eb)) + etw_fields(fields@.take(i as int)),
            etw_opcode_of(*eb) == etw_opcode_of(*old(eb)),
        decreases n - i,
    {
        let ghost before = etw_items(*eb);
        assert(no_nul(fields@[i as int].name));
        add_field_value(eb, fields.name(i), fields.value(i));
        proof {
            lemma_encode_all_step(fields@, |slot: Slot| etw_field(slot), i as int);
            assert(etw_items(*eb) =~= etw_items(*old(eb)) + etw_fields(
                fields@.take(i as int + 1),
            ));
        }
        i = i + 1;
    }
    assert(fields@.take(n as int) =~= fields@);
}

/// Adds the fields of an event, in the order given.
pub fn add_event_fields(eb: &mut tracelogging_dynamic::EventBuilder, fields: &[FieldAndValue])
    requires
        clean_names(slots_of(fields@)),
    ensures
        etw_items(*final(eb)) == etw_items(*old(eb)) + etw_fields(slots_of(fields@)),
        etw_opcode_of(*final(eb)) == etw_opcode_of(*old(eb)),
{
    let n = fields.len();
    let ghost slots = slots_of(fields@);
    let mut i: usize = 0;
    assert(etw_items(*eb) + etw_fields(slots.take(0)) =~= etw_items(*eb));
    while i < n
        invariant
            n == fields@.len(),
            slots == slots_of(fields@),
            i <= n,
            clean_names(slots),
            etw_items(*eb) == etw_items(*old(eb)) + etw_fields(slots.take(i as int)),
            etw_opcode_of(*eb) == etw_opcode_of(*old(eb)),
        decreases n - i,
    {
        assert(no_nul(slots[i as int].name));
        add_field_value(eb, fields[i].field_name, &fields[i].value);
        proof {
            lemma_encode_all_step(slots, |slot: Slot| etw_field(slot), i as int);
            assert(etw_items(*eb) =~= etw_items(*old(eb)) + etw_fields(slots.take(i as int + 1)));
        }
        i = i + 1;
    }
    assert(slots.take(n as int) =~= slots);
}

/// The items before the fields of an event: the reset and the time, under
/// the name that goes with the event's opcode.
pub open spec fn etw_head(
    name: Seq<char>,
    level: u8,
    keyword: u64,
    event_tag: u32,
    time_name: Seq<char>,
    time: Seq<u16>,
) -> Seq<WireItem> {
    seq![
        WireItem::Begin { name, level, keyword, tag: event_tag },
        WireItem::Field(field(time_name, Payload::SystemTime(time), OUT_DATETIME_UTC)),
    ]
}

/// Builds the event that marks the entry into a span: opcode start, the
/// field `start time`, then the span's fields in declaration order.
pub fn span_start_with(
    eb: &mut tracelogging_dynamic::EventBuilder,
    span_name: &str,
    timestamp: &[u16; 8],
    fields: &FieldTable,
    level: u8,
    keyword: u64,
    event_tag: u32,
)
    requires
        no_nul(span_name@),
        clean_names(fields@),
        event_tag <= MAX_EVENT_TAG,
    ensures
        etw_items(*final(eb)) == etw_head(
            span_name@,
            level,
            keyword,
            event_tag,
            "start time"@,
            timestamp@,
        ) + etw_fields(fields@),
        etw_opcode_of(*final(eb)) == OPCODE_START,
{
    proof {
        reveal_strlit("start time");
    }
    etw_reset(eb, span_name, level, keyword, event_tag);
    etw_opcode(eb, OPCODE_START);
    etw_add_systemtime(eb, "start time", timestamp, OUT_DATETIME_UTC);
    assert(etw_items(*eb) =~= etw_head(
        span_name@,
        level,
        keyword,
        event_tag,
        "start time"@,
        timestamp@,
    ));
    add_table_fields(eb, fields);
}

/// Builds the event that marks the exit from a span: opcode stop, the field
/// `stop time` with the exit time, then the span's fields as they stand.
pub fn span_stop_with(
    eb: &mut tracelogging_dynamic::EventBuilder,
    span_name: &str,
    start_stop_times: (&[u16; 8], &[u16; 8]),
    fields: &FieldTable,
    level: u8,
    keyword: u64,
    event_tag: u32,
)
    requires
        no_nul(span_name@),
        clean_names(fields@),
        event_tag <= MAX_EVENT_TAG,
    ensures
        etw_items(*final(eb)) == etw_head(
            span_name@,
            level,
            keyword,
            event_tag,
            "stop time"@,
            start_stop_times.1@,
        ) + etw_fields(fields@),
        etw_opcode_of(*final(eb)) == OPCODE_STOP,
{
    proof {
        reveal_strlit("stop time");
    }
    etw_reset(eb, span_name, level, keyword, event_tag);
    etw_opcode(eb, OPCODE_STOP);
    etw_add_systemtime(eb, "stop time", start_stop_times.1, OUT_DATETIME_UTC);
    assert(etw_items(*eb) =~= etw_head(
        span_name@,
        level,
        keyword,
        event_tag,
        "stop time"@,
        start_stop_times.1@,
    ));
    add_table_fields(eb, fields);
}

/// Builds a standalone event: opcode info, the field `time`, then the
/// event's fields in the order given.
pub fn write_record_with(
    eb: &mut tracelogging_dynamic::EventBuilder,
    timestamp: &[u16; 8],
    event_name: &str,
    level: u8,
    keyword: u64,
    event_tag: u32,
    fields: &[FieldAndValue],
)
    requires
        no_nul(event_name@),
        clean_names(slots_of(fields@)),
        event_tag <= MAX_EVENT_TAG,
    ensures
        etw_items(*final(eb)) == etw_head(
            event_name@,
            level,
            keyword,
            event_tag,
            "time"@,
            timestamp@,
        ) + etw_fields(slots_of(fields@)),
        etw_opcode_of(*final(eb)) == OPCODE_INFO,
{
    proof {
        reveal_strlit("time");
    }
    etw_reset(eb, event_name, level, keyword, event_tag);
    etw_opcode(eb, OPCODE_INFO);
    etw_add_systemtime(eb, "time", timestamp, OUT_DATETIME_UTC);
    assert(etw_items(*eb) =~= etw_head(
        event_name@,
        level,
        keyword,
        event_tag,
        "time"@,
        timestamp@,
    ));
    add_event_fields(eb, fields);
}

/// The system time of a point in time, where the calendar reaches it.
pub open spec fn system_time_of(timestamp: Timestamp) -> Option<Seq<u16>> {
    match utc_civil_time(timestamp.secs, timestamp.nanos) {
        Some(civil) => Some(system_time_words(civil)),
        None => None,
    }
}

/// Builds the event that marks the entry into a span at a point in time:
/// see [`span_start_with`]. Where the calendar does not reach the time,
/// nothing is built and the builder is left as it is. Returns whether the
/// event was built.
pub fn span_start(
    eb: &mut tracelogging_dynamic::EventBuilder,
    span_name: &str,
    timestamp: &Timestamp,
    fields: &FieldTable,
    level: u8,
    keyword: u64,
    event_tag: u32,
) -> (built: bool)
    requires
        no_nul(span_name@),
        clean_names(fields@),
        event_tag <= MAX_EVENT_TAG,
    ensures
        built == (system_time_of(*timestamp) is Some),
        !built ==> etw_items(*final(eb)) == etw_items(*old(eb)) && etw_opcode_of(*final(eb))
            == etw_opcode_of(*old(eb)),
        built ==> etw_items(*final(eb)) == etw_head(
            span_name@,
            level,
            keyword,
            event_tag,
            "start time"@,
            system_time_of(*timestamp)->0,
        ) + etw_fields(fields@),
        built ==> etw_opcode_of(*final(eb)) == OPCODE_START,
{
    match Win32SystemTime::from(timestamp) {
        Some(time) => {
            span_start_with(eb, span_name, &time.st, fields, level, keyword, event_tag);
            true
        },
        None => false,
    }
}

/// Builds the event that marks the exit from a span that was entered and
/// left at two points in time: see [`span_stop_with`]. Where the calendar
/// does not reach the time of the exit, nothing is built and the builder is
/// left as it is. Returns whether the event was built.
pub fn span_stop(
    eb: &mut tracelogging_dynamic::EventBuilder,
    span_name: &str,
    start_stop_times: (Timestamp, Timestamp),
    fields: &FieldTable,
    level: u8,
    keyword: u64,
    event_tag: u32,
) -> (built: bool)
    requires
        no_nul(span_name@),
        clean_names(fields@),
        event_tag <= MAX_EVENT_TAG,
    ensures
        built == (system_time_of(start_stop_times.1) is Some),
        !built ==> etw_items(*final(eb)) == etw_items(*old(eb)) && etw_opcode_of(*final(eb))
            == etw_opcode_of(*old(eb)),
        built ==> etw_items(*final(eb)) == etw_head(
            span_name@,
            level,
            keyword,
            event_tag,
            "stop time"@,
            system_time_of(start_stop_times.1)->0,
        ) + etw_fields(fields@),
        built ==> etw_opcode_of(*final(eb)) == OPCODE_STOP,
{
    match Win32SystemTime::from(&start_stop_times.1) {
        Some(time) => {
            span_stop_with(eb, span_name, (&time.st, &time.st), fields, level, keyword, event_tag);
            true
        },
        None => false,
    }
}

/// Builds a standalone event at a point in time: see
/// [`write_record_with`]. Where the calendar does not reach the time,
/// nothing is built and the builder is left as it is. Returns whether the
/// event was built.
pub fn write_record(
    eb: &mut tracelogging_dynamic::EventBuilder,
    timestamp: &Timestamp,
    event_name: &str,
    level: u8,
    keyword: u64,
    event_tag: u32,
    fields: &[FieldAndValue],
) -> (built: bool)
    requires
        no_nul(event_name@),
        clean_names(slots_of(fields@)),
        event_tag <= MAX_EVENT_TAG,
    ensures
        built == (system_time_of(*timestamp) is Some),
        !built ==> etw_items(*final(eb)) == etw_items(*old(eb)) && etw_opcode_of(*final(eb))
            == etw_opcode_of(*old(eb)),
        built ==> etw_items(*final(eb)) == etw_head(
            event_name@,
            level,
            keyword,
            event_tag,
            "time"@,
            system_time_of(*timestamp)->0,
        ) + etw_fields(slots_of(fields@)),
        built ==> etw_opcode_of(*final(eb)) == OPCODE_INFO,
{
    match Win32SystemTime::from(timestamp) {
        Some(time) => {
            write_record_with(eb, &time.st, event_name, level, keyword, event_tag, fields);
            true
        },
        None => false,
    }
}

} // verus!
