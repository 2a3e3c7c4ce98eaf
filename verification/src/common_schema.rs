//! The Common Schema envelope: what it shares between the two encoders.
//!
//! An event in this schema carries a version, then three groups: `PartA`
//! with the time and the span it belongs to, `PartB` with the kind of record,
//! and `PartC` with the record's own fields.

use crate::fields::{slots_of, FieldAndValue, FieldTable, Slot};
use crate::names::{compare_names, lemma_name_order_total, NameOrder};
use crate::values::ValueTypes;
use crate::wire::{counted, field, no_nul, Payload, WireItem};
use vstd::prelude::*;
use vstd::utf8::encode_utf8;

verus! {

/// The version of the schema that every event declares.
pub const SCHEMA_VERSION: u16 = 0x0401;

/// The most fields that a group can hold.
pub const MAX_GROUP_FIELDS: usize = 127;

/// The name under which a field goes into `PartC`: `message` becomes `Body`,
/// every other name stays.
pub open spec fn part_c_name(name: Seq<char>) -> Seq<char> {
    if name == "message"@ {
        "Body"@
    } else {
        name
    }
}

/// A slot under its `PartC` name.
pub open spec fn part_c_slot(slot: Slot) -> Slot {
    Slot { name: part_c_name(slot.name), value: slot.value }
}

/// Whether every field named `message` holds text, as the schema's body must.
pub open spec fn messages_are_text(slots: Seq<Slot>) -> bool {
    forall|i: int|
        0 <= i < slots.len() && (#[trigger] slots[i]).name == "message"@ ==> slots[i].value is Str
}

/// Checks one field: if it is named `message`, it must hold text.
pub fn message_is_text(field_name: &str, value: &ValueTypes) -> (out: bool)
    ensures
        out == (field_name@ == "message"@ ==> value@ is Str),
{
    proof {
        lemma_name_order_total(field_name@, "message"@);
    }
    match compare_names(field_name, "message") {
        NameOrder::Same => match value {
            ValueTypes::v_str(_) => true,
            _ => false,
        },
        _ => true,
    }
}

/// Checks the fields of a span: see [`messages_are_text`].
pub fn table_messages_are_text(fields: &FieldTable) -> (out: bool)
    ensures
        out == messages_are_text(fields@),
{
    let n = fields.len();
    let mut i: usize = 0;
    while i < n
        invariant
            n == fields@.len(),
            i <= n,
            forall|j: int|
                0 <= j < i && (#[trigger] fields@[j]).name == "message"@
                    ==> fields@[j].value is Str,
        decreases n - i,
    {
        if !message_is_text(fields.name(i), fields.value(i)) {
            return false;
        }
        i = i + 1;
    }
    true
}

/// Checks the fields of an event: see [`messages_are_text`].
pub fn event_messages_are_text(fields: &[FieldAndValue]) -> (out: bool)
    ensures
        out == messages_are_text(slots_of(fields@)),
{
    let n = fields.len();
    let mut i: usize = 0;
    while i < n
        invariant
            n == fields@.len(),
            i <= n,
            forall|j: int|
                0 <= j < i && (#[trigger] slots_of(fields@)[j]).name == "message"@ ==> slots_of(
                    fields@,
                )[j].value is Str,
        decreases n - i,
    {
        if !message_is_text(fields[i].field_name, &fields[i].value) {
            assert(slots_of(fields@)[i as int].name == "message"@);
            return false;
        }
        i = i + 1;
    }
    true
}

/// Renames a field for `PartC`: see [`part_c_name`].
pub fn rename_for_part_c<'a>(field_name: &'a str) -> (out: &'a str)
    ensures
        out@ == part_c_name(field_name@),
        no_nul(field_name@) ==> no_nul(out@),
{
    proof {
        lemma_name_order_total(field_name@, "message"@);
        reveal_strlit("Body");
    }
    match compare_names(field_name, "message") {
        NameOrder::Same => "Body",
        _ => field_name,
    }
}

/// `x` shifted right by `k` hexadecimal digits.
pub open spec fn shifted(x: nat, k: nat) -> nat
    decreases k,
{
    if k == 0 {
        x
    } else {
        shifted(x, (k - 1) as nat) / 16
    }
}

/// The ASCII code of a hexadecimal digit, in lower case.
pub open spec fn hex_digit(d: nat) -> u8 {
    if d < 10 {
        (48 + d) as u8
    } else {
        (87 + d) as u8
    }
}

/// The character `k` places from the right in the text of `x`: a digit, or
/// a space to the left of the first digit.
pub open spec fn hex_byte(x: nat, k: nat) -> u8 {
    if k == 0 || shifted(x, k) > 0 {
        hex_digit(shifted(x, k) % 16)
    } else {
        32u8
    }
}

/// A span id as text: hexadecimal in lower case, right-aligned in sixteen
/// characters and padded with spaces on the left.
pub open spec fn fixed_hex_text(id: u64) -> Seq<u8> {
    Seq::new(16, |p: int| hex_byte(id as nat, (15 - p) as nat))
}

/// Renders a span id as text: see [`fixed_hex_text`].
pub fn fixed_hex(id: u64) -> (out: [u8; 16])
    ensures
        out@ == fixed_hex_text(id),
{
    let mut out: [u8; 16] = [32u8; 16];
    let mut rest: u64 = id;
    let mut k: usize = 0;
    while k < 16
        invariant
            k <= 16,
            out@.len() == 16,
            rest == shifted(id as nat, k as nat),
            forall|p: int| 16 - k <= p < 16 ==> out@[p] == hex_byte(id as nat, (15 - p) as nat),
        decreases 16 - k,
    {
        if k == 0 || rest > 0 {
            let d: u8 = (rest % 16) as u8;
            out[15 - k] = if d < 10 {
                48 + d
            } else {
                87 + d
            };
        } else {
            out[15 - k] = 32;
        }
        rest = rest / 16;
        k = k + 1;
    }
    assert(out@ =~= fixed_hex_text(id));
    out
}

/// A text field.
pub open spec fn text_item(name: Seq<char>, bytes: Seq<u8>, format: u8) -> WireItem {
    WireItem::Field(field(name, Payload::Str8(counted(bytes)), format))
}

/// The field that opens a group of `count` fields.
pub open spec fn group_item(name: Seq<char>, count: u8) -> WireItem {
    WireItem::Field(field(name, Payload::Struct(count), 0))
}

/// The group `PartC` opened for `count` fields.
pub open spec fn part_c_opening(count: u8) -> Seq<WireItem> {
    seq![group_item("PartC"@, count)]
}

/// The envelope of a span, `PartA` and `PartB`: the time the span ended and
/// the span's id; the kind `Span` with the parent's id, if there is a
/// parent, the span's name and the time it began. Text fields have the
/// format `text`.
pub open spec fn span_envelope(
    text: u8,
    span_name: Seq<char>,
    span_id: u64,
    parent_span_id: u64,
    start_text: Seq<char>,
    stop_text: Seq<char>,
) -> Seq<WireItem> {
    seq![
        group_item("PartA"@, 2),
        text_item("time"@, encode_utf8(stop_text), text),
        group_item("ext_dt"@, 2),
        text_item("traceId"@, encode_utf8(""@), text),
        text_item("spanId"@, fixed_hex_text(span_id), text),
        group_item("PartB"@, if parent_span_id != 0 { 4u8 } else { 3u8 }),
        text_item("_typeName"@, encode_utf8("Span"@), text),
    ] + (if parent_span_id != 0 {
        seq![text_item("parentId"@, fixed_hex_text(parent_span_id), text)]
    } else {
        Seq::empty()
    }) + seq![
        text_item("name"@, encode_utf8(span_name), text),
        text_item("startTime"@, encode_utf8(start_text), text),
    ]
}

/// The envelope of a standalone event, `PartA` and `PartB`: the time and,
/// inside a span, the span's id; the kind `Log` with the event's name and
/// time.
pub open spec fn event_envelope(
    text: u8,
    event_name: Seq<char>,
    current_span: u64,
    time_text: Seq<char>,
) -> Seq<WireItem> {
    seq![
        group_item("PartA"@, if current_span != 0 { 2u8 } else { 1u8 }),
        text_item("time"@, encode_utf8(time_text), text),
    ] + (if current_span != 0 {
        seq![
            group_item("ext_dt"@, 2),
            text_item("traceId"@, encode_utf8(""@), text),
            text_item("spanId"@, fixed_hex_text(current_span), text),
        ]
    } else {
        Seq::empty()
    }) + seq![
        group_item("PartB"@, 3),
        text_item("_typeName"@, encode_utf8("Log"@), text),
        text_item("name"@, encode_utf8(event_name), text),
        text_item("eventTime"@, encode_utf8(time_text), text),
    ]
}

/// A field named `message` with text in it is emitted under the name `Body`
/// with the same text; a field of any other name keeps its name.
pub proof fn lemma_message_becomes_body(slot: Slot)
    ensures
        slot.name == "message"@ ==> part_c_slot(slot) == (Slot {
            name: "Body"@,
            value: slot.value,
        }),
        slot.name != "message"@ ==> part_c_slot(slot) == slot,
{
}

} // verus!
