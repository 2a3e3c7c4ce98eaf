//! What an event builder holds, as mathematics: the record of what was put
//! into it since it was last reset.

use crate::fields::{set_count, slots_of, FieldAndValue, FieldTable, Slot};
use crate::values::Value;
use vstd::prelude::*;

verus! {

/// The data of one field. A TraceLogging field has a type of its own; a
/// tracepoint field has only a width, and its format says how to read it.
pub enum Payload {
    /// TraceLogging: one byte.
    U8(u8),
    /// TraceLogging: a 16-bit unsigned number.
    U16(u16),
    /// TraceLogging: a 64-bit unsigned number.
    U64(u64),
    /// TraceLogging: a 64-bit signed number.
    I64(i64),
    /// TraceLogging: a 64-bit float, as its bits.
    F64(u64),
    /// TraceLogging: a boolean held in 32 bits.
    Bool32(i32),
    /// TraceLogging: a counted array of 64-bit unsigned numbers.
    U64Sequence(Seq<u64>),
    /// TraceLogging: a date and time as eight 16-bit numbers.
    SystemTime(Seq<u16>),
    /// Tracepoint: a value of 8 bits.
    Value8(u8),
    /// Tracepoint: a value of 32 bits.
    Value32(u32),
    /// Tracepoint: a value of 64 bits.
    Value64(u64),
    /// Tracepoint: a value of 128 bits, as its sixteen bytes.
    Value128(Seq<u8>),
    /// A counted string of 8-bit units.
    Str8(Seq<u8>),
    /// A group of the fields that follow; the number says how many.
    Struct(u8),
}

/// One field of an event: its name, its data, how a decoder is to show the
/// data, and its tag.
pub struct WireField {
    pub name: Seq<char>,
    pub payload: Payload,
    pub format: u8,
    pub tag: u32,
}

/// One step in building an event: the reset that begins it, or a field. The
/// opcode of the event is kept beside the steps, not among them.
pub enum WireItem {
    /// The builder was reset for a new event.
    Begin { name: Seq<char>, level: u8, keyword: u64, tag: u32 },
    /// The builder was reset for a new tracepoint event, whose level and
    /// keyword are those of the event set it is later written to.
    BeginTracepoint { name: Seq<char>, tag16: u16 },
    /// A field was added.
    Field(WireField),
}

/// Opcode of an event that stands alone.
pub const OPCODE_INFO: u8 = 0;

/// Opcode of the event that starts an activity.
pub const OPCODE_START: u8 = 1;

/// Opcode of the event that ends an activity.
pub const OPCODE_STOP: u8 = 2;

/// Whether the text is free of NUL characters, as names on the wire must be.
pub open spec fn no_nul(text: Seq<char>) -> bool {
    forall|i: int| 0 <= i < text.len() ==> text[i] != '\0'
}

/// Checks that a text is free of NUL characters.
pub fn is_clean_name(text: &str) -> (out: bool)
    ensures
        out == no_nul(text@),
{
    let mut clean = true;
    for c in it: text.chars()
        invariant
            it.seq() == text@,
            clean == (forall|j: int| 0 <= j < it.index() ==> text@[j] != '\0'),
    {
        if c == '\0' {
            clean = false;
        }
    }
    clean
}

/// Whether every name among the slots is free of NUL characters.
pub open spec fn clean_names(slots: Seq<Slot>) -> bool {
    forall|i: int| 0 <= i < slots.len() ==> no_nul((#[trigger] slots[i]).name)
}

/// Checks that every field name of a span is free of NUL characters.
pub fn table_names_are_clean(fields: &FieldTable) -> (out: bool)
    ensures
        out == clean_names(fields@),
{
    let n = fields.len();
    let mut i: usize = 0;
    while i < n
        invariant
            n == fields@.len(),
            i <= n,
            forall|j: int| 0 <= j < i ==> no_nul((#[trigger] fields@[j]).name),
        decreases n - i,
    {
        if !is_clean_name(fields.name(i)) {
            return false;
        }
        i = i + 1;
    }
    true
}

/// Checks that every field name of an event is free of NUL characters.
pub fn event_names_are_clean(fields: &[FieldAndValue]) -> (out: bool)
    ensures
        out == clean_names(slots_of(fields@)),
{
    let n = fields.len();
    let mut i: usize = 0;
    while i < n
        invariant
            n == fields@.len(),
            i <= n,
            forall|j: int| 0 <= j < i ==> no_nul((#[trigger] slots_of(fields@)[j]).name),
        decreases n - i,
    {
        if !is_clean_name(fields[i].field_name) {
            assert(!no_nul(slots_of(fields@)[i as int].name));
            return false;
        }
        i = i + 1;
    }
    true
}

/// The item that one field gives: none where there is no field.
pub open spec fn optional_item(field: Option<WireField>) -> Seq<WireItem> {
    match field {
        Some(f) => seq![WireItem::Field(f)],
        None => Seq::empty(),
    }
}

/// The items that a sequence of slots gives when each slot is encoded by
/// `encode`: the fields in slot order, with nothing for a slot that `encode`
/// leaves out.
pub open spec fn encode_all(slots: Seq<Slot>, encode: spec_fn(Slot) -> Option<WireField>) -> Seq<
    WireItem,
>
    decreases slots.len(),
{
    if slots.len() == 0 {
        Seq::empty()
    } else {
        encode_all(slots.drop_last(), encode) + optional_item(encode(slots.last()))
    }
}

/// Encoding one more slot appends that slot's item.
pub proof fn lemma_encode_all_step(
    slots: Seq<Slot>,
    encode: spec_fn(Slot) -> Option<WireField>,
    i: int,
)
    requires
        0 <= i < slots.len(),
    ensures
        encode_all(slots.take(i + 1), encode) == encode_all(slots.take(i), encode) + optional_item(
            encode(slots[i]),
        ),
{
    assert(slots.take(i + 1).drop_last() =~= slots.take(i));
    assert(slots.take(i + 1).last() == slots[i]);
}

/// The longest string that a counted field can hold, in 8-bit units.
pub const MAX_COUNTED: usize = 65535;

/// What a counted field keeps of a string: all of it, or its first
/// [`MAX_COUNTED`] units if it is longer.
pub open spec fn counted(units: Seq<u8>) -> Seq<u8> {
    if units.len() > MAX_COUNTED {
        units.take(MAX_COUNTED as int)
    } else {
        units
    }
}

/// Where every slot gives a field, the fields come out one for each slot,
/// in the order of the slots.
pub proof fn lemma_encode_all_in_order(
    slots: Seq<Slot>,
    encode: spec_fn(Slot) -> Option<WireField>,
)
    requires
        forall|i: int| 0 <= i < slots.len() ==> encode(#[trigger] slots[i]) is Some,
    ensures
        encode_all(slots, encode) == Seq::new(
            slots.len(),
            |i: int| WireItem::Field(encode(slots[i])->0),
        ),
    decreases slots.len(),
{
    if slots.len() > 0 {
        let front = slots.drop_last();
        assert forall|i: int| 0 <= i < front.len() implies encode(#[trigger] front[i]) is Some by {
            assert(front[i] == slots[i]);
        }
        lemma_encode_all_in_order(front, encode);
        assert(encode(slots[slots.len() - 1]) is Some);
    }
    assert(encode_all(slots, encode) =~= Seq::new(
        slots.len(),
        |i: int| WireItem::Field(encode(slots[i])->0),
    ));
}

/// Where no slot gives a field, nothing comes out.
pub proof fn lemma_encode_all_of_nothing(
    slots: Seq<Slot>,
    encode: spec_fn(Slot) -> Option<WireField>,
)
    requires
        forall|i: int| 0 <= i < slots.len() ==> encode(#[trigger] slots[i]) is None,
    ensures
        encode_all(slots, encode) == Seq::<WireItem>::empty(),
    decreases slots.len(),
{
    if slots.len() > 0 {
        let front = slots.drop_last();
        assert forall|i: int| 0 <= i < front.len() implies encode(#[trigger] front[i]) is None by {
            assert(front[i] == slots[i]);
        }
        lemma_encode_all_of_nothing(front, encode);
        assert(encode(slots[slots.len() - 1]) is None);
    }
    assert(encode_all(slots, encode) =~= Seq::<WireItem>::empty());
}

/// Where exactly the slots that hold a value give a field, the number of
/// fields that come out is the number of slots that hold a value.
pub proof fn lemma_encode_all_count(slots: Seq<Slot>, encode: spec_fn(Slot) -> Option<WireField>)
    requires
        forall|slot: Slot| #[trigger] encode(slot) is Some <==> slot.value != Value::Unset,
    ensures
        encode_all(slots, encode).len() == set_count(slots),
    decreases slots.len(),
{
    if slots.len() > 0 {
        lemma_encode_all_count(slots.drop_last(), encode);
    }
}

/// The two's-complement reading of a signed 64-bit number.
pub open spec fn unsigned_bits64(value: i64) -> u64 {
    if value >= 0 {
        value as u64
    } else {
        (value + 0x1_0000_0000_0000_0000) as u64
    }
}

/// Reads a signed 64-bit number as the unsigned number with the same bits.
pub fn i64_bits(value: i64) -> (out: u64)
    ensures
        out == unsigned_bits64(value),
{
    if value >= 0 {
        value as u64
    } else {
        let above: i64 = (value + i64::MAX) + 1;
        (above as u64) + 0x8000_0000_0000_0000u64
    }
}

/// A field with the default tag.
pub open spec fn field(name: Seq<char>, payload: Payload, format: u8) -> WireField {
    WireField { name, payload, format, tag: 0 }
}

/// The two's-complement reading of a signed 128-bit number.
pub open spec fn unsigned_bits(value: i128) -> u128 {
    if value >= 0 {
        value as u128
    } else {
        (value + 0x1_0000_0000_0000_0000_0000_0000_0000_0000) as u128
    }
}

/// Reads a signed 128-bit number as the unsigned number with the same bits.
pub fn i128_bits(value: i128) -> (out: u128)
    ensures
        out == unsigned_bits(value),
{
    if value >= 0 {
        value as u128
    } else {
        let above: i128 = (value + i128::MAX) + 1;
        (above as u128) + 0x8000_0000_0000_0000_0000_0000_0000_0000u128
    }
}

/// The low byte of a character's code.
pub open spec fn low_byte(c: char) -> u8 {
    (c as u32 % 256) as u8
}

/// Cuts a character down to the low byte of its code.
pub fn char_low_byte(c: char) -> (out: u8)
    ensures
        out == low_byte(c),
{
    ((c as u32) % 256) as u8
}

} // verus!
