//! The closed set of values that a field can carry.

use vstd::prelude::*;

verus! {

/// What a field value is, as mathematics: the variant and its payload, with
/// text as a sequence of characters and a float as its 64 bits.
pub enum Value {
    Unset,
    U64(u64),
    I64(i64),
    U128(u128),
    I128(i128),
    F64(u64),
    Bool(bool),
    Str(Seq<char>),
    Char(char),
}

/// A field value. `Unset` is the state of a field that was declared and never
/// recorded; it is never written to the wire. A float is held as its IEEE 754
/// bit pattern.
#[allow(non_camel_case_types)]
#[derive(Debug)]
pub enum ValueTypes {
    Unset,
    v_u64(u64),
    v_i64(i64),
    v_u128(u128),
    v_i128(i128),
    v_f64(u64),
    v_bool(bool),
    v_str(String),
    v_char(char),
}

impl View for ValueTypes {
    type V = Value;

    open spec fn view(&self) -> Value {
        match self {
            ValueTypes::Unset => Value::Unset,
            ValueTypes::v_u64(u) => Value::U64(*u),
            ValueTypes::v_i64(i) => Value::I64(*i),
            ValueTypes::v_u128(u) => Value::U128(*u),
            ValueTypes::v_i128(i) => Value::I128(*i),
            ValueTypes::v_f64(bits) => Value::F64(*bits),
            ValueTypes::v_bool(b) => Value::Bool(*b),
            ValueTypes::v_str(s) => Value::Str(s@),
            ValueTypes::v_char(c) => Value::Char(*c),
        }
    }
}

impl Default for ValueTypes {
    fn default() -> (out: ValueTypes)
        ensures
            out@ == Value::Unset,
    {
        ValueTypes::Unset
    }
}

impl Clone for ValueTypes {
    fn clone(&self) -> (out: ValueTypes)
        ensures
            out@ == self@,
    {
        match self {
            ValueTypes::Unset => ValueTypes::Unset,
            ValueTypes::v_u64(u) => ValueTypes::v_u64(*u),
            ValueTypes::v_i64(i) => ValueTypes::v_i64(*i),
            ValueTypes::v_u128(u) => ValueTypes::v_u128(*u),
            ValueTypes::v_i128(i) => ValueTypes::v_i128(*i),
            ValueTypes::v_f64(bits) => ValueTypes::v_f64(*bits),
            ValueTypes::v_bool(b) => ValueTypes::v_bool(*b),
            ValueTypes::v_str(s) => ValueTypes::v_str(s.clone()),
            ValueTypes::v_char(c) => ValueTypes::v_char(*c),
        }
    }
}

impl From<u64> for ValueTypes {
    fn from(value: u64) -> (out: ValueTypes) {
        ValueTypes::v_u64(value)
    }
}

impl vstd::std_specs::convert::FromSpecImpl<u64> for ValueTypes {
    open spec fn obeys_from_spec() -> bool {
        true
    }

    open spec fn from_spec(value: u64) -> ValueTypes {
        ValueTypes::v_u64(value)
    }
}

impl From<i64> for ValueTypes {
    fn from(value: i64) -> (out: ValueTypes) {
        ValueTypes::v_i64(value)
    }
}

impl vstd::std_specs::convert::FromSpecImpl<i64> for ValueTypes {
    open spec fn obeys_from_spec() -> bool {
        true
    }

    open spec fn from_spec(value: i64) -> ValueTypes {
        ValueTypes::v_i64(value)
    }
}

impl From<u128> for ValueTypes {
    fn from(value: u128) -> (out: ValueTypes) {
        ValueTypes::v_u128(value)
    }
}

impl vstd::std_specs::convert::FromSpecImpl<u128> for ValueTypes {
    open spec fn obeys_from_spec() -> bool {
        true
    }

    open spec fn from_spec(value: u128) -> ValueTypes {
        ValueTypes::v_u128(value)
    }
}

impl From<i128> for ValueTypes {
    fn from(value: i128) -> (out: ValueTypes) {
        ValueTypes::v_i128(value)
    }
}

impl vstd::std_specs::convert::FromSpecImpl<i128> for ValueTypes {
    open spec fn obeys_from_spec() -> bool {
        true
    }

    open spec fn from_spec(value: i128) -> ValueTypes {
        ValueTypes::v_i128(value)
    }
}

impl From<bool> for ValueTypes {
    fn from(value: bool) -> (out: ValueTypes) {
        ValueTypes::v_bool(value)
    }
}

impl vstd::std_specs::convert::FromSpecImpl<bool> for ValueTypes {
    open spec fn obeys_from_spec() -> bool {
        true
    }

    open spec fn from_spec(value: bool) -> ValueTypes {
        ValueTypes::v_bool(value)
    }
}

impl From<String> for ValueTypes {
    fn from(value: String) -> (out: ValueTypes) {
        ValueTypes::v_str(value)
    }
}

impl vstd::std_specs::convert::FromSpecImpl<String> for ValueTypes {
    open spec fn obeys_from_spec() -> bool {
        true
    }

    open spec fn from_spec(value: String) -> ValueTypes {
        ValueTypes::v_str(value)
    }
}

impl From<char> for ValueTypes {
    fn from(value: char) -> (out: ValueTypes) {
        ValueTypes::v_char(value)
    }
}

impl vstd::std_specs::convert::FromSpecImpl<char> for ValueTypes {
    open spec fn obeys_from_spec() -> bool {
        true
    }

    open spec fn from_spec(value: char) -> ValueTypes {
        ValueTypes::v_char(value)
    }
}

impl ValueTypes {
    /// The value of a float field, given as the float's bit pattern.
    pub fn from_f64_bits(bits: u64) -> (out: ValueTypes)
        ensures
            out@ == Value::F64(bits),
    {
        ValueTypes::v_f64(bits)
    }

    /// The value of a text field, copied from a string slice.
    pub fn from_text(text: &str) -> (out: ValueTypes)
        ensures
            out@ == Value::Str(text@),
    {
        ValueTypes::v_str(text.to_owned())
    }

    /// Whether the field was never recorded.
    pub fn is_none(&self) -> (out: bool)
        ensures
            out == (self@ == Value::Unset),
    {
        match self {
            ValueTypes::Unset => true,
            _ => false,
        }
    }
}

} // verus!
