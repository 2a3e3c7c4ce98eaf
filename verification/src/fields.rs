//! The field table of a span: one slot per declared field, in declaration
//! order, with an index sorted by name for lookup.

use crate::names::{
    compare_names, lemma_bytes_lt_transitive, lemma_name_order_total, name_lt, NameOrder,
};
use crate::values::{Value, ValueTypes};
use vstd::prelude::*;
use vstd::utf8::encode_utf8;

verus! {

/// The most fields that one span can declare.
pub const MAX_FIELDS: usize = 32;

/// One field as mathematics: its name and its value.
pub struct Slot {
    pub name: Seq<char>,
    pub value: Value,
}

/// One slot of a field table. `sort_index` belongs to the table's index, not
/// to this field: the slot at position `p` holds the number of the slot whose
/// name is `p`-th in name order.
#[derive(Debug)]
pub struct FieldValueIndex {
    pub field: &'static str,
    pub value: ValueTypes,
    pub sort_index: u8,
}

impl Default for FieldValueIndex {
    fn default() -> (out: FieldValueIndex)
        ensures
            out.field@ == Seq::<char>::empty(),
            out.value@ == Value::Unset,
            out.sort_index == 0,
    {
        let field: &'static str = "";
        proof {
            reveal_strlit("");
        }
        assert(field@ =~= Seq::<char>::empty());
        FieldValueIndex { field, value: ValueTypes::Unset, sort_index: 0 }
    }
}

/// A field and its value, as an event hands them over.
#[derive(Debug)]
pub struct FieldAndValue {
    pub field_name: &'static str,
    pub value: ValueTypes,
}

impl View for FieldAndValue {
    type V = Slot;

    open spec fn view(&self) -> Slot {
        Slot { name: self.field_name@, value: self.value@ }
    }
}

/// The fields of an event as mathematics, in the order given.
pub open spec fn slots_of(fields: Seq<FieldAndValue>) -> Seq<Slot> {
    Seq::new(fields.len(), |i: int| fields[i]@)
}

/// The slots of a freshly allocated table: the names in order, no value set.
pub open spec fn fresh_slots(names: Seq<Seq<char>>) -> Seq<Slot> {
    Seq::new(names.len(), |i: int| Slot { name: names[i], value: Value::Unset })
}

/// The names of the slots, in order.
pub open spec fn slot_names(slots: Seq<Slot>) -> Seq<Seq<char>> {
    Seq::new(slots.len(), |i: int| slots[i].name)
}

/// The names of a sequence of string slices.
pub open spec fn names_of(names: Seq<&'static str>) -> Seq<Seq<char>> {
    Seq::new(names.len(), |i: int| names[i]@)
}

/// Whether some slot has the name.
pub open spec fn has_name(slots: Seq<Slot>, name: Seq<char>) -> bool {
    exists|i: int| 0 <= i < slots.len() && (#[trigger] slots[i]).name == name
}

/// Whether no two slots share a name.
pub open spec fn distinct_names(slots: Seq<Slot>) -> bool {
    forall|i: int, j: int|
        0 <= i < j < slots.len() ==> (#[trigger] slots[i]).name != (#[trigger] slots[j]).name
}

/// The position of the first slot with the name from `from` on, or the
/// number of slots if there is none.
pub open spec fn first_index(slots: Seq<Slot>, name: Seq<char>, from: int) -> int
    decreases slots.len() - from,
{
    if from < 0 || from >= slots.len() {
        slots.len() as int
    } else if slots[from].name == name {
        from
    } else {
        first_index(slots, name, from + 1)
    }
}

/// The slots after the field `name` was given `value`: the first slot of that
/// name holds the value, and nothing changes if no slot has the name.
pub open spec fn set_value(slots: Seq<Slot>, name: Seq<char>, value: Value) -> Seq<Slot> {
    let i = first_index(slots, name, 0);
    if 0 <= i < slots.len() {
        slots.update(i, Slot { name, value })
    } else {
        slots
    }
}

/// The number of slots that hold a value.
pub open spec fn set_count(slots: Seq<Slot>) -> nat
    decreases slots.len(),
{
    if slots.len() == 0 {
        0
    } else {
        set_count(slots.drop_last()) + if slots.last().value != Value::Unset {
            1nat
        } else {
            0nat
        }
    }
}

/// No more slots hold a value than there are slots.
pub proof fn lemma_set_count_bound(slots: Seq<Slot>)
    ensures
        set_count(slots) <= slots.len(),
    decreases slots.len(),
{
    if slots.len() > 0 {
        lemma_set_count_bound(slots.drop_last());
    }
}

/// Counts the fields of an event that hold a value.
pub fn count_set_values(fields: &[FieldAndValue]) -> (count: usize)
    ensures
        count == set_count(slots_of(fields@)),
{
    let n = fields.len();
    let ghost slots = slots_of(fields@);
    let mut count: usize = 0;
    let mut i: usize = 0;
    assert(slots.take(0) =~= Seq::<Slot>::empty());
    while i < n
        invariant
            n == fields@.len(),
            slots == slots_of(fields@),
            i <= n,
            count == set_count(slots.take(i as int)),
            count <= i,
        decreases n - i,
    {
        proof {
            assert(slots.take(i as int + 1).drop_last() =~= slots.take(i as int));
            assert(slots.take(i as int + 1).last() == slots[i as int]);
        }
        if !fields[i].value.is_none() {
            count = count + 1;
        }
        i = i + 1;
    }
    assert(slots.take(n as int) =~= slots);
    count
}

/// The slots after a series of values was recorded, one after the other.
pub open spec fn record_all(slots: Seq<Slot>, values: Seq<Slot>) -> Seq<Slot>
    decreases values.len(),
{
    if values.len() == 0 {
        slots
    } else {
        set_value(record_all(slots, values.drop_last()), values.last().name, values.last().value)
    }
}

/// `first_index` finds a slot with the name exactly when there is one.
pub proof fn lemma_first_index(slots: Seq<Slot>, name: Seq<char>, from: int)
    requires
        0 <= from,
    ensures
        from <= first_index(slots, name, from) || slots.len() < from,
        first_index(slots, name, from) <= slots.len(),
        first_index(slots, name, from) < slots.len() ==> slots[first_index(
            slots,
            name,
            from,
        )].name == name,
        forall|i: int|
            from <= i < first_index(slots, name, from) ==> (#[trigger] slots[i]).name != name,
    decreases slots.len() - from,
{
    if from < slots.len() && slots[from].name != name {
        lemma_first_index(slots, name, from + 1);
    }
}

/// With distinct names the slot that holds a name is the first that does.
pub proof fn lemma_first_index_unique(slots: Seq<Slot>, name: Seq<char>, i: int)
    requires
        distinct_names(slots),
        0 <= i < slots.len(),
        slots[i].name == name,
    ensures
        first_index(slots, name, 0) == i,
{
    lemma_first_index(slots, name, 0);
    let f = first_index(slots, name, 0);
    if f < i {
        assert(slots[f].name != slots[i].name);
    }
}

/// Recording values changes values only: the number of slots and the name
/// of every slot stay as they were allocated.
pub proof fn lemma_names_are_kept(slots: Seq<Slot>, values: Seq<Slot>)
    ensures
        record_all(slots, values).len() == slots.len(),
        forall|i: int|
            0 <= i < slots.len() ==> (#[trigger] record_all(slots, values)[i]).name
                == slots[i].name,
    decreases values.len(),
{
    if values.len() > 0 {
        let before = record_all(slots, values.drop_last());
        lemma_names_are_kept(slots, values.drop_last());
        lemma_first_index(before, values.last().name, 0);
    }
}

/// Recording a value under a name that no slot has changes no slot.
pub proof fn lemma_unknown_name_is_noop(slots: Seq<Slot>, name: Seq<char>, value: Value)
    requires
        !has_name(slots, name),
    ensures
        set_value(slots, name, value) == slots,
{
    lemma_first_index(slots, name, 0);
    let f = first_index(slots, name, 0);
    if f < slots.len() {
        assert(slots[f].name == name);
    }
}

/// The slots after the first `count` updates of a series: the `k`-th update
/// records `values[order[k]]` under `names[order[k]]`.
pub open spec fn after_updates(
    slots: Seq<Slot>,
    names: Seq<Seq<char>>,
    values: Seq<Value>,
    order: Seq<int>,
    count: nat,
) -> Seq<Slot>
    decreases count,
{
    if count == 0 {
        slots
    } else {
        let i = order[count - 1];
        set_value(
            after_updates(slots, names, values, order, (count - 1) as nat),
            names[i],
            values[i],
        )
    }
}

/// Whether the series of updates `order` reaches the slot `i`.
pub open spec fn occurs(order: Seq<int>, i: int) -> bool {
    exists|k: int| 0 <= k < order.len() && order[k] == i
}

/// The slots that hold `values[i]` under `names[i]`.
pub open spec fn filled_slots(names: Seq<Seq<char>>, values: Seq<Value>) -> Seq<Slot> {
    Seq::new(names.len(), |i: int| Slot { name: names[i], value: values[i] })
}

proof fn lemma_after_updates(
    names: Seq<Seq<char>>,
    values: Seq<Value>,
    order: Seq<int>,
    count: nat,
)
    requires
        forall|i: int, j: int| 0 <= i < j < names.len() ==> names[i] != names[j],
        values.len() == names.len(),
        count <= order.len(),
        forall|k: int| 0 <= k < order.len() ==> 0 <= #[trigger] order[k] < names.len(),
    ensures
        after_updates(fresh_slots(names), names, values, order, count).len() == names.len(),
        forall|i: int|
            0 <= i < names.len() ==> (#[trigger] after_updates(
                fresh_slots(names),
                names,
                values,
                order,
                count,
            )[i]) == (Slot {
                name: names[i],
                value: if exists|k: int| 0 <= k < count && order[k] == i {
                    values[i]
                } else {
                    Value::Unset
                },
            }),
    decreases count,
{
    if count > 0 {
        let before = after_updates(fresh_slots(names), names, values, order, (count - 1) as nat);
        let after = after_updates(fresh_slots(names), names, values, order, count);
        let j = order[count - 1];
        lemma_after_updates(names, values, order, (count - 1) as nat);
        assert(distinct_names(before)) by {
            assert forall|a: int, b: int|
                0 <= a < b < before.len() implies (#[trigger] before[a]).name != (
            #[trigger] before[b]).name by {
                assert(before[a].name == names[a]);
                assert(before[b].name == names[b]);
            }
        }
        assert(before[j].name == names[j]);
        lemma_first_index_unique(before, names[j], j);
        assert(after == before.update(j, Slot { name: names[j], value: values[j] }));
        assert forall|i: int| 0 <= i < names.len() implies (#[trigger] after[i]) == (Slot {
            name: names[i],
            value: if exists|k: int| 0 <= k < count && order[k] == i {
                values[i]
            } else {
                Value::Unset
            },
        }) by {
            if i == j {
                assert(0 <= count - 1 < count && order[count - 1] == i);
            } else {
                assert(after[i] == before[i]);
                if exists|k: int| 0 <= k < count - 1 && order[k] == i {
                    let k = choose|k: int| 0 <= k < count - 1 && order[k] == i;
                    assert(0 <= k < count && order[k] == i);
                }
                if exists|k: int| 0 <= k < count && order[k] == i {
                    let k = choose|k: int| 0 <= k < count && order[k] == i;
                    assert(k != count - 1);
                    assert(0 <= k < count - 1 && order[k] == i);
                }
            }
        }
    }
}

/// A table allocated for names without duplicates, in which every name was
/// then given its value, holds exactly those values in declaration order,
/// whatever the order of the updates was.
pub proof fn lemma_round_trip(names: Seq<Seq<char>>, values: Seq<Value>, order: Seq<int>)
    requires
        forall|i: int, j: int| 0 <= i < j < names.len() ==> names[i] != names[j],
        values.len() == names.len(),
        forall|k: int| 0 <= k < order.len() ==> 0 <= #[trigger] order[k] < names.len(),
        forall|i: int| 0 <= i < names.len() ==> #[trigger] occurs(order, i),
    ensures
        after_updates(fresh_slots(names), names, values, order, order.len()) == filled_slots(
            names,
            values,
        ),
{
    lemma_after_updates(names, values, order, order.len());
    let end = after_updates(fresh_slots(names), names, values, order, order.len());
    assert forall|i: int| 0 <= i < names.len() implies end[i] == filled_slots(names, values)[i] by {
        assert(occurs(order, i));
    }
    assert(end =~= filled_slots(names, values));
}

/// The name that is `p`-th in the order `order`.
pub open spec fn key_at(names: Seq<Seq<char>>, order: Seq<u8>, p: int) -> Seq<char> {
    names[order[p] as int]
}

/// Whether `order` lists numbers below its length and misses none of them.
pub open spec fn is_index(order: Seq<u8>) -> bool {
    &&& forall|p: int| 0 <= p < order.len() ==> (#[trigger] order[p]) < order.len()
    &&& forall|v: int|
        0 <= v < order.len() ==> 0 <= #[trigger] position_of(order, v) < order.len()
            && order[position_of(order, v)] == v
}

/// A position at which `order` holds `v`.
pub open spec fn position_of(order: Seq<u8>, v: int) -> int {
    choose|p: int| 0 <= p < order.len() && order[p] == v
}

/// Whether the slot `a` comes before the slot `b`: by name, and among slots
/// of one name by their place in the declaration.
pub open spec fn slot_lt(names: Seq<Seq<char>>, a: int, b: int) -> bool {
    name_lt(names[a], names[b]) || (names[a] == names[b] && a < b)
}

/// Whether the slots, taken in the order `order`, go strictly up.
pub open spec fn sorted_by_name(names: Seq<Seq<char>>, order: Seq<u8>) -> bool {
    forall|p: int, q: int|
        0 <= p < q < order.len() ==> slot_lt(
            names,
            (#[trigger] order[p]) as int,
            (#[trigger] order[q]) as int,
        )
}

proof fn lemma_slot_lt_transitive(names: Seq<Seq<char>>, a: int, b: int, c: int)
    requires
        slot_lt(names, a, b),
        slot_lt(names, b, c),
    ensures
        slot_lt(names, a, c),
{
    if name_lt(names[a], names[b]) && name_lt(names[b], names[c]) {
        lemma_bytes_lt_transitive(
            encode_utf8(names[a]),
            encode_utf8(names[b]),
            encode_utf8(names[c]),
        );
    }
}

/// In a sorted index, a name left of one that comes before `name` comes
/// before `name` too.
proof fn lemma_left_of_smaller(
    names: Seq<Seq<char>>,
    order: Seq<u8>,
    p: int,
    q: int,
    name: Seq<char>,
)
    requires
        sorted_by_name(names, order),
        0 <= p <= q < order.len(),
        name_lt(key_at(names, order, q), name),
    ensures
        name_lt(key_at(names, order, p), name),
{
    if p < q {
        assert(slot_lt(names, order[p] as int, order[q] as int));
        if key_at(names, order, p) != key_at(names, order, q) {
            lemma_bytes_lt_transitive(
                encode_utf8(key_at(names, order, p)),
                encode_utf8(key_at(names, order, q)),
                encode_utf8(name),
            );
        }
    }
}

/// In a sorted index, a name right of one that does not come before `name`
/// does not come before `name` either.
proof fn lemma_right_of_not_smaller(
    names: Seq<Seq<char>>,
    order: Seq<u8>,
    p: int,
    q: int,
    name: Seq<char>,
)
    requires
        sorted_by_name(names, order),
        0 <= p <= q < order.len(),
        !name_lt(key_at(names, order, p), name),
    ensures
        !name_lt(key_at(names, order, q), name),
{
    if p < q && name_lt(key_at(names, order, q), name) {
        assert(slot_lt(names, order[p] as int, order[q] as int));
        if key_at(names, order, p) != key_at(names, order, q) {
            lemma_bytes_lt_transitive(
                encode_utf8(key_at(names, order, p)),
                encode_utf8(key_at(names, order, q)),
                encode_utf8(name),
            );
        }
    }
}

/// Sorts the numbers of the names by name. Names that are equal keep the
/// order in which they were declared.
pub fn sort_order(names: &[&'static str]) -> (order: Vec<u8>)
    requires
        names@.len() <= MAX_FIELDS,
    ensures
        order@.len() == names@.len(),
        is_index(order@),
        sorted_by_name(names_of(names@), order@),
{
    let n = names.len();
    let ghost keys = names_of(names@);
    let mut order: Vec<u8> = Vec::new();
    let ghost mut place: Seq<int> = Seq::empty();
    let mut i: usize = 0;
    while i < n
        invariant
            n == names@.len(),
            n <= MAX_FIELDS,
            keys == names_of(names@),
            i <= n,
            order@.len() == i,
            place.len() == i,
            forall|p: int| 0 <= p < i ==> (#[trigger] order@[p]) < i,
            forall|v: int| 0 <= v < i ==> 0 <= #[trigger] place[v] < i && order@[place[v]] == v,
            sorted_by_name(keys, order@),
        decreases n - i,
    {
        order.push(i as u8);
        proof {
            place = place.push(i as int);
        }
        let mut j: usize = i;
        let mut moving = true;
        while j > 0 && moving
            invariant
                n == names@.len(),
                n <= MAX_FIELDS,
                keys == names_of(names@),
                i < n,
                j <= i,
                order@.len() == i + 1,
                place.len() == i + 1,
                order@[j as int] == i,
                forall|p: int| 0 <= p <= i && p != j ==> (#[trigger] order@[p]) < i,
                forall|v: int|
                    0 <= v <= i ==> 0 <= #[trigger] place[v] <= i && order@[place[v]] == v,
                forall|p: int, q: int|
                    0 <= p < q <= i && p != j && q != j ==> slot_lt(
                        keys,
                        (#[trigger] order@[p]) as int,
                        (#[trigger] order@[q]) as int,
                    ),
                forall|q: int|
                    j < q <= i ==> slot_lt(keys, i as int, (#[trigger] order@[q]) as int),
                !moving ==> j > 0 && !name_lt(keys[i as int], keys[order@[j - 1] as int]),
            decreases 2 * j + (if moving { 1int } else { 0int }),
        {
            let left = order[j - 1];
            match compare_names(names[i], names[left as usize]) {
                NameOrder::Before => {
                    order.set(j, left);
                    order.set(j - 1, i as u8);
                    proof {
                        place = place.update(i as int, j - 1).update(left as int, j as int);
                    }
                    j = j - 1;
                },
                _ => {
                    moving = false;
                },
            }
        }
        proof {
            assert forall|p: int, q: int| 0 <= p < q <= i implies slot_lt(
                keys,
                (#[trigger] order@[p]) as int,
                (#[trigger] order@[q]) as int,
            ) by {
                if q == j {
                    let left = order@[j - 1] as int;
                    lemma_name_order_total(keys[i as int], keys[left]);
                    assert(slot_lt(keys, left, i as int));
                    if p < j - 1 {
                        assert(slot_lt(keys, order@[p] as int, left));
                        lemma_slot_lt_transitive(keys, order@[p] as int, left, i as int);
                    }
                }
            }
        }
        i = i + 1;
    }
    proof {
        assert forall|v: int| 0 <= v < order@.len() implies 0 <= #[trigger] position_of(order@, v)
            < order@.len() && order@[position_of(order@, v)] == v by {
            assert(0 <= place[v] < order@.len() && order@[place[v]] == v);
        }
    }
    order
}

/// The field table of one span.
pub struct FieldTable {
    slots: Vec<FieldValueIndex>,
}

impl View for FieldTable {
    type V = Seq<Slot>;

    closed spec fn view(&self) -> Seq<Slot> {
        Seq::new(
            self.slots@.len(),
            |i: int| Slot { name: self.slots@[i].field@, value: self.slots@[i].value@ },
        )
    }
}

impl FieldTable {
    /// The sorted index that the slots carry: at position `p` the number of
    /// the slot whose name is `p`-th in name order.
    pub closed spec fn index(&self) -> Seq<u8> {
        Seq::new(self.slots@.len(), |i: int| self.slots@[i].sort_index)
    }

    /// The sorted index under the name used inside this file.
    closed spec fn order(&self) -> Seq<u8> {
        self.index()
    }

    /// The names of the slots, in declaration order.
    closed spec fn keys(&self) -> Seq<Seq<char>> {
        Seq::new(self.slots@.len(), |i: int| self.slots@[i].field@)
    }

    /// Whether the sorted index of the table is sound: it has one entry for
    /// each slot, lists every slot once, in the order of the names, and the
    /// table holds no more than [`MAX_FIELDS`] slots.
    pub open spec fn wf(&self) -> bool {
        &&& self@.len() <= MAX_FIELDS
        &&& self.index().len() == self@.len()
        &&& is_index(self.index())
        &&& sorted_by_name(slot_names(self@), self.index())
    }

    /// The view and the index are read off the same slots.
    proof fn lemma_keys(&self)
        ensures
            self.keys() == slot_names(self@),
            self.index().len() == self@.len(),
            self@.len() == self.slots@.len(),
    {
        assert(self.keys() =~= slot_names(self@));
    }

    /// The entry of the sorted index at position `p`.
    pub fn sort_index(&self, p: usize) -> (out: u8)
        requires
            p < self@.len(),
        ensures
            out == self.index()[p as int],
    {
        self.slots[p].sort_index
    }

    /// Counts the slots that hold a value.
    pub fn count_set(&self) -> (count: usize)
        ensures
            count == set_count(self@),
            count <= self@.len(),
    {
        let n = self.slots.len();
        let mut count: usize = 0;
        let mut i: usize = 0;
        assert(self@.take(0) =~= Seq::<Slot>::empty());
        while i < n
            invariant
                n == self.slots@.len(),
                n == self@.len(),
                i <= n,
                count == set_count(self@.take(i as int)),
                count <= i,
            decreases n - i,
        {
            proof {
                assert(self@.take(i as int + 1).drop_last() =~= self@.take(i as int));
                assert(self@.take(i as int + 1).last() == self@[i as int]);
            }
            if !self.slots[i].value.is_none() {
                count = count + 1;
            }
            i = i + 1;
        }
        assert(self@.take(n as int) =~= self@);
        count
    }

    /// Allocates the table of a span that declares the given fields: one slot
    /// for each name, in the order given, none with a value.
    pub fn allocate(names: &[&'static str]) -> (table: FieldTable)
        requires
            names@.len() <= MAX_FIELDS,
        ensures
            table.wf(),
            table@ == fresh_slots(names_of(names@)),
            table.index().len() == names@.len(),
            is_index(table.index()),
            sorted_by_name(names_of(names@), table.index()),
    {
        let order = sort_order(names);
        let n = names.len();
        let mut slots: Vec<FieldValueIndex> = Vec::new();
        let mut i: usize = 0;
        while i < n
            invariant
                n == names@.len(),
                order@.len() == n,
                i <= n,
                slots@.len() == i,
                forall|k: int|
                    0 <= k < i ==> (#[trigger] slots@[k]).field == names@[k] && slots@[k].value@
                        == Value::Unset && slots@[k].sort_index == order@[k],
            decreases n - i,
        {
            slots.push(
                FieldValueIndex { field: names[i], value: ValueTypes::Unset, sort_index: order[i] },
            );
            i = i + 1;
        }
        let table = FieldTable { slots };
        proof {
            table.lemma_keys();
            assert(table.index() =~= order@);
            assert(table.keys() =~= names_of(names@));
            assert(table@ =~= fresh_slots(names_of(names@)));
        }
        table
    }

    /// The number of fields that the span declared.
    pub fn len(&self) -> (n: usize)
        ensures
            n == self@.len(),
    {
        self.slots.len()
    }

    /// The name of the `i`-th declared field.
    pub fn name(&self, i: usize) -> (name: &'static str)
        requires
            i < self@.len(),
        ensures
            name@ == self@[i as int].name,
    {
        self.slots[i].field
    }

    /// The value of the `i`-th declared field.
    pub fn value(&self, i: usize) -> (value: &ValueTypes)
        requires
            i < self@.len(),
        ensures
            value@ == self@[i as int].value,
    {
        &self.slots[i].value
    }

    /// Finds the first declared slot of a name with a binary search of the
    /// sorted index.
    pub fn find(&self, name: &str) -> (hit: Option<usize>)
        requires
            self.wf(),
        ensures
            hit is Some <==> has_name(self@, name@),
            hit is Some <==> first_index(self@, name@, 0) < self@.len(),
            hit matches Some(i) ==> i == first_index(self@, name@, 0) && self@[i as int].name
                == name@,
    {
        let ghost keys = self.keys();
        let ghost order = self.order();
        proof {
            self.lemma_keys();
        }
        let n = self.slots.len();
        let mut lo: usize = 0;
        let mut hi: usize = n;
        // The names left of `lo` come before `name`; those from `hi` on do not.
        while lo < hi
            invariant
                n == self.slots@.len(),
                keys == self.keys(),
                order == self.order(),
                is_index(order),
                sorted_by_name(keys, order),
                lo <= hi <= n,
                forall|p: int| 0 <= p < lo ==> name_lt(#[trigger] key_at(keys, order, p), name@),
                forall|p: int| hi <= p < n ==> !name_lt(#[trigger] key_at(keys, order, p), name@),
            decreases hi - lo,
        {
            let mid = lo + (hi - lo) / 2;
            assert(order[mid as int] < n);
            let at = self.slots[mid].sort_index as usize;
            match compare_names(self.slots[at].field, name) {
                NameOrder::Before => {
                    proof {
                        assert forall|p: int| 0 <= p <= mid implies name_lt(
                            #[trigger] key_at(keys, order, p),
                            name@,
                        ) by {
                            lemma_left_of_smaller(keys, order, p, mid as int, name@);
                        }
                    }
                    lo = mid + 1;
                },
                _ => {
                    proof {
                        lemma_name_order_total(key_at(keys, order, mid as int), name@);
                        assert forall|p: int| mid <= p < n implies !name_lt(
                            #[trigger] key_at(keys, order, p),
                            name@,
                        ) by {
                            lemma_right_of_not_smaller(keys, order, mid as int, p, name@);
                        }
                    }
                    hi = mid;
                },
            }
        }
        proof {
            lemma_first_index(self@, name@, 0);
            lemma_name_order_total(name@, name@);
        }
        if lo < n {
            assert(order[lo as int] < n);
            let at = self.slots[lo].sort_index as usize;
            match compare_names(self.slots[at].field, name) {
                NameOrder::Same => {
                    proof {
                        // A slot of this name that was declared earlier would
                        // stand left of `lo` in the index, where no name is equal.
                        let first = first_index(self@, name@, 0);
                        assert(self@[at as int].name == name@);
                        if first != at {
                            let p = position_of(order, first);
                            assert(key_at(keys, order, p) == self@[first].name);
                            assert(slot_lt(keys, order[lo as int] as int, order[p] as int));
                        }
                    }
                    return Some(at);
                },
                _ => {},
            }
        }
        proof {
            // Every slot stands somewhere in the index: left of `lo` its name
            // comes before `name`, from `lo` on it comes after.
            assert forall|i: int| 0 <= i < self@.len() implies (#[trigger] self@[i]).name
                != name@ by {
                let p = position_of(order, i);
                assert(key_at(keys, order, p) == self@[i].name);
                if p > lo {
                    lemma_name_order_total(key_at(keys, order, lo as int), name@);
                    assert(slot_lt(keys, order[lo as int] as int, order[p] as int));
                }
            }
            let first = first_index(self@, name@, 0);
            if first < self@.len() {
                assert(self@[first].name == name@);
            }
        }
        None
    }

    /// The value of the field `name`, if the span declared it: that of the
    /// first declared slot of that name.
    pub fn get(&self, name: &str) -> (value: Option<&ValueTypes>)
        requires
            self.wf(),
        ensures
            value is Some <==> has_name(self@, name@),
            value matches Some(v) ==> v@ == self@[first_index(self@, name@, 0)].value,
    {
        match self.find(name) {
            Some(i) => {
                assert(self@[i as int].value == self.slots@[i as int].value@);
                Some(&self.slots[i].value)
            },
            None => None,
        }
    }

    /// Records a series of values, one after the other: see [`record_all`].
    pub fn record(&mut self, values: &[FieldAndValue])
        requires
            old(self).wf(),
        ensures
            final(self).wf(),
            final(self).index() == old(self).index(),
            final(self)@ == record_all(old(self)@, slots_of(values@)),
    {
        let n = values.len();
        let ghost given = slots_of(values@);
        let mut i: usize = 0;
        assert(given.take(0) =~= Seq::<Slot>::empty());
        while i < n
            invariant
                n == values@.len(),
                given == slots_of(values@),
                i <= n,
                self.wf(),
                self.index() == old(self).index(),
                self@ == record_all(old(self)@, given.take(i as int)),
            decreases n - i,
        {
            self.update(values[i].field_name, values[i].value.clone());
            proof {
                assert(given.take(i as int + 1).drop_last() =~= given.take(i as int));
                assert(given.take(i as int + 1).last() == given[i as int]);
            }
            i = i + 1;
        }
        assert(given.take(n as int) =~= given);
    }

    /// Records a value for the field `name`, in the first declared slot of
    /// that name. A name that the span did not declare changes nothing.
    /// Returns whether the span declared the name.
    pub fn update(&mut self, name: &str, value: ValueTypes) -> (found: bool)
        requires
            old(self).wf(),
        ensures
            final(self).wf(),
            final(self).index() == old(self).index(),
            found == has_name(old(self)@, name@),
            final(self)@ == set_value(old(self)@, name@, value@),
            !found ==> final(self)@ == old(self)@,
    {
        proof {
            self.lemma_keys();
        }
        match self.find(name) {
            Some(i) => {
                let ghost view_before = self@;
                let ghost order = self.order();
                let ghost keys = self.keys();
                self.slots[i].value = value;
                proof {
                    self.lemma_keys();
                    assert(self.index() =~= order);
                    assert(self.keys() =~= keys);
                    assert(self@ =~= view_before.update(
                        i as int,
                        Slot { name: name@, value: value@ },
                    ));
                }
                true
            },
            None => false,
        }
    }
}

} // verus!
