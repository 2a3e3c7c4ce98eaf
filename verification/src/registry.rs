//! The registry of providers: one entry for each name, made when the name
//! is first asked for and kept from then on.

use crate::names::{compare_names, lemma_name_order_total, NameOrder};
use crate::native::{Group, GuidWrapper, ProviderGroup};
use vstd::prelude::*;

verus! {

/// A provider as mathematics: its name, its identifier and its group.
pub struct Registration {
    pub name: Seq<char>,
    pub id: u128,
    pub group: Group,
}

/// What the registry keeps of a provider.
#[derive(Debug)]
pub struct ProviderEntry {
    pub name: String,
    pub id: GuidWrapper,
    pub group: ProviderGroup,
}

impl View for ProviderEntry {
    type V = Registration;

    open spec fn view(&self) -> Registration {
        Registration { name: self.name@, id: self.id.0, group: self.group@ }
    }
}

/// The place of a name among the registrations, or their number if the name
/// has none.
pub open spec fn handle_of(entries: Seq<Registration>, name: Seq<char>, from: int) -> int
    decreases entries.len() - from,
{
    if from < 0 || from >= entries.len() {
        entries.len() as int
    } else if entries[from].name == name {
        from
    } else {
        handle_of(entries, name, from + 1)
    }
}

/// Whether a name has a registration.
pub open spec fn is_registered(entries: Seq<Registration>, name: Seq<char>) -> bool {
    0 <= handle_of(entries, name, 0) < entries.len()
}

/// Whether no two registrations share a name.
pub open spec fn one_per_name(entries: Seq<Registration>) -> bool {
    forall|i: int, j: int|
        0 <= i < j < entries.len() ==> (#[trigger] entries[i]).name != (#[trigger] entries[j]).name
}

/// The registrations after a name was asked for: unchanged if the name has
/// one, else with a new one at the end, made from the fallbacks.
pub open spec fn after_request(
    entries: Seq<Registration>,
    name: Seq<char>,
    fallback_id: u128,
    fallback_group: Group,
) -> Seq<Registration> {
    if is_registered(entries, name) {
        entries
    } else {
        entries.push(Registration { name, id: fallback_id, group: fallback_group })
    }
}

/// `handle_of` finds the registration of a name exactly when there is one.
pub proof fn lemma_handle_of(entries: Seq<Registration>, name: Seq<char>, from: int)
    requires
        0 <= from,
    ensures
        from <= handle_of(entries, name, from) || entries.len() < from,
        handle_of(entries, name, from) <= entries.len(),
        handle_of(entries, name, from) < entries.len() ==> entries[handle_of(
            entries,
            name,
            from,
        )].name == name,
        forall|i: int|
            from <= i < handle_of(entries, name, from) ==> (#[trigger] entries[i]).name != name,
    decreases entries.len() - from,
{
    if from < entries.len() && entries[from].name != name {
        lemma_handle_of(entries, name, from + 1);
    }
}

/// Asking for a name leaves it registered under the handle that was given,
/// keeps every earlier handle, and keeps the names distinct; asking again
/// gives the same handle and registers nothing.
pub proof fn lemma_single_creation(
    entries: Seq<Registration>,
    name: Seq<char>,
    fallback_id: u128,
    fallback_group: Group,
    other_id: u128,
    other_group: Group,
)
    requires
        one_per_name(entries),
    ensures
        one_per_name(after_request(entries, name, fallback_id, fallback_group)),
        is_registered(after_request(entries, name, fallback_id, fallback_group), name),
        after_request(
            after_request(entries, name, fallback_id, fallback_group),
            name,
            other_id,
            other_group,
        ) == after_request(entries, name, fallback_id, fallback_group),
        handle_of(after_request(entries, name, fallback_id, fallback_group), name, 0) == handle_of(
            entries,
            name,
            0,
        ),
        forall|i: int|
            0 <= i < entries.len() ==> after_request(entries, name, fallback_id, fallback_group)[i]
                == entries[i],
{
    let after = after_request(entries, name, fallback_id, fallback_group);
    lemma_handle_of(entries, name, 0);
    lemma_handle_of(after, name, 0);
    if !is_registered(entries, name) {
        assert(after[entries.len() as int].name == name);
        assert forall|i: int, j: int| 0 <= i < j < after.len() implies (#[trigger] after[i]).name
            != (#[trigger] after[j]).name by {
            if j == entries.len() {
                assert(entries[i].name != name);
            } else {
                assert(entries[i].name != entries[j].name);
            }
        }
        let h = handle_of(after, name, 0);
        if h < entries.len() {
            assert(entries[h].name == name);
        }
    }
}

/// The registry of providers.
pub struct ProviderRegistry {
    entries: Vec<ProviderEntry>,
}

impl View for ProviderRegistry {
    type V = Seq<Registration>;

    closed spec fn view(&self) -> Seq<Registration> {
        Seq::new(self.entries@.len(), |i: int| self.entries@[i]@)
    }
}

impl ProviderRegistry {
    /// Whether the registry is sound: no two entries share a name.
    pub closed spec fn wf(&self) -> bool {
        one_per_name(self@)
    }

    /// An empty registry.
    pub fn new() -> (out: ProviderRegistry)
        ensures
            out.wf(),
            out@ == Seq::<Registration>::empty(),
    {
        let out = ProviderRegistry { entries: Vec::new() };
        assert(out@ =~= Seq::<Registration>::empty());
        out
    }

    /// The number of providers registered.
    pub fn len(&self) -> (n: usize)
        ensures
            n == self@.len(),
    {
        self.entries.len()
    }

    /// The entry under a handle.
    pub fn entry(&self, handle: usize) -> (out: &ProviderEntry)
        requires
            handle < self@.len(),
        ensures
            out@ == self@[handle as int],
    {
        &self.entries[handle]
    }

    /// The handle of a name, if the name is registered.
    pub fn find(&self, name: &str) -> (hit: Option<usize>)
        ensures
            hit is Some <==> is_registered(self@, name@),
            hit matches Some(h) ==> h == handle_of(self@, name@, 0),
    {
        let n = self.entries.len();
        let mut i: usize = 0;
        while i < n
            invariant
                n == self.entries@.len(),
                i <= n,
                handle_of(self@, name@, 0) == handle_of(self@, name@, i as int),
            decreases n - i,
        {
            proof {
                lemma_name_order_total(self.entries@[i as int].name@, name@);
            }
            match compare_names(self.entries[i].name.as_str(), name) {
                NameOrder::Same => {
                    return Some(i);
                },
                _ => {},
            }
            i = i + 1;
        }
        None
    }

    /// Gives the handle of the provider of a name, registering the provider
    /// first, with the fallback identifier and group, if the name is new.
    /// Returns the handle and whether the provider was registered by this
    /// call: only then is there anything to register with the system.
    pub fn get_or_create(
        &mut self,
        name: &str,
        fallback_id: GuidWrapper,
        fallback_group: ProviderGroup,
    ) -> (out: (usize, bool))
        requires
            old(self).wf(),
            old(self)@.len() < usize::MAX,
        ensures
            final(self).wf(),
            final(self)@ == after_request(old(self)@, name@, fallback_id.0, fallback_group@),
            out.0 == handle_of(final(self)@, name@, 0),
            out.0 < final(self)@.len(),
            out.1 == !is_registered(old(self)@, name@),
    {
        proof {
            lemma_single_creation(
                self@,
                name@,
                fallback_id.0,
                fallback_group@,
                fallback_id.0,
                fallback_group@,
            );
        }
        match self.find(name) {
            Some(handle) => (handle, false),
            None => {
                let handle = self.entries.len();
                let ghost before = self@;
                self.entries.push(
                    ProviderEntry { name: name.to_owned(), id: fallback_id, group: fallback_group },
                );
                assert(self@ =~= before.push(
                    Registration { name: name@, id: fallback_id.0, group: fallback_group@ },
                ));
                (handle, true)
            },
        }
    }
}

} // verus!
