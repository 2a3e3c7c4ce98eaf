//! What the encoders share about providers: identifiers, groups, the
//! checks on a configuration, and what each backend can do.

use crate::level::{LEVEL_ERROR, LEVEL_INFORMATIONAL, LEVEL_VERBOSE, LEVEL_WARNING};
use vstd::prelude::*;

verus! {

/// A provider or group identifier: a GUID as one 128-bit number.
#[derive(Clone, Copy, Debug, PartialEq, Eq, Structural)]
pub struct GuidWrapper(pub u128);

/// The identifier that a provider name hashes to.
pub uninterp spec fn name_guid(name: Seq<char>) -> u128;

/// `Guid::from_name` of tracelogging, read through `to_bytes_be`: the
/// identifier that the name hashes to, its first byte in the highest place.
/// It depends on the name alone.
#[verifier::external_body]
fn guid_from_name(name: &str) -> (id: u128)
    ensures
        id == name_guid(name@),
{
    u128::from_be_bytes(tracelogging::Guid::from_name(name).to_bytes_be())
}

impl GuidWrapper {
    /// The identifier with the given number.
    pub fn from_u128(value: u128) -> (out: GuidWrapper)
        ensures
            out.0 == value,
    {
        GuidWrapper(value)
    }

    /// The identifier as a number.
    pub fn to_u128(&self) -> (out: u128)
        ensures
            out == self.0,
    {
        self.0
    }

    /// The identifier that a provider name hashes to.
    pub fn from_name(name: &str) -> (out: GuidWrapper)
        ensures
            out.0 == name_guid(name@),
    {
        GuidWrapper(guid_from_name(name))
    }

    /// The identifier of all zeroes.
    pub fn zero() -> (out: GuidWrapper)
        ensures
            out.0 == 0,
    {
        GuidWrapper(0)
    }

    /// Whether this is the identifier of all zeroes.
    pub fn is_zero(&self) -> (out: bool)
        ensures
            out == (self.0 == 0),
    {
        self.0 == 0
    }
}

/// A provider group as mathematics.
pub enum Group {
    Unset,
    Windows(u128),
    Linux(Seq<char>),
}

/// The group that a provider joins: none, one named by an identifier, or
/// one named by a word.
#[derive(Debug)]
pub enum ProviderGroup {
    Unset,
    Windows(GuidWrapper),
    Linux(String),
}

impl View for ProviderGroup {
    type V = Group;

    open spec fn view(&self) -> Group {
        match self {
            ProviderGroup::Unset => Group::Unset,
            ProviderGroup::Windows(id) => Group::Windows(id.0),
            ProviderGroup::Linux(name) => Group::Linux(name@),
        }
    }
}

impl Clone for ProviderGroup {
    fn clone(&self) -> (out: ProviderGroup)
        ensures
            out@ == self@,
    {
        match self {
            ProviderGroup::Unset => ProviderGroup::Unset,
            ProviderGroup::Windows(id) => ProviderGroup::Windows(*id),
            ProviderGroup::Linux(name) => ProviderGroup::Linux(name.clone()),
        }
    }
}

/// Whether a character may stand in a group name: a digit or a lower-case
/// ASCII letter.
pub open spec fn is_option_char(c: char) -> bool {
    (48 <= c as u32 <= 57) || (97 <= c as u32 <= 122)
}

/// Whether a word can name a group: it holds nothing but digits and
/// lower-case ASCII letters.
pub open spec fn valid_option_value(value: Seq<char>) -> bool {
    forall|i: int| 0 <= i < value.len() ==> is_option_char(#[trigger] value[i])
}

/// `ProviderOptions::is_valid_option_value` of eventheader_dynamic: whether
/// the word holds nothing but ASCII digits and lower-case ASCII letters.
#[verifier::external_body]
fn is_valid_option_value(value: &str) -> (out: bool)
    ensures
        out == valid_option_value(value@),
{
    eventheader_dynamic::ProviderOptions::is_valid_option_value(value)
}

/// Why a configuration is refused.
#[derive(Clone, Copy, Debug, PartialEq, Eq, Structural)]
pub enum ConfigError {
    /// The provider joins a group and its identifier is all zeroes.
    ZeroProviderId,
    /// The group name holds something other than digits and lower-case
    /// ASCII letters.
    InvalidGroupName,
}

/// What the check of a provider's identifier and group gives. A provider
/// that joins no group passes. One that joins a group must have an
/// identifier that is not all zeroes, and a group that is named by a word
/// must have a valid name; the identifier is looked at first.
pub open spec fn config_check(provider_id: u128, group: Group) -> Result<(), ConfigError> {
    match group {
        Group::Unset => Ok(()),
        Group::Windows(_) => if provider_id == 0 {
            Err(ConfigError::ZeroProviderId)
        } else {
            Ok(())
        },
        Group::Linux(name) => if provider_id == 0 {
            Err(ConfigError::ZeroProviderId)
        } else if valid_option_value(name) {
            Ok(())
        } else {
            Err(ConfigError::InvalidGroupName)
        },
    }
}

/// Checks a provider's identifier and group: see [`config_check`].
pub fn validate_provider(provider_id: &GuidWrapper, group: &ProviderGroup) -> (out: Result<
    (),
    ConfigError,
>)
    ensures
        out == config_check(provider_id.0, group@),
{
    match group {
        ProviderGroup::Unset => Ok(()),
        ProviderGroup::Windows(_) => {
            if provider_id.is_zero() {
                Err(ConfigError::ZeroProviderId)
            } else {
                Ok(())
            }
        },
        ProviderGroup::Linux(name) => {
            if provider_id.is_zero() {
                Err(ConfigError::ZeroProviderId)
            } else if is_valid_option_value(name.as_str()) {
                Ok(())
            } else {
                Err(ConfigError::InvalidGroupName)
            }
        },
    }
}

/// The backend that receives the events.
#[derive(Clone, Copy, Debug, PartialEq, Eq, Structural)]
pub enum Backend {
    /// TraceLogging events: the controller tells the provider when sessions
    /// come and go.
    Etw,
    /// EventHeader tracepoint events: the state of each event set has to be
    /// read when it is needed.
    UserEvents,
    /// No tracing system: every event is dropped.
    Noop,
}

impl Backend {
    /// Whether the backend is told of every change of enablement, so that
    /// an answer it gave stays good until it is told otherwise.
    pub fn supports_enable_callback(&self) -> (out: bool)
        ensures
            out == (*self == Backend::Etw),
    {
        match self {
            Backend::Etw => true,
            _ => false,
        }
    }
}

/// Whether events of a level and keyword are wanted by the tracepoint
/// backend, given what the lookup of the event set found: nothing, or the
/// set's state at this moment.
pub fn tracepoint_enabled(set_state: Option<bool>) -> (out: bool)
    ensures
        out == (set_state == Some(true)),
{
    match set_state {
        Some(state) => state,
        None => false,
    }
}

/// The event sets of one keyword: one for each level, most severe first.
pub open spec fn level_sets(keyword: u64) -> Seq<(u8, u64)> {
    seq![(2u8, keyword), (3u8, keyword), (4u8, keyword), (5u8, keyword), (6u8, keyword)]
}

/// The event sets that a tracepoint provider registers when it is made:
/// those of every keyword that an event declared, then those of the default
/// keyword.
pub open spec fn planned_sets(keywords: Seq<u64>, default_keyword: u64) -> Seq<(u8, u64)>
    decreases keywords.len(),
{
    if keywords.len() == 0 {
        level_sets(default_keyword)
    } else {
        level_sets(keywords[0]) + planned_sets(keywords.drop_first(), default_keyword)
    }
}

fn push_level_sets(sets: &mut Vec<(u8, u64)>, keyword: u64)
    ensures
        final(sets)@ == old(sets)@ + level_sets(keyword),
{
    sets.push((LEVEL_ERROR, keyword));
    sets.push((LEVEL_WARNING, keyword));
    sets.push((LEVEL_INFORMATIONAL, keyword));
    sets.push((LEVEL_VERBOSE, keyword));
    sets.push((LEVEL_VERBOSE + 1, keyword));
    assert(sets@ =~= old(sets)@ + level_sets(keyword));
}

/// The sets of the keywords from `from` on, then those of the default.
pub open spec fn planned_from(keywords: Seq<u64>, default_keyword: u64, from: int) -> Seq<
    (u8, u64),
>
    decreases keywords.len() - from,
{
    if from < 0 || from >= keywords.len() {
        level_sets(default_keyword)
    } else {
        level_sets(keywords[from]) + planned_from(keywords, default_keyword, from + 1)
    }
}

proof fn lemma_planned_from(keywords: Seq<u64>, default_keyword: u64, from: int)
    requires
        0 <= from <= keywords.len(),
    ensures
        planned_from(keywords, default_keyword, from) == planned_sets(
            keywords.skip(from),
            default_keyword,
        ),
    decreases keywords.len() - from,
{
    if from < keywords.len() {
        lemma_planned_from(keywords, default_keyword, from + 1);
        assert(keywords.skip(from).drop_first() =~= keywords.skip(from + 1));
    }
}

/// Lists the event sets to register for a new tracepoint provider: see
/// [`planned_sets`].
pub fn event_sets_to_register(keywords: &[u64], default_keyword: u64) -> (sets: Vec<(u8, u64)>)
    ensures
        sets@ == planned_sets(keywords@, default_keyword),
{
    let mut sets: Vec<(u8, u64)> = Vec::new();
    let n = keywords.len();
    let mut i: usize = 0;
    proof {
        lemma_planned_from(keywords@, default_keyword, 0);
        assert(keywords@.skip(0) =~= keywords@);
    }
    while i < n
        invariant
            n == keywords@.len(),
            i <= n,
            sets@ + planned_from(keywords@, default_keyword, i as int) == planned_sets(
                keywords@,
                default_keyword,
            ),
        decreases n - i,
    {
        let ghost before = sets@;
        push_level_sets(&mut sets, keywords[i]);
        proof {
            assert(sets@ + planned_from(keywords@, default_keyword, i + 1) =~= before
                + planned_from(keywords@, default_keyword, i as int));
        }
        i = i + 1;
    }
    push_level_sets(&mut sets, default_keyword);
    sets
}

} // verus!
