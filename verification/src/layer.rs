//! The layer between the instrumentation front-end and the encoders: the
//! configuration of a provider, the state kept for each span, and the
//! choices made for each span and event.

use crate::activities::Activities;
use crate::fields::{
    fresh_slots, names_of, record_all, slots_of, FieldAndValue, FieldTable, MAX_FIELDS,
};
use crate::native::{
    config_check, name_guid, validate_provider, Backend, ConfigError, Group, GuidWrapper,
    ProviderGroup,
};
use crate::time::Timestamp;
use vstd::prelude::*;

verus! {

/// The keyword of a provider whose events declare none.
pub const DEFAULT_KEYWORD: u64 = 1;

/// What an event declared beside its fields: its keyword and its tag, under
/// the identity of the place in the program that emits it.
#[derive(Clone, Copy, Debug, PartialEq, Eq, Structural)]
pub struct EtwEventMetadata {
    pub kw: u64,
    pub identity: usize,
    pub event_tag: u32,
}

/// How often the front-end has to ask whether a span or event is wanted.
#[derive(Clone, Copy, Debug, PartialEq, Eq, Structural)]
pub enum Interest {
    /// Never wanted: the front-end need not ask again.
    Never,
    /// The front-end has to ask each time.
    Sometimes,
    /// Always wanted: the front-end need not ask again.
    Always,
}

/// The keyword of a span or event: the one it declared, or the default.
pub open spec fn chosen_keyword(meta: Option<EtwEventMetadata>, default_keyword: u64) -> u64 {
    match meta {
        Some(m) => m.kw,
        None => default_keyword,
    }
}

/// The tag of a span or event: the one it declared, or zero.
pub open spec fn chosen_tag(meta: Option<EtwEventMetadata>) -> u32 {
    match meta {
        Some(m) => m.event_tag,
        None => 0,
    }
}

/// The answer to the front-end's question how often it has to ask. A
/// backend that is told of every change answers for good, from what the
/// provider says now; any other backend has to be asked each time.
pub open spec fn interest_for(supports_enable_callback: bool, provider_enabled: bool) -> Interest {
    if supports_enable_callback {
        if provider_enabled {
            Interest::Always
        } else {
            Interest::Never
        }
    } else {
        Interest::Sometimes
    }
}

/// The starting point of a provider's configuration.
pub struct LayerBuilder {}

/// The configuration of a provider while it is being put together.
#[derive(Debug)]
pub struct EtwLayerBuilder {
    pub provider_name: String,
    pub provider_id: GuidWrapper,
    pub provider_group: ProviderGroup,
    pub default_keyword: u64,
    pub common_schema: bool,
}

impl LayerBuilder {
    /// Begins the configuration of a provider of plain events: its
    /// identifier is the one its name hashes to, it joins no group, and its
    /// default keyword is 1.
    pub fn new(name: &str) -> (out: EtwLayerBuilder)
        ensures
            out.provider_name@ == name@,
            out.provider_id.0 == name_guid(name@),
            out.provider_group@ == Group::Unset,
            out.default_keyword == DEFAULT_KEYWORD,
            !out.common_schema,
    {
        EtwLayerBuilder {
            provider_name: name.to_owned(),
            provider_id: GuidWrapper::from_name(name),
            provider_group: ProviderGroup::Unset,
            default_keyword: DEFAULT_KEYWORD,
            common_schema: false,
        }
    }

    /// Begins the configuration of a provider whose events follow the
    /// Common Schema; everything else is as in [`LayerBuilder::new`].
    pub fn new_common_schema_events(name: &str) -> (out: EtwLayerBuilder)
        ensures
            out.provider_name@ == name@,
            out.provider_id.0 == name_guid(name@),
            out.provider_group@ == Group::Unset,
            out.default_keyword == DEFAULT_KEYWORD,
            out.common_schema,
    {
        EtwLayerBuilder {
            provider_name: name.to_owned(),
            provider_id: GuidWrapper::from_name(name),
            provider_group: ProviderGroup::Unset,
            default_keyword: DEFAULT_KEYWORD,
            common_schema: true,
        }
    }
}

/// The names that a provider listens to, as text.
pub open spec fn texts_of(names: Seq<String>) -> Seq<Seq<char>> {
    Seq::new(names.len(), |i: int| names[i]@)
}

/// The targets that a provider listens to: its own name, the name of its
/// group if the group has one, and the extra target if it is not empty.
pub open spec fn target_list(provider_name: Seq<char>, group: Group, target: Seq<char>) -> Seq<
    Seq<char>,
> {
    seq![provider_name] + (match group {
        Group::Linux(name) => seq![name],
        _ => Seq::empty(),
    }) + (if target.len() > 0 {
        seq![target]
    } else {
        Seq::empty()
    })
}

impl EtwLayerBuilder {
    /// Gives the provider an identifier in place of the one its name hashes to.
    pub fn with_provider_id(self, guid: GuidWrapper) -> (out: EtwLayerBuilder)
        ensures
            out == (EtwLayerBuilder { provider_id: guid, ..self }),
    {
        EtwLayerBuilder { provider_id: guid, ..self }
    }

    /// The identifier that the provider will have.
    pub fn get_provider_id(&self) -> (out: GuidWrapper)
        ensures
            out == self.provider_id,
    {
        self.provider_id
    }

    /// Sets the keyword of spans and events that declare none.
    pub fn with_default_keyword(self, kw: u64) -> (out: EtwLayerBuilder)
        ensures
            out == (EtwLayerBuilder { default_keyword: kw, ..self }),
    {
        EtwLayerBuilder { default_keyword: kw, ..self }
    }

    /// Sets the group that the provider joins.
    pub fn with_provider_group(self, group: ProviderGroup) -> (out: EtwLayerBuilder)
        ensures
            out == (EtwLayerBuilder { provider_group: group, ..self }),
    {
        EtwLayerBuilder { provider_group: group, ..self }
    }

    /// Checks the configuration: a provider that joins a group must have an
    /// identifier that is not all zeroes, and the name of a group must be
    /// valid.
    pub fn validate_config(&self) -> (out: Result<(), ConfigError>)
        ensures
            out == config_check(self.provider_id.0, self.provider_group@),
    {
        validate_provider(&self.provider_id, &self.provider_group)
    }

    /// Lists the targets that the provider listens to: see [`target_list`].
    pub fn build_target_filter(&self, target: &str) -> (targets: Vec<String>)
        ensures
            texts_of(targets@) == target_list(self.provider_name@, self.provider_group@, target@),
    {
        let mut targets: Vec<String> = Vec::new();
        targets.push(self.provider_name.clone());
        match &self.provider_group {
            ProviderGroup::Linux(name) => {
                targets.push(name.clone());
            },
            _ => {},
        }
        if !target.is_empty() {
            targets.push(target.to_owned());
        }
        assert(texts_of(targets@) =~= target_list(
            self.provider_name@,
            self.provider_group@,
            target@,
        ));
        targets
    }

    /// The layer of this configuration.
    pub fn build_layer(&self) -> (out: EtwLayer)
        ensures
            out.default_keyword == self.default_keyword,
    {
        EtwLayer { default_keyword: self.default_keyword }
    }

    /// The filter of this configuration for a backend.
    pub fn build_filter(&self, backend: Backend) -> (out: EtwFilter)
        ensures
            out.default_keyword == self.default_keyword,
            out.supports_enable_callback == (backend == Backend::Etw),
    {
        EtwFilter {
            default_keyword: self.default_keyword,
            supports_enable_callback: backend.supports_enable_callback(),
        }
    }
}

/// The filter that decides, by level and keyword, whether the front-end
/// needs to build a span or event at all.
#[derive(Clone, Copy, Debug)]
pub struct EtwFilter {
    pub default_keyword: u64,
    pub supports_enable_callback: bool,
}

impl EtwFilter {
    /// The keyword to ask the provider about.
    pub fn keyword(&self, meta: Option<&EtwEventMetadata>) -> (out: u64)
        ensures
            out == chosen_keyword(
                match meta {
                    Some(m) => Some(*m),
                    None => None,
                },
                self.default_keyword,
            ),
    {
        match meta {
            Some(m) => m.kw,
            None => self.default_keyword,
        }
    }

    /// How often the front-end has to ask, given what the provider says now
    /// for the level and keyword in question: see [`interest_for`].
    pub fn callsite_enabled(&self, provider_enabled: bool) -> (out: Interest)
        ensures
            out == interest_for(self.supports_enable_callback, provider_enabled),
    {
        if self.supports_enable_callback {
            if provider_enabled {
                Interest::Always
            } else {
                Interest::Never
            }
        } else {
            Interest::Sometimes
        }
    }
}

/// What the layer keeps for a span from its creation to its end.
pub struct EtwLayerData {
    pub fields: FieldTable,
    pub activity_id: [u8; 16],
    pub related_activity_id: [u8; 16],
    pub start_time: Timestamp,
}

/// The layer: it keeps the state of each span and hands spans and events
/// to an encoder.
#[derive(Clone, Copy, Debug)]
pub struct EtwLayer {
    pub default_keyword: u64,
}

impl EtwLayer {
    /// The keyword and the tag of a span or event: those it declared, or
    /// the default keyword and no tag.
    pub fn keyword_and_tag(&self, meta: Option<&EtwEventMetadata>) -> (out: (u64, u32))
        ensures
            out.0 == chosen_keyword(
                match meta {
                    Some(m) => Some(*m),
                    None => None,
                },
                self.default_keyword,
            ),
            out.1 == chosen_tag(
                match meta {
                    Some(m) => Some(*m),
                    None => None,
                },
            ),
    {
        match meta {
            Some(m) => (m.kw, m.event_tag),
            None => (self.default_keyword, 0),
        }
    }

    /// Makes the state of a new span: a field table for the declared names
    /// with the values given at creation recorded in it, the activity ids of
    /// the span and its parent, and a start time at the epoch until the span
    /// is entered.
    pub fn on_new_span(
        &self,
        seed: &[u8; 16],
        span_id: u64,
        parent_span_id: u64,
        field_names: &[&'static str],
        values: &[FieldAndValue],
    ) -> (data: EtwLayerData)
        requires
            field_names@.len() <= MAX_FIELDS,
        ensures
            data.fields.wf(),
            data.fields@ == record_all(fresh_slots(names_of(field_names@)), slots_of(values@)),
            (Activities {
                activity_id: data.activity_id,
                related_activity_id: data.related_activity_id,
            }).is_generated(seed@, span_id, parent_span_id),
            data.start_time == (Timestamp { secs: 0, nanos: 0 }),
    {
        let mut fields = FieldTable::allocate(field_names);
        fields.record(values);
        let ids = Activities::generate(seed, span_id, parent_span_id);
        EtwLayerData {
            fields,
            activity_id: ids.activity_id,
            related_activity_id: ids.related_activity_id,
            start_time: Timestamp { secs: 0, nanos: 0 },
        }
    }

    /// Records values in a span's field table, in the order given.
    pub fn on_record(&self, data: &mut EtwLayerData, values: &[FieldAndValue])
        requires
            old(data).fields.wf(),
        ensures
            final(data).fields.wf(),
            final(data).fields@ == record_all(old(data).fields@, slots_of(values@)),
            final(data).activity_id == old(data).activity_id,
            final(data).related_activity_id == old(data).related_activity_id,
            final(data).start_time == old(data).start_time,
    {
        data.fields.record(values);
    }

    /// Notes the time at which a span was entered.
    pub fn on_enter(&self, data: &mut EtwLayerData, timestamp: Timestamp)
        ensures
            final(data).start_time == timestamp,
            final(data).fields == old(data).fields,
            final(data).activity_id == old(data).activity_id,
            final(data).related_activity_id == old(data).related_activity_id,
    {
        data.start_time = timestamp;
    }

    /// The two times that the event at a span's exit reports: when the span
    /// was last entered, and now.
    pub fn on_exit(&self, data: &EtwLayerData, stop_timestamp: Timestamp) -> (out: (
        Timestamp,
        Timestamp,
    ))
        ensures
            out == (data.start_time, stop_timestamp),
    {
        (data.start_time, stop_timestamp)
    }

    /// The activity ids of a standalone event: those of the span it occurs
    /// in and of that span's parent, each absent where the id is zero.
    pub fn on_event(&self, seed: &[u8; 16], current_span: u64, parent_span: u64) -> (out:
        Activities)
        ensures
            out.is_generated(seed@, current_span, parent_span),
    {
        Activities::generate(seed, current_span, parent_span)
    }
}

} // verus!
