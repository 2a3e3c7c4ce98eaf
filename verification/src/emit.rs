//! A span or an event from the front-end to a built event: the choices of
//! the layer, the checks on what can go on the wire, and the encoder, in one
//! step. What cannot go on the wire is dropped: the builder is left as it
//! is and nothing is to be written.

use crate::activities::Activities;
use crate::common_schema::{
    event_envelope, event_messages_are_text, messages_are_text, span_envelope,
    table_messages_are_text, MAX_GROUP_FIELDS,
};
use crate::etw::{
    etw_fields, etw_head, etw_items, etw_opcode_of, system_time_of, MAX_EVENT_TAG, OUT_UTF8,
};
use crate::fields::{count_set_values, set_count, slots_of, FieldAndValue, Slot};
use crate::layer::{chosen_keyword, chosen_tag, EtwEventMetadata, EtwLayer, EtwLayerData};
use crate::level::{level_number, map_level, Level};
use crate::time::Timestamp;
use crate::user_events::{
    tracepoint_fields, tracepoint_head, tracepoint_items, tracepoint_opcode_of, FORMAT_DEFAULT,
};
use crate::wire::{
    clean_names, event_names_are_clean, is_clean_name, no_nul, table_names_are_clean,
    OPCODE_INFO, OPCODE_START, OPCODE_STOP,
};
use vstd::prelude::*;

verus! {

/// What a span or event declared, behind the reference to it.
pub open spec fn declared(meta: Option<&EtwEventMetadata>) -> Option<EtwEventMetadata> {
    match meta {
        Some(m) => Some(*m),
        None => None,
    }
}

/// An id if its first byte says that it is present.
pub open spec fn present(id: [u8; 16]) -> Option<[u8; 16]> {
    if id@[0] != 0 {
        Some(id)
    } else {
        None
    }
}

/// The ids that go with a TraceLogging event: each of the two if it is
/// present.
pub open spec fn etw_ids(activity_id: [u8; 16], related_activity_id: [u8; 16]) -> (
    Option<[u8; 16]>,
    Option<[u8; 16]>,
) {
    (present(activity_id), present(related_activity_id))
}

/// The ids that go with a tracepoint event: the activity id if it is
/// present, and only with it the related id if that is present.
pub open spec fn tracepoint_ids(activity_id: [u8; 16], related_activity_id: [u8; 16]) -> (
    Option<[u8; 16]>,
    Option<[u8; 16]>,
) {
    (
        present(activity_id),
        if activity_id@[0] != 0 {
            present(related_activity_id)
        } else {
            None
        },
    )
}

/// No ids: an event of the Common Schema carries the span's id in its
/// envelope.
pub open spec fn no_ids() -> (Option<[u8; 16]>, Option<[u8; 16]>) {
    (None, None)
}

/// Whether the name, the field names and the tag of a span or event can go
/// into a TraceLogging event.
pub open spec fn etw_fits(name: Seq<char>, fields: Seq<Slot>, event_tag: u32) -> bool {
    no_nul(name) && clean_names(fields) && event_tag <= MAX_EVENT_TAG
}

/// Whether the name and the field names of a span or event can go into a
/// tracepoint event.
pub open spec fn tracepoint_fits(name: Seq<char>, fields: Seq<Slot>) -> bool {
    no_nul(name) && clean_names(fields)
}

/// Whether the fields of a span or event can go into `PartC`: a field named
/// `message` holds text, and no more fields hold a value than a group takes.
pub open spec fn part_c_fits(fields: Seq<Slot>) -> bool {
    messages_are_text(fields) && set_count(fields) <= MAX_GROUP_FIELDS
}

fn ids_for_etw(activity_id: [u8; 16], related_activity_id: [u8; 16]) -> (out: (
    Option<[u8; 16]>,
    Option<[u8; 16]>,
))
    ensures
        out == etw_ids(activity_id, related_activity_id),
{
    let ids = Activities { activity_id, related_activity_id };
    (ids.activity(), ids.related())
}

fn ids_for_tracepoint(activity_id: [u8; 16], related_activity_id: [u8; 16]) -> (out: (
    Option<[u8; 16]>,
    Option<[u8; 16]>,
))
    ensures
        out == tracepoint_ids(activity_id, related_activity_id),
{
    let ids = Activities { activity_id, related_activity_id };
    ids.write_ids()
}

impl EtwLayer {
    /// A span was entered: notes the time in the span's state and builds
    /// the start event as a TraceLogging event, with the span's level, the
    /// keyword and tag it declared or the defaults, and its fields as they
    /// stand. Gives the ids to write the event with, or nothing, with the
    /// builder untouched, where the event cannot go on the wire.
    pub fn etw_enter(
        &self,
        eb: &mut tracelogging_dynamic::EventBuilder,
        span_name: &str,
        data: &mut EtwLayerData,
        timestamp: Timestamp,
        meta: Option<&EtwEventMetadata>,
        level: &Level,
    ) -> (ids: Option<(Option<[u8; 16]>, Option<[u8; 16]>)>)
        ensures
            final(data).start_time == timestamp,
            final(data).fields == old(data).fields,
            final(data).activity_id == old(data).activity_id,
            final(data).related_activity_id == old(data).related_activity_id,
            ids is Some <==> etw_fits(span_name@, old(data).fields@, chosen_tag(declared(meta)))
                && system_time_of(timestamp) is Some,
            ids is None ==> etw_items(*final(eb)) == etw_items(*old(eb))
                && etw_opcode_of(*final(eb)) == etw_opcode_of(*old(eb)),
            ids matches Some(with) ==> with == etw_ids(
                old(data).activity_id,
                old(data).related_activity_id,
            ),
            ids is Some ==> etw_items(*final(eb)) == etw_head(
                span_name@,
                level_number(*level),
                chosen_keyword(declared(meta), self.default_keyword),
                chosen_tag(declared(meta)),
                "start time"@,
                system_time_of(timestamp)->0,
            ) + etw_fields(old(data).fields@),
            ids is Some ==> etw_opcode_of(*final(eb)) == OPCODE_START,
    {
        let (keyword, tag) = self.keyword_and_tag(meta);
        let fits = is_clean_name(span_name)
            && table_names_are_clean(&data.fields)
            && tag <= MAX_EVENT_TAG;
        let built = fits && crate::etw::span_start(
            eb,
            span_name,
            &timestamp,
            &data.fields,
            map_level(level),
            keyword,
            tag,
        );
        self.on_enter(data, timestamp);
        if built {
            Some(ids_for_etw(data.activity_id, data.related_activity_id))
        } else {
            None
        }
    }

    /// A span was left: builds the stop event as a TraceLogging event,
    /// with the span's level, the keyword and tag it declared or the
    /// defaults, the time it was last entered and the time it was left, and
    /// its fields as they stand. Gives the ids to write the event with, or
    /// nothing, with the builder untouched, where the event cannot go on
    /// the wire.
    pub fn etw_exit(
        &self,
        eb: &mut tracelogging_dynamic::EventBuilder,
        span_name: &str,
        data: &EtwLayerData,
        stop_timestamp: Timestamp,
        meta: Option<&EtwEventMetadata>,
        level: &Level,
    ) -> (ids: Option<(Option<[u8; 16]>, Option<[u8; 16]>)>)
        ensures
            ids is Some <==> etw_fits(span_name@, data.fields@, chosen_tag(declared(meta)))
                && system_time_of(stop_timestamp) is Some,
            ids is None ==> etw_items(*final(eb)) == etw_items(*old(eb))
                && etw_opcode_of(*final(eb)) == etw_opcode_of(*old(eb)),
            ids matches Some(with) ==> with == etw_ids(
                data.activity_id,
                data.related_activity_id,
            ),
            ids is Some ==> etw_items(*final(eb)) == etw_head(
                span_name@,
                level_number(*level),
                chosen_keyword(declared(meta), self.default_keyword),
                chosen_tag(declared(meta)),
                "stop time"@,
                system_time_of(stop_timestamp)->0,
            ) + etw_fields(data.fields@),
            ids is Some ==> etw_opcode_of(*final(eb)) == OPCODE_STOP,
    {
        let (keyword, tag) = self.keyword_and_tag(meta);
        let fits = is_clean_name(span_name)
            && table_names_are_clean(&data.fields)
            && tag <= MAX_EVENT_TAG;
        let built = fits && crate::etw::span_stop(
                eb,
                span_name,
                self.on_exit(data, stop_timestamp),
                &data.fields,
                map_level(level), keyword, tag,
            );
        if built {
            Some(ids_for_etw(data.activity_id, data.related_activity_id))
        } else {
            None
        }
    }

    /// An event occurred: builds it as a TraceLogging event, with its
    /// level, the keyword and tag it declared or the defaults, and its
    /// fields in the order given. Gives the ids to write the event
    /// with, those of the span it occurred in and of that
    /// span's parent,
    /// or nothing, with the builder untouched, where the event cannot go on
    /// the wire.
    pub fn etw_event(
        &self,
        eb: &mut tracelogging_dynamic::EventBuilder,
        seed: &[u8; 16],
        timestamp: Timestamp,
        current_span: u64,
        parent_span: u64,
        event_name: &str,
        meta: Option<&EtwEventMetadata>,
        level: &Level,
        fields: &[FieldAndValue],
    ) -> (ids: Option<(Option<[u8; 16]>, Option<[u8; 16]>)>)
        ensures
            ids is Some <==> etw_fits(event_name@, slots_of(fields@), chosen_tag(declared(meta)))
                && system_time_of(timestamp) is Some,
            ids is None ==> etw_items(*final(eb)) == etw_items(*old(eb))
                && etw_opcode_of(*final(eb)) == etw_opcode_of(*old(eb)),
            ids matches Some(with) ==> exists|own: Activities|
                own.is_generated(seed@, current_span, parent_span) && with == etw_ids(
                    own.activity_id,
                    own.related_activity_id,
                ),
            ids is Some ==> etw_items(*final(eb)) == etw_head(
                event_name@,
                level_number(*level),
                chosen_keyword(declared(meta), self.default_keyword),
                chosen_tag(declared(meta)),
                "time"@,
                system_time_of(timestamp)->0,
            ) + etw_fields(slots_of(fields@)),
            ids is Some ==> etw_opcode_of(*final(eb)) == OPCODE_INFO,
    {
        let (keyword, tag) = self.keyword_and_tag(meta);
        let fits = is_clean_name(event_name)
            && event_names_are_clean(fields)
            && tag <= MAX_EVENT_TAG;
        let built = fits && crate::etw::write_record(
            eb,
            &timestamp,
            event_name,
            map_level(level),
            keyword,
            tag,
            fields,
        );
        if built {
            let own = self.on_event(seed, current_span, parent_span);
            Some(ids_for_etw(own.activity_id, own.related_activity_id))
        } else {
            None
        }
    }

    /// A span was entered: notes the time in the span's state and builds
    /// the start event as a tracepoint event, with the span's level, the
    /// keyword and tag it declared or the defaults, and its fields as they
    /// stand. Gives the ids to write the event with, or nothing, with the
    /// builder untouched, where the event cannot go on the wire.
    pub fn tracepoint_enter(
        &self,
        eb: &mut eventheader_dynamic::EventBuilder,
        span_name: &str,
        data: &mut EtwLayerData,
        timestamp: Timestamp,
        meta: Option<&EtwEventMetadata>,
    ) -> (ids: Option<(Option<[u8; 16]>, Option<[u8; 16]>)>)
        ensures
            final(data).start_time == timestamp,
            final(data).fields == old(data).fields,
            final(data).activity_id == old(data).activity_id,
            final(data).related_activity_id == old(data).related_activity_id,
            ids is Some <==> tracepoint_fits(span_name@, old(data).fields@)
                && timestamp.secs >= 0,
            ids is None ==> tracepoint_items(*final(eb)) == tracepoint_items(*old(eb))
                && tracepoint_opcode_of(*final(eb)) == tracepoint_opcode_of(*old(eb)),
            ids matches Some(with) ==> with == tracepoint_ids(
                old(data).activity_id,
                old(data).related_activity_id,
            ),
            ids is Some ==> tracepoint_items(*final(eb)) == tracepoint_head(
                span_name@,
                chosen_tag(declared(meta)),
                "start time"@,
                timestamp.secs as u64,
            ) + tracepoint_fields(old(data).fields@),
            ids is Some ==> tracepoint_opcode_of(*final(eb)) == OPCODE_START,
    {
        let (_, tag) = self.keyword_and_tag(meta);
        let fits = is_clean_name(span_name)
            && table_names_are_clean(&data.fields);
        let built = fits && crate::user_events::span_start(
            eb,
            span_name,
            &timestamp,
            &data.fields,
            tag,
        );
        self.on_enter(data, timestamp);
        if built {
            Some(ids_for_tracepoint(data.activity_id, data.related_activity_id))
        } else {
            None
        }
    }

    /// A span was left: builds the stop event as a tracepoint event,
    /// with the span's level, the keyword and tag it declared or the
    /// defaults, the time it was last entered and the time it was left, and
    /// its fields as they stand. Gives the ids to write the event with, or
    /// nothing, with the builder untouched, where the event cannot go on
    /// the wire.
    pub fn tracepoint_exit(
        &self,
        eb: &mut eventheader_dynamic::EventBuilder,
        span_name: &str,
        data: &EtwLayerData,
        stop_timestamp: Timestamp,
        meta: Option<&EtwEventMetadata>,
    ) -> (ids: Option<(Option<[u8; 16]>, Option<[u8; 16]>)>)
        ensures
            ids is Some <==> tracepoint_fits(span_name@, data.fields@)
                && stop_timestamp.secs >= 0,
            ids is None ==> tracepoint_items(*final(eb)) == tracepoint_items(*old(eb))
                && tracepoint_opcode_of(*final(eb)) == tracepoint_opcode_of(*old(eb)),
            ids matches Some(with) ==> with == tracepoint_ids(
                data.activity_id,
                data.related_activity_id,
            ),
            ids is Some ==> tracepoint_items(*final(eb)) == tracepoint_head(
                span_name@,
                chosen_tag(declared(meta)),
                "stop time"@,
                stop_timestamp.secs as u64,
            ) + tracepoint_fields(data.fields@),
            ids is Some ==> tracepoint_opcode_of(*final(eb)) == OPCODE_STOP,
    {
        let (_, tag) = self.keyword_and_tag(meta);
        let fits = is_clean_name(span_name)
            && table_names_are_clean(&data.fields);
        let built = fits && crate::user_events::span_stop(
                eb,
                span_name,
                self.on_exit(data, stop_timestamp),
                &data.fields,
                tag,
            );
        if built {
            Some(ids_for_tracepoint(data.activity_id, data.related_activity_id))
        } else {
            None
        }
    }

    /// An event occurred: builds it as a tracepoint event, with its
    /// level, the keyword and tag it declared or the defaults, and its
    /// fields in the order given. Gives the ids to write the event
    /// with, those of the span it occurred in and of that
    /// span's parent,
    /// or nothing, with the builder untouched, where the event cannot go on
    /// the wire.
    pub fn tracepoint_event(
        &self,
        eb: &mut eventheader_dynamic::EventBuilder,
        seed: &[u8; 16],
        timestamp: Timestamp,
        current_span: u64,
        parent_span: u64,
        event_name: &str,
        meta: Option<&EtwEventMetadata>,
        fields: &[FieldAndValue],
    ) -> (ids: Option<(Option<[u8; 16]>, Option<[u8; 16]>)>)
        ensures
            ids is Some <==> tracepoint_fits(event_name@, slots_of(fields@))
                && timestamp.secs >= 0,
            ids is None ==> tracepoint_items(*final(eb)) == tracepoint_items(*old(eb))
                && tracepoint_opcode_of(*final(eb)) == tracepoint_opcode_of(*old(eb)),
            ids matches Some(with) ==> exists|own: Activities|
                own.is_generated(seed@, current_span, parent_span) && with == tracepoint_ids(
                    own.activity_id,
                    own.related_activity_id,
                ),
            ids is Some ==> tracepoint_items(*final(eb)) == tracepoint_head(
                event_name@,
                chosen_tag(declared(meta)),
                "time"@,
                timestamp.secs as u64,
            ) + tracepoint_fields(slots_of(fields@)),
            ids is Some ==> tracepoint_opcode_of(*final(eb)) == OPCODE_INFO,
    {
        let (_, tag) = self.keyword_and_tag(meta);
        let fits = is_clean_name(event_name)
            && event_names_are_clean(fields);
        let built = fits && crate::user_events::write_record(
            eb,
            &timestamp,
            event_name,
            tag,
            fields,
        );
        if built {
            let own = self.on_event(seed, current_span, parent_span);
            Some(ids_for_tracepoint(own.activity_id, own.related_activity_id))
        } else {
            None
        }
    }

    /// A span was left: builds the one event of the span as a TraceLogging
    /// event of the Common Schema, with the span's level, the keyword and
    /// tag it declared or the defaults, the time it was last entered and
    /// the time it was left, and its fields as they stand. Gives the ids to
    /// write the event with, or nothing, with the builder untouched, where
    /// the event cannot go on the wire.
    pub fn etw_schema_exit(
        &self,
        eb: &mut tracelogging_dynamic::EventBuilder,
        span_name: &str,
        span_id: u64,
        parent_span_id: u64,
        data: &EtwLayerData,
        stop_timestamp: Timestamp,
        meta: Option<&EtwEventMetadata>,
        level: &Level,
    ) -> (ids: Option<(Option<[u8; 16]>, Option<[u8; 16]>)>)
        ensures
            ids is Some <==> etw_fits(span_name@, data.fields@, chosen_tag(declared(meta)))
                && part_c_fits(data.fields@)
                && crate::etw_cs::text_of(data.start_time) is Some
                && crate::etw_cs::text_of(stop_timestamp) is Some,
            ids is None ==> etw_items(*final(eb)) == etw_items(*old(eb))
                && etw_opcode_of(*final(eb)) == etw_opcode_of(*old(eb)),
            ids matches Some(with) ==> with == no_ids(),
            ids is Some ==> etw_items(*final(eb)) == crate::etw_cs::schema_head(
                span_name@,
                level_number(*level),
                chosen_keyword(declared(meta), self.default_keyword),
                chosen_tag(declared(meta)),
            ) + span_envelope(
                OUT_UTF8,
                span_name@,
                span_id,
                parent_span_id,
                crate::etw_cs::text_of(data.start_time)->0,
                crate::etw_cs::text_of(stop_timestamp)->0,
            ) + crate::etw_cs::part_c(data.fields@),
            ids is Some ==> etw_opcode_of(*final(eb)) == OPCODE_INFO,
    {
        let (keyword, tag) = self.keyword_and_tag(meta);
        let fits = is_clean_name(span_name)
            && table_names_are_clean(&data.fields)
            && tag <= MAX_EVENT_TAG
            && table_messages_are_text(&data.fields)
            && data.fields.count_set() <= MAX_GROUP_FIELDS;
        let built = fits && crate::etw_cs::span_stop(
                eb,
                span_name,
                span_id,
                parent_span_id,
                self.on_exit(data, stop_timestamp),
                &data.fields,
                map_level(level), keyword, tag,
            );
        if built {
            Some((None, None))
        } else {
            None
        }
    }

    /// An event occurred: builds it as a TraceLogging event of the Common Schema, with its
    /// level, the keyword and tag it declared or the defaults, and its
    /// fields in the order given. Gives the ids to write the event
    /// with,
    /// or nothing, with the builder untouched, where the event cannot go on
    /// the wire.
    pub fn etw_schema_event(
        &self,
        eb: &mut tracelogging_dynamic::EventBuilder,
        timestamp: Timestamp,
        current_span: u64,
        event_name: &str,
        meta: Option<&EtwEventMetadata>,
        level: &Level,
        fields: &[FieldAndValue],
    ) -> (ids: Option<(Option<[u8; 16]>, Option<[u8; 16]>)>)
        ensures
            ids is Some <==> etw_fits(event_name@, slots_of(fields@), chosen_tag(declared(meta)))
                && part_c_fits(slots_of(fields@))
                && crate::etw_cs::text_of(timestamp) is Some,
            ids is None ==> etw_items(*final(eb)) == etw_items(*old(eb))
                && etw_opcode_of(*final(eb)) == etw_opcode_of(*old(eb)),
            ids matches Some(with) ==> with == no_ids(),
            ids is Some ==> etw_items(*final(eb)) == crate::etw_cs::schema_head(
                event_name@,
                level_number(*level),
                chosen_keyword(declared(meta), self.default_keyword),
                chosen_tag(declared(meta)),
            ) + event_envelope(
                OUT_UTF8,
                event_name@,
                current_span,
                crate::etw_cs::text_of(timestamp)->0,
            ) + crate::etw_cs::part_c(slots_of(fields@)),
            ids is Some ==> etw_opcode_of(*final(eb)) == OPCODE_INFO,
    {
        let (keyword, tag) = self.keyword_and_tag(meta);
        let fits = is_clean_name(event_name)
            && event_names_are_clean(fields)
            && tag <= MAX_EVENT_TAG
            && event_messages_are_text(fields)
            && count_set_values(fields) <= MAX_GROUP_FIELDS;
        let built = fits && crate::etw_cs::write_record(
                eb,
                &timestamp,
                current_span,
                event_name,
                map_level(level), keyword, tag,
                fields,
            );
        if built {
            Some((None, None))
        } else {
            None
        }
    }

    /// A span was left: builds the one event of the span as a tracepoint
    /// event of the Common Schema, with the span's level, the keyword and
    /// tag it declared or the defaults, the time it was last entered and
    /// the time it was left, and its fields as they stand. Gives the ids to
    /// write the event with, or nothing, with the builder untouched, where
    /// the event cannot go on the wire.
    pub fn tracepoint_schema_exit(
        &self,
        eb: &mut eventheader_dynamic::EventBuilder,
        span_name: &str,
        span_id: u64,
        parent_span_id: u64,
        data: &EtwLayerData,
        stop_timestamp: Timestamp,
        meta: Option<&EtwEventMetadata>,
    ) -> (ids: Option<(Option<[u8; 16]>, Option<[u8; 16]>)>)
        ensures
            ids is Some <==> tracepoint_fits(span_name@, data.fields@)
                && part_c_fits(data.fields@)
                && crate::user_events_cs::text_of(data.start_time) is Some
                && crate::user_events_cs::text_of(stop_timestamp) is Some,
            ids is None ==> tracepoint_items(*final(eb)) == tracepoint_items(*old(eb))
                && tracepoint_opcode_of(*final(eb)) == tracepoint_opcode_of(*old(eb)),
            ids matches Some(with) ==> with == no_ids(),
            ids is Some ==> tracepoint_items(*final(eb)) == crate::user_events_cs::schema_head(
                span_name@,
                chosen_tag(declared(meta)),
            ) + span_envelope(
                FORMAT_DEFAULT,
                span_name@,
                span_id,
                parent_span_id,
                crate::user_events_cs::text_of(data.start_time)->0,
                crate::user_events_cs::text_of(stop_timestamp)->0,
            ) + crate::user_events_cs::part_c(data.fields@),
            ids is Some ==> tracepoint_opcode_of(*final(eb)) == OPCODE_INFO,
    {
        let (_, tag) = self.keyword_and_tag(meta);
        let fits = is_clean_name(span_name)
            && table_names_are_clean(&data.fields)
            && table_messages_are_text(&data.fields)
            && data.fields.count_set() <= MAX_GROUP_FIELDS;
        let built = fits && crate::user_events_cs::span_stop(
                eb,
                span_name,
                span_id,
                parent_span_id,
                self.on_exit(data, stop_timestamp),
                &data.fields,
                tag,
            );
        if built {
            Some((None, None))
        } else {
            None
        }
    }

    /// An event occurred: builds it as a tracepoint event of the Common Schema, with its
    /// level, the keyword and tag it declared or the defaults, and its
    /// fields in the order given. Gives the ids to write the event
    /// with,
    /// or nothing, with the builder untouched, where the event cannot go on
    /// the wire.
    pub fn tracepoint_schema_event(
        &self,
        eb: &mut eventheader_dynamic::EventBuilder,
        timestamp: Timestamp,
        current_span: u64,
        event_name: &str,
        meta: Option<&EtwEventMetadata>,
        fields: &[FieldAndValue],
    ) -> (ids: Option<(Option<[u8; 16]>, Option<[u8; 16]>)>)
        ensures
            ids is Some <==> tracepoint_fits(event_name@, slots_of(fields@))
                && part_c_fits(slots_of(fields@))
                && crate::user_events_cs::text_of(timestamp) is Some,
            ids is None ==> tracepoint_items(*final(eb)) == tracepoint_items(*old(eb))
                && tracepoint_opcode_of(*final(eb)) == tracepoint_opcode_of(*old(eb)),
            ids matches Some(with) ==> with == no_ids(),
            ids is Some ==> tracepoint_items(*final(eb)) == crate::user_events_cs::schema_head(
                event_name@,
                chosen_tag(declared(meta)),
            ) + event_envelope(
                FORMAT_DEFAULT,
                event_name@,
                current_span,
                crate::user_events_cs::text_of(timestamp)->0,
            ) + crate::user_events_cs::part_c(slots_of(fields@)),
            ids is Some ==> tracepoint_opcode_of(*final(eb)) == OPCODE_INFO,
    {
        let (_, tag) = self.keyword_and_tag(meta);
        let fits = is_clean_name(event_name)
            && event_names_are_clean(fields)
            && event_messages_are_text(fields)
            && count_set_values(fields) <= MAX_GROUP_FIELDS;
        let built = fits && crate::user_events_cs::write_record(
                eb,
                &timestamp,
                current_span,
                event_name,
                tag,
                fields,
            );
        if built {
            Some((None, None))
        } else {
            None
        }
    }
}

} // verus!
