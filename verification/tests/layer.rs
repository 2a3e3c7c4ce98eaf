use tracing_etw::activities::seed_from_nanos;
use tracing_etw::fields::FieldAndValue;
use tracing_etw::layer::{Interest, DEFAULT_KEYWORD};
use tracing_etw::level::Level;
use tracing_etw::native::{Backend, ConfigError};
use tracing_etw::time::Timestamp;
use tracing_etw::values::ValueTypes;
use tracing_etw::{map_level, EtwEventMetadata, GuidWrapper, LayerBuilder, ProviderGroup};

#[test]
fn levels_map_to_wire_numbers() {
    assert_eq!(map_level(&Level::Error), 2);
    assert_eq!(map_level(&Level::Warn), 3);
    assert_eq!(map_level(&Level::Info), 4);
    assert_eq!(map_level(&Level::Debug), 5);
    assert_eq!(map_level(&Level::Trace), 6);
    assert_eq!(map_level(&Level::Error), tracelogging::Level::Error.as_int());
    assert_eq!(map_level(&Level::Warn), tracelogging::Level::Warning.as_int());
    assert_eq!(map_level(&Level::Info), tracelogging::Level::Informational.as_int());
    assert_eq!(map_level(&Level::Debug), tracelogging::Level::Verbose.as_int());
    assert_eq!(map_level(&Level::Trace), tracelogging::Level::Verbose.as_int() + 1);
}

#[test]
fn builder_starts_from_the_name() {
    let builder = LayerBuilder::new("ExampleProvBasic");
    assert_eq!(builder.provider_name, "ExampleProvBasic");
    assert_eq!(builder.get_provider_id(), GuidWrapper::from_name("ExampleProvBasic"));
    assert!(matches!(builder.provider_group, ProviderGroup::Unset));
    assert_eq!(builder.default_keyword, DEFAULT_KEYWORD);
    assert_eq!(builder.default_keyword, 1);
    assert!(!builder.common_schema);
    let builder = LayerBuilder::new_common_schema_events("ExampleProvBasic_CS");
    assert_eq!(builder.provider_name, "ExampleProvBasic_CS");
    assert!(builder.common_schema);
    assert_eq!(builder.default_keyword, 1);
}

#[test]
fn builder_takes_settings() {
    let builder = LayerBuilder::new("test")
        .with_provider_id(GuidWrapper::from_u128(77))
        .with_default_keyword(5)
        .with_provider_group(ProviderGroup::Linux(String::from("geneva")));
    assert_eq!(builder.get_provider_id().to_u128(), 77);
    assert_eq!(builder.default_keyword, 5);
    assert_eq!(builder.provider_name, "test");
    assert!(matches!(&builder.provider_group, ProviderGroup::Linux(name) if name == "geneva"));
    assert_eq!(builder.validate_config(), Ok(()));
    assert_eq!(builder.build_layer().default_keyword, 5);
}

#[test]
fn builder_refuses_bad_settings() {
    let group = ProviderGroup::Windows(GuidWrapper::from_u128(9));
    let builder = LayerBuilder::new("test")
        .with_provider_id(GuidWrapper::zero())
        .with_provider_group(group);
    assert_eq!(builder.validate_config(), Err(ConfigError::ZeroProviderId));
    let builder = LayerBuilder::new("test").with_provider_id(GuidWrapper::zero());
    assert_eq!(builder.validate_config(), Ok(()));
    let builder =
        LayerBuilder::new("test").with_provider_group(ProviderGroup::Windows(GuidWrapper::zero()));
    assert_eq!(builder.validate_config(), Ok(()));
    let builder = LayerBuilder::new("test")
        .with_provider_group(ProviderGroup::Linux(String::from("Geneva")));
    assert_eq!(builder.validate_config(), Err(ConfigError::InvalidGroupName));
    assert_eq!(LayerBuilder::new("test").validate_config(), Ok(()));
}

#[test]
fn targets_are_the_names_the_provider_listens_to() {
    let builder = LayerBuilder::new("test2");
    assert_eq!(builder.build_target_filter(""), vec![String::from("test2")]);
    assert_eq!(
        builder.build_target_filter("geneva"),
        vec![String::from("test2"), String::from("geneva")]
    );
    let builder = builder.with_provider_group(ProviderGroup::Linux(String::from("group")));
    assert_eq!(
        builder.build_target_filter("geneva"),
        vec![String::from("test2"), String::from("group"), String::from("geneva")]
    );
    let builder =
        builder.with_provider_group(ProviderGroup::Windows(GuidWrapper::from_u128(3)));
    assert_eq!(builder.build_target_filter(""), vec![String::from("test2")]);
}

#[test]
fn interest_flips_with_enablement() {
    let filter = LayerBuilder::new("test").build_filter(Backend::Etw);
    let keyword = filter.keyword(None);
    assert_eq!(keyword, 1);
    assert_eq!(map_level(&Level::Info), 4);
    assert_eq!(filter.callsite_enabled(false), Interest::Never);
    assert_eq!(filter.callsite_enabled(true), Interest::Always);
}

#[test]
fn tracepoint_filter_always_has_to_be_asked() {
    for backend in [Backend::UserEvents, Backend::Noop] {
        let filter = LayerBuilder::new("test").build_filter(backend);
        assert_eq!(filter.callsite_enabled(false), Interest::Sometimes);
        assert_eq!(filter.callsite_enabled(true), Interest::Sometimes);
    }
}

#[test]
fn keyword_and_tag_come_from_the_event_or_the_default() {
    let builder = LayerBuilder::new("test").with_default_keyword(8);
    let layer = builder.build_layer();
    let filter = builder.build_filter(Backend::UserEvents);
    let meta = EtwEventMetadata { kw: 5, identity: 1234, event_tag: 3 };
    assert_eq!(layer.keyword_and_tag(Some(&meta)), (5, 3));
    assert_eq!(layer.keyword_and_tag(None), (8, 0));
    assert_eq!(filter.keyword(Some(&meta)), 5);
    assert_eq!(filter.keyword(None), 8);
}

#[test]
fn span_state_follows_the_span() {
    let seed = seed_from_nanos(1_700_000_000_000_000_000);
    let layer = LayerBuilder::new("test").build_layer();
    let mut data = layer.on_new_span(
        &seed,
        2,
        1,
        &["field1", "field2"],
        &[FieldAndValue { field_name: "field1", value: ValueTypes::v_u64(0) }],
    );
    assert_eq!(data.start_time, Timestamp { secs: 0, nanos: 0 });
    assert_eq!(data.activity_id[0], 1);
    assert_eq!(data.activity_id[8], 2);
    assert_eq!(data.related_activity_id[0], 1);
    assert_eq!(data.related_activity_id[8], 1);
    assert_eq!(&data.activity_id[1..8], &seed[1..8]);
    assert!(matches!(data.fields.value(0), ValueTypes::v_u64(0)));
    assert!(data.fields.value(1).is_none());

    let entered = Timestamp { secs: 1_000_000_000, nanos: 1 };
    layer.on_enter(&mut data, entered);
    assert_eq!(data.start_time, entered);
    layer.on_record(
        &mut data,
        &[
            FieldAndValue { field_name: "field1", value: ValueTypes::v_u64(12345) },
            FieldAndValue { field_name: "field2", value: ValueTypes::v_str(String::from("9876f64")) },
            FieldAndValue { field_name: "field3", value: ValueTypes::v_u64(1) },
        ],
    );
    assert!(matches!(data.fields.value(0), ValueTypes::v_u64(12345)));
    assert!(matches!(data.fields.value(1), ValueTypes::v_str(s) if s == "9876f64"));
    let left = Timestamp { secs: 1_000_000_001, nanos: 0 };
    assert_eq!(layer.on_exit(&data, left), (entered, left));
}

#[test]
fn span_without_parent_has_no_related_activity() {
    let seed = seed_from_nanos(55);
    let layer = LayerBuilder::new("test").build_layer();
    let data = layer.on_new_span(&seed, 2, 0, &[], &[]);
    assert_eq!(data.activity_id[0], 1);
    assert_eq!(data.related_activity_id[0], 0);
}

#[test]
fn event_ids_follow_the_current_span() {
    let seed = seed_from_nanos(55);
    let layer = LayerBuilder::new("test").build_layer();
    let ids = layer.on_event(&seed, 0, 0);
    assert_eq!(ids.activity(), None);
    assert_eq!(ids.related(), None);
    let ids = layer.on_event(&seed, 3, 2);
    assert_eq!(ids.activity_id[8], 3);
    assert_eq!(ids.related_activity_id[8], 2);
    assert!(ids.activity().is_some());
    assert!(ids.related().is_some());
}

#[test]
fn span_from_creation_to_exit() {
    use_span_from_creation_to_exit();
}

fn use_span_from_creation_to_exit() {
    let seed = seed_from_nanos(1_700_000_000_000_000_000);
    let layer = LayerBuilder::new("test").build_layer();
    let (keyword, tag) = layer.keyword_and_tag(None);
    let level = map_level(&Level::Info);
    for parent in [0u64, 17] {
        let mut data = layer.on_new_span(&seed, 18, parent, &["field1", "field2"], &[]);
        let entered = Timestamp { secs: 1_000_000_000, nanos: 0 };
        let mut start = tracelogging_dynamic::EventBuilder::new();
        assert!(tracing_etw::etw::span_start(
            &mut start, "my_span", &entered, &data.fields, level, keyword, tag
        ));
        let start_ids = (data.activity_id, data.related_activity_id);
        layer.on_enter(&mut data, entered);
        layer.on_record(
            &mut data,
            &[FieldAndValue { field_name: "field1", value: ValueTypes::v_u64(12345) }],
        );
        layer.on_record(
            &mut data,
            &[FieldAndValue {
                field_name: "field2",
                value: ValueTypes::v_str(String::from("9876f64")),
            }],
        );
        let left = Timestamp { secs: 1_000_000_002, nanos: 0 };
        let times = layer.on_exit(&data, left);
        let mut stop = tracelogging_dynamic::EventBuilder::new();
        assert!(tracing_etw::etw::span_stop(
            &mut stop, "my_span", times, &data.fields, level, keyword, tag
        ));

        let mut expected = tracelogging_dynamic::EventBuilder::new();
        expected.reset("my_span", tracelogging_dynamic::Level::Informational, 1, 0);
        expected.opcode(tracelogging_dynamic::Opcode::Start);
        expected.add_systemtime(
            "start time",
            &[2001, 9, 0, 9, 1, 46, 40, 0],
            tracelogging_dynamic::OutType::DateTimeUtc,
            0,
        );
        assert_eq!(format!("{:?}", start), format!("{:?}", expected));

        expected.reset("my_span", tracelogging_dynamic::Level::Informational, 1, 0);
        expected.opcode(tracelogging_dynamic::Opcode::Stop);
        expected.add_systemtime(
            "stop time",
            &[2001, 9, 0, 9, 1, 46, 42, 0],
            tracelogging_dynamic::OutType::DateTimeUtc,
            0,
        );
        expected.add_u64("field1", 12345, tracelogging_dynamic::OutType::Default, 0);
        expected.add_str8("field2", "9876f64", tracelogging_dynamic::OutType::Utf8, 0);
        assert_eq!(format!("{:?}", stop), format!("{:?}", expected));

        assert_eq!((data.activity_id, data.related_activity_id), start_ids);
        assert_eq!(data.activity_id[0], 1);
        assert_eq!(data.related_activity_id[0], if parent != 0 { 1 } else { 0 });
    }
}

#[test]
fn enablement_flips_without_a_new_registration() {
    let mut registry = tracing_etw::registry::ProviderRegistry::new();
    let builder = LayerBuilder::new("test");
    let filter = builder.build_filter(Backend::Etw);
    let (handle, created) = registry.get_or_create(
        "test",
        builder.get_provider_id(),
        builder.provider_group.clone(),
    );
    assert!(created);
    assert_eq!(map_level(&Level::Info), 4);
    assert_eq!(filter.keyword(None), 1);
    assert_eq!(filter.callsite_enabled(false), Interest::Never);
    let (again, created) = registry.get_or_create(
        "test",
        builder.get_provider_id(),
        builder.provider_group.clone(),
    );
    assert!(!created);
    assert_eq!(again, handle);
    assert_eq!(filter.callsite_enabled(true), Interest::Always);
    assert_eq!(registry.len(), 1);
}
