use tracing_etw::native::{
    event_sets_to_register, tracepoint_enabled, validate_provider, Backend, ConfigError,
    GuidWrapper, ProviderGroup,
};

#[test]
fn provider_id_hashes_from_the_name() {
    assert_eq!(
        GuidWrapper::from_name("MyProvider").to_u128(),
        0xb3864c38_4273_58c5_545b_8b3608343471
    );
    assert_eq!(GuidWrapper::from_name("myprovider"), GuidWrapper::from_name("MYPROVIDER"));
    assert_ne!(GuidWrapper::from_name("MyProvider"), GuidWrapper::from_name("MyProvider2"));
}

#[test]
fn guid_keeps_its_number() {
    assert_eq!(GuidWrapper::from_u128(5).to_u128(), 5);
    assert!(GuidWrapper::zero().is_zero());
    assert!(GuidWrapper::from_u128(0).is_zero());
    assert!(!GuidWrapper::from_u128(1).is_zero());
}

#[test]
fn provider_with_a_group_needs_an_id() {
    let id = GuidWrapper::from_u128(7);
    let zero = GuidWrapper::zero();
    assert_eq!(validate_provider(&id, &ProviderGroup::Unset), Ok(()));
    assert_eq!(validate_provider(&zero, &ProviderGroup::Unset), Ok(()));
    let group = ProviderGroup::Windows(GuidWrapper::from_u128(1));
    assert_eq!(validate_provider(&id, &group), Ok(()));
    assert_eq!(validate_provider(&zero, &group), Err(ConfigError::ZeroProviderId));
    let group = ProviderGroup::Windows(GuidWrapper::zero());
    assert_eq!(validate_provider(&id, &group), Ok(()));
    let group = ProviderGroup::Linux(String::from("mygroup1"));
    assert_eq!(validate_provider(&id, &group), Ok(()));
    assert_eq!(validate_provider(&zero, &group), Err(ConfigError::ZeroProviderId));
}

#[test]
fn group_name_is_checked() {
    let id = GuidWrapper::from_u128(7);
    assert_eq!(validate_provider(&id, &ProviderGroup::Linux(String::new())), Ok(()));
    for bad in ["MyGroup", "my group", "my_group", "grüße", "a:b"] {
        assert_eq!(
            validate_provider(&id, &ProviderGroup::Linux(String::from(bad))),
            Err(ConfigError::InvalidGroupName)
        );
        assert_eq!(
            validate_provider(&GuidWrapper::zero(), &ProviderGroup::Linux(String::from(bad))),
            Err(ConfigError::ZeroProviderId)
        );
    }
}

#[test]
fn only_etw_is_told_of_changes() {
    assert!(Backend::Etw.supports_enable_callback());
    assert!(!Backend::UserEvents.supports_enable_callback());
    assert!(!Backend::Noop.supports_enable_callback());
}

#[test]
fn tracepoint_is_enabled_only_by_a_live_set() {
    assert!(!tracepoint_enabled(None));
    assert!(!tracepoint_enabled(Some(false)));
    assert!(tracepoint_enabled(Some(true)));
}

#[test]
fn sets_are_planned_for_every_level() {
    assert_eq!(
        event_sets_to_register(&[], 1),
        vec![(2u8, 1u64), (3, 1), (4, 1), (5, 1), (6, 1)]
    );
    assert_eq!(
        event_sets_to_register(&[5, 9], 1),
        vec![
            (2u8, 5u64),
            (3, 5),
            (4, 5),
            (5, 5),
            (6, 5),
            (2, 9),
            (3, 9),
            (4, 9),
            (5, 9),
            (6, 9),
            (2, 1),
            (3, 1),
            (4, 1),
            (5, 1),
            (6, 1)
        ]
    );
}
