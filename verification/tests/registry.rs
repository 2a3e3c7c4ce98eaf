use tracing_etw::native::{GuidWrapper, ProviderGroup};
use tracing_etw::registry::ProviderRegistry;

#[test]
fn provider_is_created_once_per_name() {
    let mut registry = ProviderRegistry::new();
    assert_eq!(registry.len(), 0);
    assert_eq!(registry.find("test"), None);
    let mut created = 0;
    let mut handles = Vec::new();
    for _ in 0..8 {
        let (handle, new) =
            registry.get_or_create("test", GuidWrapper::from_name("test"), ProviderGroup::Unset);
        if new {
            created += 1;
        }
        handles.push(handle);
    }
    assert_eq!(created, 1);
    assert!(handles.iter().all(|h| *h == handles[0]));
    assert_eq!(registry.len(), 1);
    assert_eq!(registry.find("test"), Some(handles[0]));
    assert_eq!(registry.entry(handles[0]).name, "test");
}

#[test]
fn fallbacks_are_used_only_at_creation() {
    let mut registry = ProviderRegistry::new();
    let (first, new) = registry.get_or_create(
        "geneva",
        GuidWrapper::from_u128(1),
        ProviderGroup::Linux(String::from("group")),
    );
    assert!(new);
    let (second, new) =
        registry.get_or_create("geneva", GuidWrapper::from_u128(2), ProviderGroup::Unset);
    assert!(!new);
    assert_eq!(first, second);
    assert_eq!(registry.entry(first).id, GuidWrapper::from_u128(1));
    assert!(matches!(&registry.entry(first).group, ProviderGroup::Linux(g) if g == "group"));
}

#[test]
fn names_get_handles_of_their_own() {
    let mut registry = ProviderRegistry::new();
    let (a, _) = registry.get_or_create("a", GuidWrapper::from_u128(1), ProviderGroup::Unset);
    let (b, new) = registry.get_or_create("b", GuidWrapper::from_u128(2), ProviderGroup::Unset);
    assert!(new);
    assert_ne!(a, b);
    assert_eq!(registry.get_or_create("a", GuidWrapper::zero(), ProviderGroup::Unset), (a, false));
    assert_eq!(registry.find("a"), Some(a));
    assert_eq!(registry.find("b"), Some(b));
    assert_eq!(registry.find("c"), None);
    assert_eq!(registry.len(), 2);
}
