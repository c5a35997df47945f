use provider_registry::build_registry;
use provider_registry::Provider;
use provider_registry::ProviderBuilder;
use provider_registry::ProviderResult;
use provider_registry::Registry;
use provider_registry::ResourceKind;
use provider_registry::Run;

#[test]
fn every_known_kind_has_a_builder() {
    let registry = build_registry();
    for kind in [ResourceKind::User, ResourceKind::Group, ResourceKind::File] {
        let builder = registry.lookup(kind);
        assert!(builder.is_some(), "kind {:?} must be registered", kind);
        let provider = builder.unwrap().build();
        let outcome = provider.run();
        assert_eq!(outcome, Ok(ProviderResult::Success(Run {})));
    }
}

#[test]
fn find_resolves_each_known_name() {
    let registry = build_registry();
    for name in ["user", "group", "file"] {
        assert!(registry.find(&String::from(name)).is_some());
    }
}

#[test]
fn find_surfaces_absence_for_unknown_names() {
    let registry = build_registry();
    for name in ["network", "", "User", "files", "use", "package"] {
        assert!(
            registry.find(&String::from(name)).is_none(),
            "name {:?} must not resolve",
            name
        );
    }
}

#[test]
fn empty_registry_resolves_nothing() {
    let registry = Registry::new();
    assert!(registry.lookup(ResourceKind::User).is_none());
    assert!(registry.find(&String::from("user")).is_none());
}

#[test]
fn kind_names_round_trip() {
    for kind in [ResourceKind::User, ResourceKind::Group, ResourceKind::File] {
        assert_eq!(ResourceKind::from_name(kind.name()), Some(kind));
    }
}

#[test]
fn unknown_kind_names_parse_to_none() {
    assert_eq!(ResourceKind::from_name("disk"), None);
    assert_eq!(ResourceKind::from_name(""), None);
    assert_eq!(ResourceKind::from_name("group "), None);
}
