use provider_registry::FileBuilder;
use provider_registry::FileProvider;
use provider_registry::GroupBuilder;
use provider_registry::GroupProvider;
use provider_registry::Provider;
use provider_registry::ProviderBuilder;
use provider_registry::ProviderError;
use provider_registry::ProviderResult;
use provider_registry::Run;
use provider_registry::UserBuilder;
use provider_registry::UserProvider;

#[test]
fn run_succeeds_on_every_concrete_provider() {
    assert_eq!(UserProvider {}.run(), Ok(ProviderResult::Success(Run {})));
    assert_eq!(GroupProvider {}.run(), Ok(ProviderResult::Success(Run {})));
    assert_eq!(FileProvider {}.run(), Ok(ProviderResult::Success(Run {})));
}

#[test]
fn status_lines_name_their_kind() {
    assert!(UserProvider {}.status_line().contains("user"));
    assert!(GroupProvider {}.status_line().contains("group"));
    assert!(FileProvider {}.status_line().contains("file"));
}

#[test]
fn status_lines_are_pairwise_distinct() {
    let user = UserProvider {}.status_line();
    let group = GroupProvider {}.status_line();
    let file = FileProvider {}.status_line();
    assert_ne!(user, group);
    assert_ne!(user, file);
    assert_ne!(group, file);
}

#[test]
fn status_lines_have_the_exact_wording() {
    assert_eq!(UserProvider {}.status_line(), "configuring user");
    assert_eq!(GroupProvider {}.status_line(), "configure group");
    assert_eq!(FileProvider {}.status_line(), "configure file");
}

#[test]
fn init_reports_not_implemented_on_every_concrete_provider() {
    assert_eq!(UserProvider {}.init(), Err(ProviderError::NotImplemented));
    assert_eq!(GroupProvider {}.init(), Err(ProviderError::NotImplemented));
    assert_eq!(FileProvider {}.init(), Err(ProviderError::NotImplemented));
}

#[test]
fn exit_reports_not_implemented_on_every_concrete_provider() {
    assert_eq!(UserProvider {}.exit(), Err(ProviderError::NotImplemented));
    assert_eq!(GroupProvider {}.exit(), Err(ProviderError::NotImplemented));
    assert_eq!(FileProvider {}.exit(), Err(ProviderError::NotImplemented));
}

#[test]
fn building_twice_yields_independent_equal_providers() {
    let builder = UserBuilder::new();
    let first = builder.build();
    let second = builder.build();
    assert_eq!(first, second);
    // Driving one instance through its lifecycle leaves the other as built.
    let _ = first.init();
    let _ = first.run();
    let _ = first.exit();
    assert_eq!(second, builder.build());
    assert_eq!(second.run(), Ok(ProviderResult::Success(Run {})));

    let group_builder = GroupBuilder::new();
    assert_eq!(group_builder.build(), group_builder.build());
    let file_builder = FileBuilder::new();
    assert_eq!(file_builder.build(), file_builder.build());
}
