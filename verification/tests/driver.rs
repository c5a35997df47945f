use provider_registry::build_registry;
use provider_registry::drive;
use provider_registry::outcome::describe_outcome;
use provider_registry::drive_provider;
use provider_registry::BuiltProvider;
use provider_registry::ProviderError;
use provider_registry::ProviderResult;
use provider_registry::ProviderSession;
use provider_registry::Registry;
use provider_registry::Run;
use provider_registry::UserProvider;

#[test]
fn full_pass_reports_all_kinds_in_order() {
    let registry = build_registry();
    let lines = drive(&registry).expect("the seeded registry resolves every kind");
    assert_eq!(
        lines,
        vec![
            "not implemented",
            "configuring user",
            "success",
            "not implemented",
            "not implemented",
            "configure group",
            "success",
            "not implemented",
            "not implemented",
            "configure file",
            "success",
            "not implemented",
        ]
    );
}

#[test]
fn driving_an_empty_registry_surfaces_the_fatal_condition() {
    let registry = Registry::new();
    assert!(drive(&registry).is_none());
}

#[test]
fn one_provider_reports_four_lines() {
    let lines = drive_provider(BuiltProvider::User(UserProvider {}));
    assert_eq!(
        lines,
        vec!["not implemented", "configuring user", "success", "not implemented"]
    );
}

#[test]
fn session_steps_report_their_outcomes_in_order() {
    let mut session = ProviderSession::new(BuiltProvider::User(UserProvider {}));
    assert_eq!(session.status_line(), "configuring user");
    assert_eq!(session.init(), Err(ProviderError::NotImplemented));
    assert_eq!(session.run(), Ok(ProviderResult::Success(Run {})));
    assert_eq!(session.exit(), Err(ProviderError::NotImplemented));
}

#[test]
fn outcomes_render_to_the_two_report_lines() {
    let success: Result<ProviderResult<Run>, ProviderError> = Ok(ProviderResult::Success(Run {}));
    let inert: Result<ProviderResult<Run>, ProviderError> = Ok(ProviderResult::NotImplemented);
    let not_implemented: Result<ProviderResult<Run>, ProviderError> =
        Err(ProviderError::NotImplemented);
    assert_eq!(describe_outcome(&success), "success");
    assert_eq!(describe_outcome(&inert), "not implemented");
    assert_eq!(describe_outcome(&not_implemented), "not implemented");
}

#[test]
fn sessions_are_independent() {
    let mut first = ProviderSession::new(BuiltProvider::User(UserProvider {}));
    let mut second = ProviderSession::new(BuiltProvider::User(UserProvider {}));
    assert_eq!(first.init(), Err(ProviderError::NotImplemented));
    assert_eq!(first.run(), Ok(ProviderResult::Success(Run {})));
    // The second session still starts from the beginning.
    assert_eq!(second.init(), Err(ProviderError::NotImplemented));
}
