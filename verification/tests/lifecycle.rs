use deeplink_bridge::Bridge;
use deeplink_bridge::BridgeState;
use deeplink_bridge::RegistrationError;
use deeplink_bridge::RouteOutcome;
use deeplink_bridge::Session;
use deeplink_bridge::greet;
use deeplink_bridge::listener::Listener;
use deeplink_bridge::listener::check_scheme;
use deeplink_bridge::run;

#[test]
fn registration_is_exactly_once() {
    let mut listener = Listener::new();
    assert_eq!(listener.register("boilerplate", true), Ok(()));
    assert_eq!(listener.state, BridgeState::Active);
    let second = listener.register("boilerplate", true);
    assert_eq!(second, Err(RegistrationError::AlreadyAttempted));
    assert_eq!(listener.state, BridgeState::Active);
    assert_eq!(listener.scheme.as_deref(), Some("boilerplate"));
}

#[test]
fn invalid_scheme_is_rejected() {
    let mut listener = Listener::new();
    assert_eq!(listener.register("1boilerplate", true), Err(RegistrationError::InvalidScheme));
    assert_eq!(listener.state, BridgeState::Inactive);
    assert_eq!(listener.scheme, None);
}

#[test]
fn os_rejection_leaves_the_bridge_inactive() {
    let mut listener = Listener::new();
    assert_eq!(listener.register("boilerplate", false), Err(RegistrationError::OsRejected));
    assert_eq!(listener.state, BridgeState::Inactive);
}

#[test]
fn scheme_token_syntax() {
    assert!(check_scheme("a"));
    assert!(check_scheme("boilerplate"));
    assert!(check_scheme("z39.50+x-r"));
    assert!(!check_scheme(""));
    assert!(!check_scheme("9x"));
    assert!(!check_scheme("+x"));
    assert!(!check_scheme("ab c"));
    assert!(!check_scheme("ab:c"));
}

#[test]
fn inactive_bridge_delivers_nothing() {
    let mut bridge = Bridge::new();
    bridge.attach_session(Session::new());
    let registration = bridge.register("boilerplate", false);
    assert_eq!(registration, Err(RegistrationError::OsRejected));
    let outcome = bridge.on_activation("boilerplate://callback?provider=clerk&token=abc");
    assert_eq!(outcome, None);
    assert_eq!(bridge.router.session.as_ref().unwrap().event_count(), 0);
}

#[test]
fn active_bridge_routes_activations() {
    let mut bridge = Bridge::new();
    bridge.attach_session(Session::new());
    assert_eq!(bridge.register("boilerplate", true), Ok(()));
    let outcome = bridge.on_activation("boilerplate://callback?provider=clerk&token=abc");
    assert_eq!(outcome, Some(RouteOutcome::Published));
    let outcome = bridge.on_activation("boilerplate://some/other/path");
    assert_eq!(outcome, Some(RouteOutcome::ClassificationMiss));
    let session = bridge.router.session.as_ref().unwrap();
    assert_eq!(session.event_count(), 1);
    assert_eq!(session.event_at(0).payload, "boilerplate://callback?provider=clerk&token=abc");
}

#[test]
fn run_routes_the_matching_subset_in_order() {
    let activations = vec![
        "boilerplate://callback?provider=clerk&token=abc".to_string(),
        "boilerplate://some/other/path".to_string(),
        "boilerplate://again?provider=clerk".to_string(),
    ];
    let bridge = run("boilerplate", true, &activations);
    assert_eq!(bridge.listener.state, BridgeState::Active);
    let session = bridge.router.session.as_ref().unwrap();
    assert_eq!(session.event_count(), 2);
    assert_eq!(session.event_at(0).name, "oauth-callback");
    assert_eq!(session.event_at(0).payload, "boilerplate://callback?provider=clerk&token=abc");
    assert_eq!(session.event_at(1).payload, "boilerplate://again?provider=clerk");
}

#[test]
fn run_with_failed_registration_publishes_nothing() {
    let activations = vec!["boilerplate://callback?provider=clerk&token=abc".to_string()];
    let bridge = run("boilerplate", false, &activations);
    assert_eq!(bridge.listener.state, BridgeState::Inactive);
    assert_eq!(bridge.router.session.as_ref().unwrap().event_count(), 0);
}

#[test]
fn greet_formats_the_exact_greeting() {
    assert_eq!(greet("World"), "Hello, World! You've been greeted from Rust!");
    assert_eq!(greet(""), "Hello, ! You've been greeted from Rust!");
}
