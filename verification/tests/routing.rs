use deeplink_bridge::RouteOutcome;
use deeplink_bridge::Router;
use deeplink_bridge::Session;
use deeplink_bridge::classify::classify;
use deeplink_bridge::classify::str_contains;

fn attached_router() -> Router {
    let mut router = Router::new();
    router.attach(Session::new());
    router
}

fn payloads(router: &Router) -> Vec<String> {
    match &router.session {
        Some(session) => session.events.iter().map(|e| e.payload.clone()).collect(),
        None => Vec::new(),
    }
}

#[test]
fn matching_record_publishes_one_event() {
    let record = "boilerplate://callback?provider=clerk&token=abc";
    let mut router = attached_router();
    let outcome = router.route(record);
    assert_eq!(outcome, RouteOutcome::Published);
    let session = router.session.as_ref().unwrap();
    assert_eq!(session.event_count(), 1);
    let event = session.event_at(0);
    assert_eq!(event.name, "oauth-callback");
    assert_eq!(event.payload, record);
}

#[test]
fn non_matching_record_publishes_nothing() {
    let mut router = attached_router();
    let outcome = router.route("boilerplate://some/other/path");
    assert_eq!(outcome, RouteOutcome::ClassificationMiss);
    assert_eq!(router.session.as_ref().unwrap().event_count(), 0);
}

#[test]
fn publish_error_without_session_then_recovers() {
    let record = "boilerplate://callback?provider=clerk&token=abc";
    let mut router = Router::new();
    let outcome = router.route(record);
    assert_eq!(outcome, RouteOutcome::PublishError);
    router.attach(Session::new());
    let outcome = router.route(record);
    assert_eq!(outcome, RouteOutcome::Published);
    assert_eq!(payloads(&router), vec![record.to_string()]);
}

#[test]
fn back_to_back_publishes_only_the_match() {
    let first = "boilerplate://callback?provider=clerk&token=abc";
    let second = "boilerplate://callback?provider=other&token=abc";
    let mut router = attached_router();
    assert_eq!(router.route(first), RouteOutcome::Published);
    assert_eq!(router.route(second), RouteOutcome::ClassificationMiss);
    assert_eq!(payloads(&router), vec![first.to_string()]);
}

#[test]
fn routing_preserves_delivery_order() {
    let records = [
        "scheme://a?provider=clerk&n=1",
        "scheme://drop/me",
        "scheme://b?provider=clerk&n=2",
        "scheme://drop/me/too",
        "scheme://c?provider=clerk&n=3",
    ];
    let mut router = attached_router();
    for record in records {
        router.route(record);
    }
    assert_eq!(
        payloads(&router),
        vec![
            "scheme://a?provider=clerk&n=1".to_string(),
            "scheme://b?provider=clerk&n=2".to_string(),
            "scheme://c?provider=clerk&n=3".to_string(),
        ]
    );
}

#[test]
fn duplicate_records_publish_twice() {
    let record = "boilerplate://callback?provider=clerk&token=abc";
    let mut router = attached_router();
    assert_eq!(router.route(record), RouteOutcome::Published);
    assert_eq!(router.route(record), RouteOutcome::Published);
    assert_eq!(payloads(&router), vec![record.to_string(), record.to_string()]);
}

#[test]
fn route_all_matches_single_routing() {
    let records = vec![
        "scheme://one?provider=clerk".to_string(),
        "scheme://two".to_string(),
        "scheme://three?provider=clerk".to_string(),
    ];
    let mut batched = attached_router();
    batched.route_all(&records);
    let mut single = attached_router();
    for record in &records {
        single.route(record.as_str());
    }
    assert_eq!(payloads(&batched), payloads(&single));
    assert_eq!(payloads(&batched).len(), 2);
}

#[test]
fn classification_is_marker_containment() {
    assert!(classify("clerk"));
    assert!(classify("xxclerkxx"));
    assert!(classify("boilerplate://callback?provider=clerk&token=abc"));
    assert!(!classify(""));
    assert!(!classify("cler"));
    assert!(!classify("CLERK"));
    assert!(!classify("boilerplate://some/other/path"));
}

#[test]
fn containment_edge_cases() {
    assert!(str_contains("", ""));
    assert!(str_contains("abc", ""));
    assert!(str_contains("abc", "abc"));
    assert!(str_contains("abc", "bc"));
    assert!(!str_contains("", "a"));
    assert!(!str_contains("ab", "abc"));
    assert!(!str_contains("acbc", "abc"));
    assert!(str_contains("aabab", "bab"));
}
