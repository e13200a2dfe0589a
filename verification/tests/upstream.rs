use libcdp::broker::config::{BrokerConfig, BrokerConfigFile};
use libcdp::broker::bundle::{Bundle, FlushAction};
use libcdp::broker::upstream::{
    check_response, is_success, settle_delivery, settle_delivery_at, HeartbeatRequest,
    LivenessTracker, UpstreamCommError,
};
use libcdp::comm::broker_api::{BrokerMessage, BrokerMessagePayload};
use libcdp::clock::Timestamp;
use libcdp::comm::broker_api::HeartbeatMessage;

fn config(endpoint: &str) -> BrokerConfig {
    BrokerConfig::try_from(&BrokerConfigFile {
        topics: vec!["temperature".to_owned()],
        home_key: Some("secret".to_owned()),
        endpoint: endpoint.to_owned(),
        bundle_size: 3,
        bundle_timeout_msec: 5000,
        buffer_size_bundles: 10,
        heartbeat_interval_secs: None,
        uid: "a1a2a3a4-b1b2-c1c2-d1d2-d3d4d5d6d7d8".to_owned(),
    })
    .unwrap()
}

#[test]
fn success_is_the_two_hundreds() {
    assert!(!is_success(0));
    assert!(!is_success(199));
    assert!(is_success(200));
    assert!(is_success(204));
    assert!(is_success(299));
    assert!(!is_success(300));
    assert!(!is_success(404));
    assert!(!is_success(500));
    assert!(!is_success(u16::MAX));
}

#[test]
fn responses_are_sorted_into_errors() {
    assert_eq!(check_response(Ok(200)), Ok(200));
    assert_eq!(check_response(Ok(201)), Ok(201));
    assert_eq!(check_response(Ok(500)), Err(UpstreamCommError::Api(500)));
    assert_eq!(check_response(Ok(302)), Err(UpstreamCommError::Api(302)));
    assert_eq!(
        check_response(Err("connection refused".to_owned())),
        Err(UpstreamCommError::Net("connection refused".to_owned()))
    );
}

#[test]
fn liveness_changes_only_on_success() {
    let first = Timestamp { secs: 100, nanos: 1 };
    let second = Timestamp { secs: 200, nanos: 2 };
    let third = Timestamp { secs: 300, nanos: 3 };
    let mut tracker = LivenessTracker::new();
    assert_eq!(tracker.last_seen(), None);
    assert_eq!(tracker.handle_response_at(Ok(503), first), None);
    assert_eq!(tracker.last_seen(), None);
    assert_eq!(tracker.handle_response_at(Err("timed out".to_owned()), first), None);
    assert_eq!(tracker.last_seen(), None);
    assert_eq!(tracker.handle_response_at(Ok(200), first), Some(200));
    assert_eq!(tracker.last_seen(), Some(first));
    assert_eq!(tracker.handle_response_at(Ok(404), second), None);
    assert_eq!(tracker.last_seen(), Some(first));
    assert_eq!(tracker.handle_response_at(Err("reset".to_owned()), second), None);
    assert_eq!(tracker.last_seen(), Some(first));
    assert_eq!(tracker.handle_response_at(Ok(204), third), Some(204));
    assert_eq!(tracker.last_seen(), Some(third));
}

#[test]
fn liveness_with_the_clock() {
    let mut tracker = LivenessTracker::new();
    assert_eq!(tracker.handle_response(Ok(500)), None);
    assert_eq!(tracker.last_seen(), None);
    assert_eq!(tracker.handle_response(Err("down".to_owned())), None);
    assert_eq!(tracker.last_seen(), None);
    assert_eq!(tracker.handle_response(Ok(200)), Some(200));
    let seen = tracker.last_seen().unwrap();
    assert!(seen.secs > 1_600_000_000);
    assert_eq!(tracker.handle_response(Ok(400)), None);
    assert_eq!(tracker.last_seen(), Some(seen));
    tracker.update_last_seen();
    assert!(tracker.last_seen().unwrap().secs >= seen.secs);
    tracker.update_last_seen_at(Timestamp { secs: 5, nanos: 6 });
    assert_eq!(tracker.last_seen(), Some(Timestamp { secs: 5, nanos: 6 }));
}

#[test]
fn targets_are_resolved_against_the_endpoint() {
    assert_eq!(config("http://example.com").endpoint, "http://example.com/");
    assert_eq!(config("HTTP://Example.COM:80/a/../b").endpoint, "http://example.com/b");
    assert_eq!(
        config("http://example.com").bundle_url(),
        Ok("http://example.com/bundle".to_owned())
    );
    assert_eq!(
        config("https://example.com:8443/api/v1").bundle_url(),
        Ok("https://example.com:8443/bundle".to_owned())
    );
    assert_eq!(
        config("http://10.0.0.1:9869/").heartbeat_request().unwrap().target,
        "http://10.0.0.1:9869/heartbeat"
    );
}

#[test]
fn a_heartbeat_request_carries_identity_and_key() {
    let cfg = config("http://example.com");
    assert_eq!(
        HeartbeatRequest::new("http://elsewhere/heartbeat".to_owned(), &cfg),
        HeartbeatRequest {
            target: "http://elsewhere/heartbeat".to_owned(),
            body: HeartbeatMessage {
                uid: 0xa1a2a3a4b1b2c1c2d1d2d3d4d5d6d7d8,
                key: Some("secret".to_owned()),
            },
        }
    );
}

#[test]
fn requests_of_a_broker() {
    let cfg = config("http://example.com:9869");
    assert_eq!(cfg.bundle_url(), Ok("http://example.com:9869/bundle".to_owned()));
    assert_eq!(
        cfg.heartbeat_request(),
        Ok(HeartbeatRequest {
            target: "http://example.com:9869/heartbeat".to_owned(),
            body: HeartbeatMessage {
                uid: 0xa1a2a3a4b1b2c1c2d1d2d3d4d5d6d7d8,
                key: Some("secret".to_owned()),
            },
        })
    );
}

#[test]
fn a_broken_endpoint_gives_no_target() {
    let mut cfg = config("http://example.com");
    cfg.endpoint = "nowhere".to_owned();
    assert!(cfg.bundle_url().is_err());
    assert!(cfg.heartbeat_request().is_err());
}

fn beat(n: u128) -> BrokerMessage {
    BrokerMessage::construct_at(
        n,
        BrokerMessagePayload::Heartbeat(HeartbeatMessage { uid: n, key: None }),
        Timestamp { secs: 1, nanos: 0 },
    )
}

#[test]
fn a_failed_delivery_changes_neither_bundle_nor_record() {
    let at = Timestamp { secs: 50, nanos: 0 };
    let mut bundle = Bundle::new(2);
    let mut tracker = LivenessTracker::new();
    assert_eq!(bundle.append(beat(1)), Ok(FlushAction::Keep));
    assert_eq!(bundle.append(beat(2)), Ok(FlushAction::Deliver));
    assert!(!settle_delivery_at(&mut bundle, &mut tracker, Ok(500), at));
    assert_eq!(bundle.contents(), &vec![beat(1), beat(2)]);
    assert!(!bundle.is_sending());
    assert_eq!(tracker.last_seen(), None);
    assert_eq!(bundle.request_flush(), FlushAction::Deliver);
    assert!(!settle_delivery(&mut bundle, &mut tracker, Err("unreachable host".to_owned())));
    assert_eq!(bundle.contents(), &vec![beat(1), beat(2)]);
    assert_eq!(tracker.last_seen(), None);
}

#[test]
fn a_confirmed_delivery_empties_the_bundle_and_is_recorded() {
    let at = Timestamp { secs: 50, nanos: 0 };
    let mut bundle = Bundle::new(1);
    let mut tracker = LivenessTracker::new();
    assert_eq!(bundle.append(beat(1)), Ok(FlushAction::Deliver));
    assert!(settle_delivery_at(&mut bundle, &mut tracker, Ok(200), at));
    assert!(bundle.is_empty());
    assert!(!bundle.is_sending());
    assert_eq!(tracker.last_seen(), Some(at));
    assert_eq!(bundle.request_flush(), FlushAction::Deliver);
    assert!(settle_delivery(&mut bundle, &mut tracker, Ok(204)));
    assert!(tracker.last_seen().unwrap().secs > 1_600_000_000);
}
