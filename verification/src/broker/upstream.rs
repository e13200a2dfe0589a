//! Phoning home: what is posted to the collection endpoint, how its answer is
//! read, and the record of the last exchange that it confirmed.

use crate::broker::bundle::Bundle;
use crate::broker::bundle::BundleEvent;
use crate::broker::config::BrokerConfig;
use crate::broker::endpoint::bundle_path;
use crate::broker::endpoint::heartbeat_path;
use crate::broker::endpoint::url_join;
use crate::broker::endpoint::url_joined;
use crate::clock::now;
use crate::clock::Timestamp;
use crate::comm::broker_api::HeartbeatMessage;
use vstd::prelude::*;
use vstd::std_specs::convert::FromSpec;

verus! {

/// Any error that can occur when phoning home.
#[derive(Clone, Debug, PartialEq, Eq)]
pub enum UpstreamCommError {
    /// A network/HTTP error: no response came back. Holds what the client
    /// said of it.
    Net(String),
    /// An API error, detected by a non-2xx status code. Holds the code.
    Api(u16),
    /// Some other error.
    Other(String),
}

/// A heartbeat that is ready to be posted.
#[derive(Clone, Debug, PartialEq, Eq)]
pub struct HeartbeatRequest {
    /// The address to post to.
    pub target: String,
    /// What to post.
    pub body: HeartbeatMessage,
}

impl HeartbeatRequest {
    /// The heartbeat of a broker, to be posted to `target`: its body holds
    /// the broker's identity and access key.
    pub fn new(target: String, cfg: &BrokerConfig) -> (request: Self)
        ensures
            request == (HeartbeatRequest {
                target: target,
                body: HeartbeatMessage::from_spec(cfg),
            }),
    {
        HeartbeatRequest { target: target, body: HeartbeatMessage::from(cfg) }
    }
}

/// Tells whether a status code is in the success range, 200 to 299.
pub open spec fn status_is_success(status: u16) -> bool {
    200 <= status < 300
}

/// Tells whether an exchange was confirmed: a response came back and its
/// status code is in the success range.
pub open spec fn confirmed(outcome: Result<u16, String>) -> bool {
    outcome matches Ok(status) && status_is_success(status)
}

/// Tells whether a status code is in the success range, 200 to 299.
pub fn is_success(status: u16) -> (yes: bool)
    ensures
        yes == status_is_success(status),
{
    300 > status && status >= 200
}

/// Reads the outcome of an exchange: the status code of the response, or what
/// the client said of the exchange that brought none.
pub fn check_response(outcome: Result<u16, String>) -> (r: Result<u16, UpstreamCommError>)
    ensures
        r == match outcome {
            Ok(status) => if status_is_success(status) {
                Ok(status)
            } else {
                Err(UpstreamCommError::Api(status))
            },
            Err(e) => Err(UpstreamCommError::Net(e)),
        },
        r is Ok <==> confirmed(outcome),
{
    match outcome {
        Ok(status) => if is_success(status) {
            Ok(status)
        } else {
            Err(UpstreamCommError::Api(status))
        },
        Err(e) => Err(UpstreamCommError::Net(e)),
    }
}

impl BrokerConfig {
    /// The address to which this broker posts its bundles.
    pub fn bundle_url(&self) -> (r: Result<String, url::ParseError>)
        ensures
            match r {
                Ok(address) => url_joined(self.endpoint@, bundle_path()) == Some(address@),
                Err(_) => url_joined(self.endpoint@, bundle_path()) is None,
            },
    {
        url_join(self.endpoint.as_str(), "/bundle")
    }

    /// The heartbeat that this broker posts: where to, and its identity and
    /// access key as the body.
    pub fn heartbeat_request(&self) -> (r: Result<HeartbeatRequest, url::ParseError>)
        ensures
            match r {
                Ok(request) => {
                    &&& url_joined(self.endpoint@, heartbeat_path()) == Some(request.target@)
                    &&& request.body == HeartbeatMessage::from_spec(self)
                },
                Err(_) => url_joined(self.endpoint@, heartbeat_path()) is None,
            },
    {
        match url_join(self.endpoint.as_str(), "/heartbeat") {
            Ok(target) => Ok(HeartbeatRequest::new(target, self)),
            Err(e) => Err(e),
        }
    }
}

/// The time of the last exchange that the endpoint confirmed.
#[derive(Clone, Copy, Debug, PartialEq, Eq)]
pub struct LivenessTracker {
    last_seen: Option<Timestamp>,
}

impl View for LivenessTracker {
    type V = Option<Timestamp>;

    closed spec fn view(&self) -> Option<Timestamp> {
        self.last_seen
    }
}

impl LivenessTracker {
    /// A tracker that has seen no exchange yet.
    pub fn new() -> (tracker: Self)
        ensures
            tracker@ is None,
    {
        Self { last_seen: None }
    }

    /// Time of last successful exchange of data.
    pub fn last_seen(&self) -> (seen: Option<Timestamp>)
        ensures
            seen == self@,
    {
        self.last_seen
    }

    /// Records that an exchange was confirmed just now.
    pub fn update_last_seen(&mut self)
        ensures
            final(self)@ is Some,
    {
        self.update_last_seen_at(now());
    }

    /// Records that an exchange was confirmed at time `now`.
    pub fn update_last_seen_at(&mut self, now: Timestamp)
        ensures
            final(self)@ == Some(now),
    {
        self.last_seen = Some(now);
    }

    /// Handles the outcome of an exchange with the API. Returns the status
    /// code of success responses only, and records the current time for
    /// those; any other outcome leaves the record as it is.
    pub fn handle_response(&mut self, outcome: Result<u16, String>) -> (r: Option<u16>)
        ensures
            r is Some <==> confirmed(outcome),
            r matches Some(status) ==> outcome == Ok::<u16, String>(status),
            confirmed(outcome) ==> final(self)@ is Some,
            !confirmed(outcome) ==> final(self)@ == old(self)@,
    {
        match check_response(outcome) {
            Ok(status) => {
                self.update_last_seen();
                Some(status)
            },
            Err(_) => None,
        }
    }

    /// Handles the outcome of an exchange with the API that ended at time
    /// `now`. Returns the status code of success responses only, and records
    /// `now` for those; any other outcome leaves the record as it is.
    pub fn handle_response_at(&mut self, outcome: Result<u16, String>, now: Timestamp) -> (r:
        Option<u16>)
        ensures
            r == match outcome {
                Ok(status) => if status_is_success(status) {
                    Some(status)
                } else {
                    None
                },
                Err(_) => None,
            },
            final(self)@ == if confirmed(outcome) {
                Some(now)
            } else {
                old(self)@
            },
    {
        match check_response(outcome) {
            Ok(status) => {
                self.update_last_seen_at(now);
                Some(status)
            },
            Err(_) => None,
        }
    }
}

/// Reports the outcome of a delivery back: a confirmed delivery is recorded
/// with the current time and empties the bundle; any other outcome leaves
/// both the record and the messages as they are. Either way the delivery is
/// over. Tells whether the delivery was confirmed.
pub fn settle_delivery(
    bundle: &mut Bundle,
    tracker: &mut LivenessTracker,
    outcome: Result<u16, String>,
) -> (delivered: bool)
    ensures
        delivered == confirmed(outcome),
        final(bundle)@ == old(bundle)@.next(BundleEvent::Settled(delivered)).0,
        delivered ==> final(tracker)@ is Some,
        !delivered ==> final(tracker)@ == old(tracker)@,
{
    let delivered = tracker.handle_response(outcome).is_some();
    bundle.settle(delivered);
    delivered
}

/// Reports the outcome of a delivery that ended at time `now` back: a
/// confirmed delivery is recorded with that time and empties the bundle; any
/// other outcome leaves both the record and the messages as they are. Either
/// way the delivery is over. Tells whether the delivery was confirmed.
pub fn settle_delivery_at(
    bundle: &mut Bundle,
    tracker: &mut LivenessTracker,
    outcome: Result<u16, String>,
    now: Timestamp,
) -> (delivered: bool)
    ensures
        delivered == confirmed(outcome),
        final(bundle)@ == old(bundle)@.next(BundleEvent::Settled(delivered)).0,
        final(tracker)@ == if delivered {
            Some(now)
        } else {
            old(tracker)@
        },
{
    let delivered = tracker.handle_response_at(outcome, now).is_some();
    bundle.settle(delivered);
    delivered
}

} // verus!
