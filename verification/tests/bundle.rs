use libcdp::broker::bundle::{Bundle, FlushAction, Trigger};
use libcdp::clock::Timestamp;
use libcdp::comm::broker_api::{BrokerMessage, BrokerMessagePayload};
use libcdp::comm::sensor_broker::{AnySensorMessage, TemperatureMessage};

fn envelope(n: u8) -> BrokerMessage {
    BrokerMessage::construct_at(
        1,
        BrokerMessagePayload::SensorData(AnySensorMessage::Temperature(TemperatureMessage {
            sensor_id: n,
            kelvin: 270 + n as u16,
        })),
        Timestamp { secs: 1000 + n as i64, nanos: 0 },
    )
}

#[test]
fn new_bundle_is_empty_and_idle() {
    let bundle = Bundle::new(3);
    assert_eq!(bundle.limit(), 3);
    assert_eq!(bundle.len(), 0);
    assert!(bundle.is_empty());
    assert!(!bundle.is_sending());
    assert_eq!(bundle.in_flight(), None);
    assert!(bundle.contents().is_empty());
}

#[test]
fn arrivals_below_the_limit_keep_their_order() {
    let mut bundle = Bundle::new(5);
    for n in 1..=4 {
        assert_eq!(bundle.append(envelope(n)), Ok(FlushAction::Keep));
    }
    assert_eq!(bundle.contents(), &vec![envelope(1), envelope(2), envelope(3), envelope(4)]);
    assert_eq!(bundle.len(), 4);
    assert!(!bundle.is_sending());
}

#[test]
fn size_trigger_fires_once_at_the_limit() {
    let mut bundle = Bundle::new(3);
    assert_eq!(bundle.append(envelope(1)), Ok(FlushAction::Keep));
    assert_eq!(bundle.append(envelope(2)), Ok(FlushAction::Keep));
    assert_eq!(bundle.append(envelope(3)), Ok(FlushAction::Deliver));
    assert_eq!(bundle.in_flight(), Some(Trigger::Size));
    assert_eq!(bundle.contents(), &vec![envelope(1), envelope(2), envelope(3)]);
    // The fourth has to wait for the delivery, and comes back untouched.
    assert_eq!(bundle.append(envelope(4)), Err(envelope(4)));
    assert_eq!(bundle.contents(), &vec![envelope(1), envelope(2), envelope(3)]);
    bundle.settle(true);
    assert!(bundle.is_empty());
    assert!(!bundle.is_sending());
    assert_eq!(bundle.append(envelope(4)), Ok(FlushAction::Keep));
    assert_eq!(bundle.contents(), &vec![envelope(4)]);
}

#[test]
fn failed_delivery_retains_the_bundle() {
    let mut bundle = Bundle::new(3);
    assert_eq!(bundle.append(envelope(1)), Ok(FlushAction::Keep));
    assert_eq!(bundle.append(envelope(2)), Ok(FlushAction::Keep));
    assert_eq!(bundle.append(envelope(3)), Ok(FlushAction::Deliver));
    bundle.settle(false);
    assert!(!bundle.is_sending());
    assert_eq!(bundle.contents(), &vec![envelope(1), envelope(2), envelope(3)]);
    // The next arrival joins the three that stayed and asks for a delivery again.
    assert_eq!(bundle.append(envelope(4)), Ok(FlushAction::Deliver));
    assert_eq!(
        bundle.contents(),
        &vec![envelope(1), envelope(2), envelope(3), envelope(4)]
    );
    bundle.settle(true);
    assert!(bundle.is_empty());
}

#[test]
fn timeout_flushes_an_empty_bundle() {
    for delivered in [true, false] {
        let mut bundle = Bundle::new(3);
        assert_eq!(bundle.request_flush(), FlushAction::Deliver);
        assert_eq!(bundle.in_flight(), Some(Trigger::Timeout));
        assert!(bundle.contents().is_empty());
        bundle.settle(delivered);
        assert!(bundle.is_empty());
        assert!(!bundle.is_sending());
    }
}

#[test]
fn timeout_flushes_whatever_is_there() {
    let mut bundle = Bundle::new(10);
    assert_eq!(bundle.append(envelope(1)), Ok(FlushAction::Keep));
    assert_eq!(bundle.request_flush(), FlushAction::Deliver);
    assert_eq!(bundle.contents(), &vec![envelope(1)]);
    bundle.settle(false);
    assert_eq!(bundle.contents(), &vec![envelope(1)]);
    assert_eq!(bundle.request_flush(), FlushAction::Deliver);
    bundle.settle(true);
    assert!(bundle.is_empty());
}

#[test]
fn second_trigger_waits_and_sees_the_outcome() {
    let mut bundle = Bundle::new(2);
    assert_eq!(bundle.append(envelope(1)), Ok(FlushAction::Keep));
    assert_eq!(bundle.append(envelope(2)), Ok(FlushAction::Deliver));
    // The timeout runs out while the size-triggered delivery is under way.
    assert_eq!(bundle.request_flush(), FlushAction::Wait);
    assert_eq!(bundle.in_flight(), Some(Trigger::Size));
    assert_eq!(bundle.contents(), &vec![envelope(1), envelope(2)]);
    bundle.settle(true);
    // Asked again, the timeout delivers what the first left: nothing.
    assert_eq!(bundle.request_flush(), FlushAction::Deliver);
    assert!(bundle.contents().is_empty());
    bundle.settle(true);

    let mut bundle = Bundle::new(2);
    assert_eq!(bundle.request_flush(), FlushAction::Deliver);
    assert_eq!(bundle.append(envelope(1)), Err(envelope(1)));
    bundle.settle(false);
    assert_eq!(bundle.append(envelope(1)), Ok(FlushAction::Keep));
    assert_eq!(bundle.contents(), &vec![envelope(1)]);
}

#[test]
fn settling_without_a_delivery_changes_nothing() {
    let mut bundle = Bundle::new(4);
    assert_eq!(bundle.append(envelope(1)), Ok(FlushAction::Keep));
    bundle.settle(true);
    assert_eq!(bundle.contents(), &vec![envelope(1)]);
    assert!(!bundle.is_sending());
}

#[test]
fn limits_of_zero_and_one_trigger_on_every_arrival() {
    for limit in [0, 1] {
        let mut bundle = Bundle::new(limit);
        assert_eq!(bundle.append(envelope(1)), Ok(FlushAction::Deliver));
        bundle.settle(true);
        assert_eq!(bundle.append(envelope(2)), Ok(FlushAction::Deliver));
        assert_eq!(bundle.contents(), &vec![envelope(2)]);
    }
}
