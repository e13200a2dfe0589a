use libcdp::clock::Timestamp;
use libcdp::comm::broker_api::{
    BrokerMessage, BrokerMessagePayload, BrokerMessagePayloadType, HeartbeatMessage,
};
use libcdp::comm::sensor_broker::{AnySensorMessage, HumidityMessage};

fn reading() -> BrokerMessagePayload {
    BrokerMessagePayload::SensorData(AnySensorMessage::Humidity(HumidityMessage {
        sensor_id: 4,
        humidity: 40,
    }))
}

fn beat() -> BrokerMessagePayload {
    BrokerMessagePayload::Heartbeat(HeartbeatMessage { uid: 99, key: Some("k".to_owned()) })
}

#[test]
fn construct_at_sets_every_field() {
    let now = Timestamp { secs: 1_700_000_000, nanos: 5 };
    let msg = BrokerMessage::construct_at(17, reading(), now);
    assert_eq!(
        msg,
        BrokerMessage {
            constructed_when: now,
            sent_when: None,
            received_when: None,
            broker_id: 17,
            payload: reading(),
        }
    );
}

#[test]
fn construct_stamps_the_current_time() {
    let msg = BrokerMessage::construct(17, beat());
    assert_eq!(msg.sent_when, None);
    assert_eq!(msg.received_when, None);
    assert_eq!(msg.broker_id, 17);
    assert_eq!(msg.payload, beat());
    // Later than 2020-09-13, when the epoch time passed 1.6 billion seconds.
    assert!(msg.constructed_when.secs > 1_600_000_000);
    assert!(msg.constructed_when.nanos < 2_000_000_000);
    let later = BrokerMessage::construct(17, beat());
    assert!(later.constructed_when.secs >= msg.constructed_when.secs);
}

#[test]
fn payload_types() {
    let now = Timestamp { secs: 0, nanos: 0 };
    assert_eq!(
        BrokerMessage::construct_at(1, reading(), now).payload_type(),
        BrokerMessagePayloadType::SensorData
    );
    assert_eq!(
        BrokerMessage::construct_at(1, beat(), now).payload_type(),
        BrokerMessagePayloadType::Heartbeat
    );
    assert_eq!(BrokerMessagePayloadType::from(&reading()), BrokerMessagePayloadType::SensorData);
    assert_eq!(BrokerMessagePayloadType::from(&beat()), BrokerMessagePayloadType::Heartbeat);
    assert_eq!(BrokerMessagePayloadType::SensorData.to_string(), "sensor_data");
    assert_eq!(BrokerMessagePayloadType::Heartbeat.to_string(), "heartbeat");
}

#[test]
fn received_at_sets_only_the_receipt() {
    let made = Timestamp { secs: 10, nanos: 1 };
    let got = Timestamp { secs: 12, nanos: 2 };
    let msg = BrokerMessage::construct_at(3, reading(), made).received_at(got);
    assert_eq!(
        msg,
        BrokerMessage {
            constructed_when: made,
            sent_when: None,
            received_when: Some(got),
            broker_id: 3,
            payload: reading(),
        }
    );
}

#[test]
fn clones_are_equal() {
    let msg = BrokerMessage::construct_at(3, beat(), Timestamp { secs: 1, nanos: 2 });
    assert_eq!(msg.clone(), msg);
    let msg = BrokerMessage::construct_at(3, reading(), Timestamp { secs: 1, nanos: 2 });
    assert_eq!(msg.clone(), msg);
    let hb = HeartbeatMessage { uid: 5, key: None };
    assert_eq!(hb.clone(), hb);
}
