use libcdp::api::config::{ApiConfig, ApiConfigFile, ApiConfigParseError};
use libcdp::api::db::inmem::UnderlyingData;
use libcdp::api::db::ApiDatabaseType;
use libcdp::clock::Timestamp;
use libcdp::comm::broker_api::{
    BrokerMessage, BrokerMessagePayload, BrokerMessagePayloadType, HeartbeatMessage,
};
use libcdp::comm::sensor_broker::{
    AnySensorMessage, HumidityMessage, SensorType, TemperatureMessage,
};

fn temperature(n: u8) -> AnySensorMessage {
    AnySensorMessage::Temperature(TemperatureMessage { sensor_id: n, kelvin: 300 })
}

fn humidity(n: u8) -> AnySensorMessage {
    AnySensorMessage::Humidity(HumidityMessage { sensor_id: n, humidity: 50 })
}

fn sensor_msg(reading: AnySensorMessage) -> BrokerMessage {
    BrokerMessage::construct_at(
        1,
        BrokerMessagePayload::SensorData(reading),
        Timestamp { secs: 10, nanos: 0 },
    )
}

fn beat_msg() -> BrokerMessage {
    BrokerMessage::construct_at(
        1,
        BrokerMessagePayload::Heartbeat(HeartbeatMessage { uid: 1, key: None }),
        Timestamp { secs: 11, nanos: 0 },
    )
}

#[test]
fn database_types_by_name() {
    assert_eq!(ApiDatabaseType::all_types(), vec![ApiDatabaseType::InMemory]);
    assert_eq!(ApiDatabaseType::InMemory.to_string(), "in_memory");
    assert_eq!(ApiDatabaseType::from_str("in_memory"), Ok(ApiDatabaseType::InMemory));
    assert_eq!(ApiDatabaseType::from_str("in_memor"), Err(()));
    assert_eq!(ApiDatabaseType::from_str("postgres"), Err(()));
}

#[test]
fn default_binds() {
    let binds = vec!["0.0.0.0:9869".to_owned(), "[::]:9869".to_owned()];
    assert_eq!(ApiConfigFile::default().binds, binds);
    assert_eq!(ApiConfig::default().binds, binds);
}

#[test]
fn api_config_takes_the_binds_over() {
    let file = ApiConfigFile { binds: vec!["127.0.0.1:80".to_owned()] };
    let cfg = ApiConfig::try_from(file.clone()).unwrap();
    assert_eq!(cfg.binds, file.binds);
}

#[test]
fn api_config_errors_wrap_those_of_the_loader() {
    let e = ApiConfigParseError::from(config::ConfigError::Message("broken".to_owned()));
    assert!(matches!(e, ApiConfigParseError::ConfigError(_)));
}

#[test]
fn a_new_store_holds_topics_and_no_messages() {
    let data = UnderlyingData::new(vec![
        SensorType::Humidity,
        SensorType::Humidity,
        SensorType::Temperature,
        SensorType::Humidity,
    ]);
    assert_eq!(data.topics(), vec![SensorType::Humidity, SensorType::Temperature]);
    assert!(data.messages_by_type(BrokerMessagePayloadType::SensorData).is_empty());
    assert!(data.messages_by_type(BrokerMessagePayloadType::Heartbeat).is_empty());
    assert!(UnderlyingData::new(vec![]).topics().is_empty());
}

#[test]
fn the_default_store_cares_about_every_topic() {
    let mut topics = UnderlyingData::default().topics();
    topics.sort_by_key(|t| t.to_string());
    assert_eq!(topics, vec![SensorType::Humidity, SensorType::Temperature]);
}

#[test]
fn topics_are_replaced() {
    let mut data = UnderlyingData::default();
    data.insert_message(beat_msg());
    data.update_topics(vec![SensorType::Temperature, SensorType::Temperature]);
    assert_eq!(data.topics(), vec![SensorType::Temperature]);
    data.update_topics(vec![]);
    assert!(data.topics().is_empty());
    assert_eq!(data.messages_by_type(BrokerMessagePayloadType::Heartbeat), vec![beat_msg()]);
}

#[test]
fn messages_are_found_by_type_in_order() {
    let mut data = UnderlyingData::default();
    data.insert_message(sensor_msg(temperature(1)));
    data.insert_message(beat_msg());
    data.insert_message(sensor_msg(humidity(2)));
    data.insert_message(sensor_msg(temperature(3)));
    assert_eq!(
        data.messages_by_type(BrokerMessagePayloadType::SensorData),
        vec![sensor_msg(temperature(1)), sensor_msg(humidity(2)), sensor_msg(temperature(3))]
    );
    assert_eq!(data.messages_by_type(BrokerMessagePayloadType::Heartbeat), vec![beat_msg()]);
    assert_eq!(
        data.sensor_messages_by_type(SensorType::Temperature),
        vec![temperature(1), temperature(3)]
    );
    assert_eq!(data.sensor_messages_by_type(SensorType::Humidity), vec![humidity(2)]);
}

#[test]
fn a_bundle_is_marked_as_received() {
    let at = Timestamp { secs: 500, nanos: 5 };
    let mut data = UnderlyingData::default();
    data.insert_message(beat_msg());
    data.receive_bundle_at(vec![sensor_msg(humidity(1)), sensor_msg(temperature(2))], at);
    assert_eq!(
        data.messages_by_type(BrokerMessagePayloadType::SensorData),
        vec![
            sensor_msg(humidity(1)).received_at(at),
            sensor_msg(temperature(2)).received_at(at)
        ]
    );
    assert_eq!(data.messages_by_type(BrokerMessagePayloadType::Heartbeat), vec![beat_msg()]);
    data.receive_bundle_at(vec![], at);
    assert_eq!(data.messages_by_type(BrokerMessagePayloadType::SensorData).len(), 2);
}

#[test]
fn a_bundle_is_marked_with_the_current_time() {
    let mut data = UnderlyingData::default();
    data.receive_bundle(vec![sensor_msg(humidity(1)), sensor_msg(temperature(2))]);
    let stored = data.messages_by_type(BrokerMessagePayloadType::SensorData);
    assert_eq!(stored.len(), 2);
    let sent = vec![sensor_msg(humidity(1)), sensor_msg(temperature(2))];
    for (got, was) in stored.iter().zip(sent.iter()) {
        let at = got.received_when.unwrap();
        assert!(at.secs > 1_600_000_000);
        assert_eq!(got, &was.clone().received_at(at));
    }
}
