use libcdp::comm::sensor_broker::{
    contains_type, AnySensorMessage, HumidityMessage, MessageParseError, SensorMessage, SensorType,
    TemperatureMessage,
};

#[test]
fn decode_temperature_reads_big_endian_kelvin() {
    let msg = AnySensorMessage::decode("temperature", &vec![7, 0x01, 0x2c]).unwrap();
    assert_eq!(
        msg,
        AnySensorMessage::Temperature(TemperatureMessage { sensor_id: 7, kelvin: 300 })
    );
    assert_eq!(msg.sensor_id(), 7);
    assert_eq!(msg.sensor_type(), SensorType::Temperature);
}

#[test]
fn decode_temperature_extremes() {
    assert_eq!(
        AnySensorMessage::decode("temperature", &vec![0, 0, 0]),
        Ok(AnySensorMessage::Temperature(TemperatureMessage { sensor_id: 0, kelvin: 0 }))
    );
    assert_eq!(
        AnySensorMessage::decode("temperature", &vec![255, 255, 255]),
        Ok(AnySensorMessage::Temperature(TemperatureMessage { sensor_id: 255, kelvin: 65535 }))
    );
    assert_eq!(
        AnySensorMessage::decode("temperature", &vec![1, 0xff, 0x00]),
        Ok(AnySensorMessage::Temperature(TemperatureMessage { sensor_id: 1, kelvin: 0xff00 }))
    );
}

#[test]
fn decode_humidity_passes_percent_through() {
    let msg = AnySensorMessage::decode("humidity", &vec![3, 250]).unwrap();
    assert_eq!(msg, AnySensorMessage::Humidity(HumidityMessage { sensor_id: 3, humidity: 250 }));
    assert_eq!(msg.sensor_id(), 3);
    assert_eq!(msg.sensor_type(), SensorType::Humidity);
}

#[test]
fn decode_rejects_wrong_lengths() {
    assert_eq!(
        AnySensorMessage::decode("temperature", &vec![1]),
        Err(MessageParseError::BadLength(3, 1))
    );
    assert_eq!(
        AnySensorMessage::decode("humidity", &vec![1, 2, 3]),
        Err(MessageParseError::BadLength(2, 3))
    );
    assert_eq!(
        AnySensorMessage::decode("temperature", &vec![]),
        Err(MessageParseError::BadLength(3, 0))
    );
    assert_eq!(
        AnySensorMessage::decode("humidity", &vec![9]),
        Err(MessageParseError::BadLength(2, 1))
    );
}

#[test]
fn decode_rejects_unknown_topic() {
    assert_eq!(
        AnySensorMessage::decode("pressure", &vec![]),
        Err(MessageParseError::BadTopic("pressure".to_owned()))
    );
}

#[test]
fn decode_topic_match_is_case_sensitive() {
    assert_eq!(
        AnySensorMessage::decode("Temperature", &vec![1, 2, 3]),
        Err(MessageParseError::BadTopic("Temperature".to_owned()))
    );
    assert_eq!(
        AnySensorMessage::decode("humidity ", &vec![1, 2]),
        Err(MessageParseError::BadTopic("humidity ".to_owned()))
    );
    assert_eq!(
        AnySensorMessage::decode("", &vec![1, 2]),
        Err(MessageParseError::BadTopic("".to_owned()))
    );
}

#[test]
fn unknown_topic_is_reported_before_length() {
    assert_eq!(
        AnySensorMessage::decode("pressure", &vec![1, 2, 3, 4, 5]),
        Err(MessageParseError::BadTopic("pressure".to_owned()))
    );
}

#[test]
fn encode_writes_the_wire_layout() {
    let t = AnySensorMessage::Temperature(TemperatureMessage { sensor_id: 7, kelvin: 300 });
    assert_eq!(t.encode(), vec![7, 1, 44]);
    let h = AnySensorMessage::Humidity(HumidityMessage { sensor_id: 9, humidity: 55 });
    assert_eq!(h.encode(), vec![9, 55]);
    assert_eq!(TemperatureMessage { sensor_id: 1, kelvin: 0xabcd }.encode(), vec![1, 0xab, 0xcd]);
    assert_eq!(HumidityMessage { sensor_id: 2, humidity: 0 }.encode(), vec![2, 0]);
}

#[test]
fn decode_inverts_encode() {
    let readings = vec![
        AnySensorMessage::Temperature(TemperatureMessage { sensor_id: 0, kelvin: 0 }),
        AnySensorMessage::Temperature(TemperatureMessage { sensor_id: 12, kelvin: 273 }),
        AnySensorMessage::Temperature(TemperatureMessage { sensor_id: 255, kelvin: 65535 }),
        AnySensorMessage::Temperature(TemperatureMessage { sensor_id: 4, kelvin: 256 }),
        AnySensorMessage::Humidity(HumidityMessage { sensor_id: 0, humidity: 0 }),
        AnySensorMessage::Humidity(HumidityMessage { sensor_id: 77, humidity: 100 }),
        AnySensorMessage::Humidity(HumidityMessage { sensor_id: 255, humidity: 255 }),
    ];
    for reading in readings {
        let topic = reading.sensor_type().to_string();
        assert_eq!(AnySensorMessage::decode(&topic, &reading.encode()), Ok(reading));
    }
}

#[test]
fn encode_inverts_decode() {
    let payload = vec![42, 0x12, 0x34];
    let reading = AnySensorMessage::decode("temperature", &payload).unwrap();
    assert_eq!(reading.encode(), payload);
    let payload = vec![42, 101];
    let reading = AnySensorMessage::decode("humidity", &payload).unwrap();
    assert_eq!(reading.encode(), payload);
}

#[test]
fn sensor_types_and_their_topics() {
    assert_eq!(SensorType::all_types(), vec![SensorType::Temperature, SensorType::Humidity]);
    assert_eq!(SensorType::Temperature.to_string(), "temperature");
    assert_eq!(SensorType::Humidity.to_string(), "humidity");
    assert_eq!(SensorType::Temperature.topic_name(), "temperature");
    assert_eq!(SensorType::Humidity.topic_name(), "humidity");
    assert_eq!(SensorType::from_str("temperature"), Ok(SensorType::Temperature));
    assert_eq!(SensorType::from_str("humidity"), Ok(SensorType::Humidity));
    assert_eq!(SensorType::from_str("pressure"), Err(()));
    assert_eq!(SensorType::from_str("HUMIDITY"), Err(()));
    assert_eq!(SensorType::from_str(""), Err(()));
    for t in SensorType::all_types() {
        assert_eq!(SensorType::from_str(&t.to_string()), Ok(t));
    }
}

#[test]
fn sensor_type_of_a_message() {
    let t = AnySensorMessage::Temperature(TemperatureMessage { sensor_id: 1, kelvin: 2 });
    let h = AnySensorMessage::Humidity(HumidityMessage { sensor_id: 1, humidity: 2 });
    assert_eq!(SensorType::from(&t), SensorType::Temperature);
    assert_eq!(SensorType::from(&h), SensorType::Humidity);
}

#[test]
fn messages_convert_from_byte_vectors() {
    assert_eq!(
        TemperatureMessage::try_from(&vec![5, 1, 0]),
        Ok(TemperatureMessage { sensor_id: 5, kelvin: 256 })
    );
    assert_eq!(
        TemperatureMessage::try_from(vec![5, 0, 1]),
        Ok(TemperatureMessage { sensor_id: 5, kelvin: 1 })
    );
    assert_eq!(
        TemperatureMessage::try_from(vec![5, 0]),
        Err(MessageParseError::BadLength(3, 2))
    );
    assert_eq!(
        HumidityMessage::try_from(&vec![6, 66]),
        Ok(HumidityMessage { sensor_id: 6, humidity: 66 })
    );
    assert_eq!(HumidityMessage::try_from(vec![6]), Err(MessageParseError::BadLength(2, 1)));
    assert_eq!(
        HumidityMessage::try_from(vec![6, 1, 2, 3]),
        Err(MessageParseError::BadLength(2, 4))
    );
}

#[test]
fn sensor_ids_come_out_as_usize() {
    assert_eq!(TemperatureMessage { sensor_id: 200, kelvin: 1 }.get_sensor_id(), 200);
    assert_eq!(HumidityMessage { sensor_id: 0, humidity: 1 }.get_sensor_id(), 0);
}

#[test]
fn parse_errors_in_words() {
    assert_eq!(
        MessageParseError::BadLength(3, 1).to_string(),
        "Bad length! Expected 3, got 1."
    );
    assert_eq!(
        MessageParseError::BadLength(2, 1024).to_string(),
        "Bad length! Expected 2, got 1024."
    );
    assert_eq!(
        MessageParseError::BadLength(0, 90).to_string(),
        "Bad length! Expected 0, got 90."
    );
    assert_eq!(
        MessageParseError::BadTopic("pressure".to_owned()).to_string(),
        "Bad topic name \"pressure\"."
    );
}

#[test]
fn membership_in_a_list_of_types() {
    let both = SensorType::all_types();
    assert!(contains_type(&both, SensorType::Temperature));
    assert!(contains_type(&both, SensorType::Humidity));
    assert!(!contains_type(&vec![SensorType::Humidity], SensorType::Temperature));
    assert!(!contains_type(&vec![], SensorType::Humidity));
}
