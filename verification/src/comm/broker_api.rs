//! Messages between brokers and APIs.

use crate::clock::now;
use crate::clock::Timestamp;
use crate::comm::sensor_broker::AnySensorMessage;
use vstd::prelude::*;
use vstd::std_specs::convert::FromSpecImpl;

verus! {

/// A heartbeat message. Carries key and uuid.
#[derive(Debug, PartialEq, Eq)]
pub struct HeartbeatMessage {
    /// The unique id of the broker.
    pub uid: u128,
    /// The API access secret key.
    pub key: Option<String>,
}

/// Payload that can be sent upstream.
#[derive(Debug, PartialEq, Eq)]
pub enum BrokerMessagePayload {
    /// Message is sensor data.
    SensorData(AnySensorMessage),
    /// Message is a mere heartbeat. Will send key and uuid for checking.
    Heartbeat(HeartbeatMessage),
}

/// Type of payload that can be sent upstream.
#[derive(Copy, Clone, Debug, PartialEq, Eq, Hash, Structural)]
pub enum BrokerMessagePayloadType {
    SensorData,
    Heartbeat,
}

/// Message to be sent upstream.
#[derive(Debug, PartialEq, Eq)]
pub struct BrokerMessage {
    /// When this message was constructed. Set by the broker.
    pub constructed_when: Timestamp,
    /// When this message was sent.
    pub sent_when: Option<Timestamp>,
    /// When this message was received. Set by the API.
    pub received_when: Option<Timestamp>,
    /// A copy of the broker unique ID.
    pub broker_id: u128,
    /// The payload.
    pub payload: BrokerMessagePayload,
}

/// A bundle of messages to be sent upstream.
pub type BrokerMessageBundle = Vec<BrokerMessage>;

impl Clone for HeartbeatMessage {
    fn clone(&self) -> (copy: Self)
        ensures
            copy == *self,
    {
        HeartbeatMessage { uid: self.uid, key: self.key.clone() }
    }
}

impl Clone for BrokerMessagePayload {
    fn clone(&self) -> (copy: Self)
        ensures
            copy == *self,
    {
        match self {
            BrokerMessagePayload::SensorData(reading) => BrokerMessagePayload::SensorData(*reading),
            BrokerMessagePayload::Heartbeat(beat) => BrokerMessagePayload::Heartbeat(beat.clone()),
        }
    }
}

impl Clone for BrokerMessage {
    fn clone(&self) -> (copy: Self)
        ensures
            copy == *self,
    {
        BrokerMessage {
            constructed_when: self.constructed_when,
            sent_when: self.sent_when,
            received_when: self.received_when,
            broker_id: self.broker_id,
            payload: self.payload.clone(),
        }
    }
}

impl BrokerMessagePayload {
    /// The type of this payload.
    pub open spec fn kind(&self) -> BrokerMessagePayloadType {
        match self {
            BrokerMessagePayload::SensorData(_) => BrokerMessagePayloadType::SensorData,
            BrokerMessagePayload::Heartbeat(_) => BrokerMessagePayloadType::Heartbeat,
        }
    }
}

impl BrokerMessagePayloadType {
    /// The name of the payload type.
    pub open spec fn name(self) -> Seq<char> {
        match self {
            BrokerMessagePayloadType::SensorData => "sensor_data"@,
            BrokerMessagePayloadType::Heartbeat => "heartbeat"@,
        }
    }

    /// The name of the payload type as an owned string.
    pub fn to_string(&self) -> (name: String)
        ensures
            name@ == self.name(),
    {
        match self {
            BrokerMessagePayloadType::SensorData => "sensor_data".to_owned(),
            BrokerMessagePayloadType::Heartbeat => "heartbeat".to_owned(),
        }
    }
}

impl From<&BrokerMessagePayload> for BrokerMessagePayloadType {
    fn from(pl: &BrokerMessagePayload) -> (t: Self) {
        match pl {
            BrokerMessagePayload::SensorData(_) => Self::SensorData,
            BrokerMessagePayload::Heartbeat(_) => Self::Heartbeat,
        }
    }
}

impl FromSpecImpl<&BrokerMessagePayload> for BrokerMessagePayloadType {
    open spec fn obeys_from_spec() -> bool {
        true
    }

    open spec fn from_spec(pl: &BrokerMessagePayload) -> Self {
        pl.kind()
    }
}

impl BrokerMessage {
    /// The message that a broker builds at time `now`: neither sent nor
    /// received yet.
    pub open spec fn fresh(
        broker_id: u128,
        payload: BrokerMessagePayload,
        now: Timestamp,
    ) -> BrokerMessage {
        BrokerMessage {
            constructed_when: now,
            sent_when: None,
            received_when: None,
            broker_id: broker_id,
            payload: payload,
        }
    }

    /// Construct a BrokerMessage from the viewpoint of the broker, stamped
    /// with the current time.
    pub fn construct(broker_id: u128, payload: BrokerMessagePayload) -> (msg: Self)
        ensures
            msg == BrokerMessage::fresh(broker_id, payload, msg.constructed_when),
    {
        Self::construct_at(broker_id, payload, now())
    }

    /// Construct a BrokerMessage from the viewpoint of the broker, stamped
    /// with the time given.
    pub fn construct_at(broker_id: u128, payload: BrokerMessagePayload, now: Timestamp) -> (msg:
        Self)
        ensures
            msg == BrokerMessage::fresh(broker_id, payload, now),
    {
        Self {
            constructed_when: now,
            sent_when: None,
            received_when: None,
            broker_id: broker_id,
            payload: payload,
        }
    }

    /// Returns the payload type.
    pub fn payload_type(&self) -> (t: BrokerMessagePayloadType)
        ensures
            t == self.payload.kind(),
    {
        BrokerMessagePayloadType::from(&self.payload)
    }

    /// The same message, marked as received at time `now`.
    pub fn received_at(self, now: Timestamp) -> (msg: Self)
        ensures
            msg == (BrokerMessage { received_when: Some(now), ..self }),
    {
        let mut msg = self;
        msg.received_when = Some(now);
        msg
    }
}

} // verus!
