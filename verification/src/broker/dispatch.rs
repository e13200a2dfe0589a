//! From what the transport delivers to messages for the bundle.
//!
//! The transport hands over a topic and a payload in chunks. The dispatcher
//! resolves the topic, drops what the broker is not asked to send home,
//! decodes the payload and wraps the reading in a message.

use crate::broker::config::BrokerConfig;
use crate::clock::now;
use crate::clock::Timestamp;
use crate::comm::broker_api::BrokerMessage;
use crate::comm::broker_api::BrokerMessagePayload;
use crate::comm::sensor_broker::AnySensorMessage;
use crate::comm::sensor_broker::MessageParseError;
use crate::comm::sensor_broker::SensorType;
use vstd::prelude::*;

verus! {

/// Why a delivery from the transport was dropped.
#[derive(Clone, Debug, PartialEq, Eq)]
pub enum Dropped {
    /// The topic is no sensor type.
    BadTopic,
    /// The topic is a sensor type that the broker is not asked to send home.
    /// This is no error.
    NotSubscribed(SensorType),
    /// The payload does not decode.
    BadData(MessageParseError),
}

/// The bytes of a payload that came in chunks.
pub open spec fn payload_bytes(chunks: Seq<Vec<u8>>) -> Seq<u8> {
    chunks.map_values(|chunk: Vec<u8>| chunk@).flatten()
}

/// Joins the chunks of a payload.
pub fn join_chunks(chunks: &Vec<Vec<u8>>) -> (bytes: Vec<u8>)
    ensures
        bytes@ == payload_bytes(chunks@),
{
    let ghost views = chunks@.map_values(|chunk: Vec<u8>| chunk@);
    let mut bytes: Vec<u8> = Vec::new();
    let mut i: usize = 0;
    assert(views.take(0) =~= Seq::<Seq<u8>>::empty());
    while i < chunks.len()
        invariant
            i <= chunks.len(),
            views == chunks@.map_values(|chunk: Vec<u8>| chunk@),
            bytes@ == views.take(i as int).flatten(),
        decreases chunks.len() - i,
    {
        let chunk = &chunks[i];
        let ghost before = bytes@;
        let mut j: usize = 0;
        while j < chunk.len()
            invariant
                j <= chunk.len(),
                bytes@ == before + chunk@.take(j as int),
            decreases chunk.len() - j,
        {
            bytes.push(chunk[j]);
            assert(chunk@.take(j as int).push(chunk@[j as int]) =~= chunk@.take(j + 1));
            j += 1;
        }
        proof {
            assert(chunk@.take(j as int) =~= chunk@);
            assert(views.take(i + 1) =~= views.take(i as int).push(views[i as int]));
            views.take(i as int).lemma_flatten_push(views[i as int]);
        }
        i += 1;
    }
    assert(views.take(i as int) =~= views);
    bytes
}

impl BrokerConfig {
    /// The reading that a delivery of `data` under `topic` stands for, or why
    /// the delivery is dropped. The topic is resolved first, then held
    /// against the topics to send home, and then the payload is decoded.
    pub open spec fn screened(&self, topic: Seq<char>, data: Seq<u8>) -> Result<
        AnySensorMessage,
        Dropped,
    > {
        match SensorType::of_topic(topic) {
            None => Err(Dropped::BadTopic),
            Some(t) => if !self.subscribed(t) {
                Err(Dropped::NotSubscribed(t))
            } else if data.len() != t.payload_len() {
                Err(
                    Dropped::BadData(
                        MessageParseError::BadLength(t.payload_len() as usize, data.len() as usize),
                    ),
                )
            } else {
                Ok(t.reading(data))
            },
        }
    }

    /// The message that a delivery of `data` under `topic` at time `now`
    /// leads to, or why the delivery is dropped.
    pub open spec fn dispatched(&self, topic: Seq<char>, data: Seq<u8>, now: Timestamp) -> Result<
        BrokerMessage,
        Dropped,
    > {
        match self.screened(topic, data) {
            Ok(reading) => Ok(
                BrokerMessage::fresh(self.uid, BrokerMessagePayload::SensorData(reading), now),
            ),
            Err(why) => Err(why),
        }
    }

    /// Resolves the topic of a delivery, holds it against the topics to send
    /// home, and decodes the payload.
    pub fn screen(&self, topic: &str, payload: &Vec<Vec<u8>>) -> (r: Result<
        AnySensorMessage,
        Dropped,
    >)
        ensures
            r == self.screened(topic@, payload_bytes(payload@)),
    {
        match SensorType::from_str(topic) {
            Ok(st) => {
                if self.is_subscribed(st) {
                    let pbytes = join_chunks(payload);
                    match AnySensorMessage::decode(topic, &pbytes) {
                        Ok(reading) => Ok(reading),
                        Err(e) => Err(Dropped::BadData(e)),
                    }
                } else {
                    Err(Dropped::NotSubscribed(st))
                }
            },
            Err(_) => Err(Dropped::BadTopic),
        }
    }

    /// Wraps a payload in a message of this broker, stamped with the current
    /// time.
    pub fn enqueue(&self, payload: BrokerMessagePayload) -> (msg: BrokerMessage)
        ensures
            msg == BrokerMessage::fresh(self.uid, payload, msg.constructed_when),
    {
        BrokerMessage::construct(self.uid, payload)
    }

    /// Turns a delivery from the transport into a message for the bundle,
    /// stamped with the current time, or says why it is dropped.
    pub fn dispatch(&self, topic: &str, payload: &Vec<Vec<u8>>) -> (r: Result<
        BrokerMessage,
        Dropped,
    >)
        ensures
            match r {
                Ok(msg) => r == self.dispatched(
                    topic@,
                    payload_bytes(payload@),
                    msg.constructed_when,
                ),
                Err(why) => self.screened(topic@, payload_bytes(payload@)) == Err::<
                    AnySensorMessage,
                    Dropped,
                >(why),
            },
    {
        match self.screen(topic, payload) {
            Ok(reading) => Ok(self.enqueue(BrokerMessagePayload::SensorData(reading))),
            Err(why) => Err(why),
        }
    }

    /// Turns a delivery from the transport at time `now` into a message for
    /// the bundle, or says why it is dropped.
    pub fn dispatch_at(&self, topic: &str, payload: &Vec<Vec<u8>>, now: Timestamp) -> (r: Result<
        BrokerMessage,
        Dropped,
    >)
        ensures
            r == self.dispatched(topic@, payload_bytes(payload@), now),
    {
        match self.screen(topic, payload) {
            Ok(reading) => Ok(
                BrokerMessage::construct_at(
                    self.uid,
                    BrokerMessagePayload::SensorData(reading),
                    now,
                ),
            ),
            Err(why) => Err(why),
        }
    }
}

} // verus!
