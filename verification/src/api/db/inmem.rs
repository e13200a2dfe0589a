//! Implements a simple in-memory database: the topics that the endpoint
//! cares about, and every message that it received, in the order of
//! receipt.

use crate::clock::now;
use crate::clock::Timestamp;
use crate::comm::broker_api::BrokerMessage;
use crate::comm::broker_api::BrokerMessagePayload;
use crate::comm::broker_api::BrokerMessagePayloadType;
use crate::comm::sensor_broker::all_sensor_types;
use crate::comm::sensor_broker::contains_type;
use crate::comm::sensor_broker::AnySensorMessage;
use crate::comm::sensor_broker::SensorType;
use vstd::prelude::*;

verus! {

/// The underlying data as a mathematical value.
pub struct StoredData {
    /// The topics that the endpoint cares about.
    pub topics: Set<SensorType>,
    /// The messages received, oldest first.
    pub messages: Seq<BrokerMessage>,
}

/// The sensor reading that a message carries, if it carries one of the given
/// type.
pub open spec fn reading_of_type(msg: BrokerMessage, stype: SensorType) -> Option<
    AnySensorMessage,
> {
    match msg.payload {
        BrokerMessagePayload::SensorData(sd) => if sd.kind() == stype {
            Some(sd)
        } else {
            None
        },
        _ => None,
    }
}

/// The messages of `msgs`, each marked as received at the time in the same
/// place of `times`.
pub open spec fn received(msgs: Seq<BrokerMessage>, times: Seq<Timestamp>) -> Seq<BrokerMessage>
    recommends
        times.len() == msgs.len(),
{
    Seq::new(
        msgs.len(),
        |i: int| (BrokerMessage { received_when: Some(times[i]), ..msgs[i] }),
    )
}

/// The underlying data for the simple in-memory database.
#[derive(Clone, Debug)]
pub struct UnderlyingData {
    topics: Vec<SensorType>,
    messages: Vec<BrokerMessage>,
}

impl View for UnderlyingData {
    type V = StoredData;

    closed spec fn view(&self) -> StoredData {
        StoredData { topics: self.topics@.to_set(), messages: self.messages@ }
    }
}

/// Copies a list of sensor types, leaving out what occurred before.
fn without_repeats(list: &Vec<SensorType>) -> (kept: Vec<SensorType>)
    ensures
        kept@.no_duplicates(),
        kept@.to_set() == list@.to_set(),
{
    let mut kept: Vec<SensorType> = Vec::new();
    let mut i: usize = 0;
    assert(list@.take(0) =~= Seq::<SensorType>::empty());
    while i < list.len()
        invariant
            i <= list.len(),
            kept@.no_duplicates(),
            kept@.to_set() =~= list@.take(i as int).to_set(),
        decreases list.len() - i,
    {
        let t = list[i];
        let seen = contains_type(&kept, t);
        proof {
            assert(list@.take(i + 1) =~= list@.take(i as int).push(t));
            list@.take(i as int).lemma_push_to_set_commute(t);
        }
        if !seen {
            proof {
                kept@.lemma_push_to_set_commute(t);
            }
            kept.push(t);
        } else {
            assert(kept@.to_set().contains(t));
            assert(kept@.to_set().insert(t) =~= kept@.to_set());
        }
        i += 1;
    }
    assert(list@.take(i as int) =~= list@);
    kept
}

impl UnderlyingData {
    /// Creates a new in-memory database, optionally with preloaded topics.
    pub fn new(topics: Vec<SensorType>) -> (data: Self)
        ensures
            data@.topics == topics@.to_set(),
            data@.messages == Seq::<BrokerMessage>::empty(),
    {
        Self { topics: without_repeats(&topics), messages: Vec::new() }
    }

    /// Return topics we care about, each once.
    pub fn topics(&self) -> (topics: Vec<SensorType>)
        ensures
            topics@.to_set() == self@.topics,
            topics@.no_duplicates(),
    {
        without_repeats(&self.topics)
    }

    /// Update the list of topics we care about: the new topics take the
    /// place of the old ones.
    pub fn update_topics(&mut self, new_topics: Vec<SensorType>)
        ensures
            final(self)@.topics == new_topics@.to_set(),
            final(self)@.messages == old(self)@.messages,
    {
        self.topics = without_repeats(&new_topics);
    }

    /// Get all broker messages of a certain type, in the order of receipt.
    pub fn messages_by_type(&self, mtype: BrokerMessagePayloadType) -> (found: Vec<BrokerMessage>)
        ensures
            found@ == self@.messages.filter(|m: BrokerMessage| m.payload.kind() == mtype),
    {
        let ghost wanted = |m: BrokerMessage| m.payload.kind() == mtype;
        let mut found: Vec<BrokerMessage> = Vec::new();
        let mut i: usize = 0;
        assert(self.messages@.take(0) =~= Seq::<BrokerMessage>::empty());
        while i < self.messages.len()
            invariant
                i <= self.messages.len(),
                wanted == |m: BrokerMessage| m.payload.kind() == mtype,
                found@ == self.messages@.take(i as int).filter(wanted),
            decreases self.messages.len() - i,
        {
            let m = &self.messages[i];
            proof {
                assert(self.messages@.take(i + 1) =~= self.messages@.take(i as int).push(*m));
                self.messages@.take(i as int).lemma_filter_push(*m, wanted);
            }
            if m.payload_type() == mtype {
                found.push(m.clone());
            }
            i += 1;
        }
        assert(self.messages@.take(i as int) =~= self.messages@);
        found
    }

    /// Get all sensor messages of a certain sensor type, in the order of
    /// receipt.
    pub fn sensor_messages_by_type(&self, stype: SensorType) -> (found: Vec<AnySensorMessage>)
        ensures
            found@ == self@.messages.filter_map(|m: BrokerMessage| reading_of_type(m, stype)),
    {
        let ghost pick = |m: BrokerMessage| reading_of_type(m, stype);
        let mut found: Vec<AnySensorMessage> = Vec::new();
        let mut i: usize = 0;
        assert(self.messages@.take(0) =~= Seq::<BrokerMessage>::empty());
        while i < self.messages.len()
            invariant
                i <= self.messages.len(),
                pick == |m: BrokerMessage| reading_of_type(m, stype),
                found@ == self.messages@.take(i as int).filter_map(pick),
            decreases self.messages.len() - i,
        {
            proof {
                self.messages@.lemma_filter_map_take_succ(pick, i as int);
            }
            match &self.messages[i].payload {
                BrokerMessagePayload::SensorData(sd) => {
                    if sd.sensor_type() == stype {
                        found.push(*sd);
                    }
                },
                _ => {},
            }
            i += 1;
        }
        assert(self.messages@.take(i as int) =~= self.messages@);
        found
    }

    /// Insert a message into the database.
    pub fn insert_message(&mut self, msg: BrokerMessage)
        ensures
            final(self)@.messages == old(self)@.messages.push(msg),
            final(self)@.topics == old(self)@.topics,
    {
        self.messages.push(msg);
    }

    /// Takes in a bundle that a broker sent home: each message is marked as
    /// received at the time at which its turn comes, and inserted.
    pub fn receive_bundle(&mut self, msgs: Vec<BrokerMessage>)
        ensures
            final(self)@.topics == old(self)@.topics,
            exists|times: Seq<Timestamp>|
                times.len() == msgs@.len() && #[trigger] final(self)@.messages == old(
                    self,
                )@.messages + received(msgs@, times),
    {
        let ghost mut times: Seq<Timestamp> = Seq::empty();
        let mut i: usize = 0;
        assert(old(self)@.messages + received(msgs@.take(0), times) =~= old(self)@.messages);
        while i < msgs.len()
            invariant
                i <= msgs.len(),
                times.len() == i,
                self@.topics == old(self)@.topics,
                self@.messages == old(self)@.messages + received(msgs@.take(i as int), times),
            decreases msgs.len() - i,
        {
            let at = now();
            let ghost before = times;
            proof {
                times = times.push(at);
            }
            self.insert_message(msgs[i].clone().received_at(at));
            assert(received(msgs@.take(i as int), before).push(
                BrokerMessage { received_when: Some(at), ..msgs@[i as int] },
            ) =~= received(msgs@.take(i + 1), times));
            i += 1;
        }
        assert(msgs@.take(i as int) =~= msgs@);
    }

    /// Takes in a bundle that a broker sent home at time `at`: each message
    /// is marked as received then, and inserted.
    pub fn receive_bundle_at(&mut self, msgs: Vec<BrokerMessage>, at: Timestamp)
        ensures
            final(self)@.topics == old(self)@.topics,
            final(self)@.messages == old(self)@.messages + received(
                msgs@,
                Seq::new(msgs@.len(), |i: int| at),
            ),
    {
        let ghost times = Seq::new(msgs@.len(), |i: int| at);
        let mut i: usize = 0;
        assert(old(self)@.messages + received(msgs@.take(0), times.take(0)) =~= old(
            self,
        )@.messages);
        while i < msgs.len()
            invariant
                i <= msgs.len(),
                times == Seq::new(msgs@.len(), |i: int| at),
                self@.topics == old(self)@.topics,
                self@.messages == old(self)@.messages + received(
                    msgs@.take(i as int),
                    times.take(i as int),
                ),
            decreases msgs.len() - i,
        {
            self.insert_message(msgs[i].clone().received_at(at));
            assert(received(msgs@.take(i as int), times.take(i as int)).push(
                BrokerMessage { received_when: Some(at), ..msgs@[i as int] },
            ) =~= received(msgs@.take(i + 1), times.take(i + 1)));
            i += 1;
        }
        assert(msgs@.take(i as int) =~= msgs@);
        assert(times.take(i as int) =~= times);
    }
}

impl Default for UnderlyingData {
    /// The default database has the topics list filled to have all supported
    /// sensor types.
    fn default() -> (data: Self)
        ensures
            data@.topics == all_sensor_types().to_set(),
            data@.messages == Seq::<BrokerMessage>::empty(),
    {
        UnderlyingData::new(SensorType::all_types())
    }
}

} // verus!
