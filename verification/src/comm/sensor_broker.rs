//! Messages between sensors and brokers.
//!
//! A sensor publishes a short binary payload under the topic of its type.
//! This module holds the typed readings, the table that maps topics to
//! sensor types, and the codec between payload bytes and readings.

use crate::text::decimal;
use crate::text::decimal_digits;
use crate::text::same_text;
use vstd::prelude::*;
use vstd::std_specs::convert::FromSpecImpl;
use vstd::std_specs::convert::TryFromSpec;
use vstd::std_specs::convert::TryFromSpecImpl;
use vstd::string::StringExecFns;

verus! {

/// Types of measurement messages.
#[derive(Copy, Clone, Debug, PartialEq, Eq, Hash, Structural)]
pub enum SensorType {
    Temperature,
    Humidity,
}

/// Message sent by a temperature sensor.
#[derive(Clone, Copy, Debug, PartialEq, Eq, Structural)]
pub struct TemperatureMessage {
    /// Numeric ID of the sensor.
    pub sensor_id: u8,
    /// Temperature value in K.
    pub kelvin: u16,
}

/// Message sent by a humidity sensor.
#[derive(Clone, Copy, Debug, PartialEq, Eq, Structural)]
pub struct HumidityMessage {
    /// Numeric ID of the sensor.
    pub sensor_id: u8,
    /// Humidity value in relative humidity percentage.
    pub humidity: u8,
}

/// Any measurement message.
#[derive(Clone, Copy, Debug, PartialEq, Eq, Structural)]
pub enum AnySensorMessage {
    Temperature(TemperatureMessage),
    Humidity(HumidityMessage),
}

/// The kind of error you can get when parsing sensor messages from byte
/// sequences.
#[derive(Clone, Debug, PartialEq, Eq)]
pub enum MessageParseError {
    /// Bad length: expected first, got last.
    BadLength(usize, usize),
    /// Bad topic name.
    BadTopic(String),
}

/// What a `MessageParseError` says, with the topic as a sequence of
/// characters and the lengths as natural numbers.
pub enum ParseFailure {
    /// Bad length: expected first, got last.
    BadLength(nat, nat),
    /// Bad topic name.
    BadTopic(Seq<char>),
}

impl View for MessageParseError {
    type V = ParseFailure;

    open spec fn view(&self) -> ParseFailure {
        match self {
            MessageParseError::BadLength(expected, got) => ParseFailure::BadLength(
                *expected as nat,
                *got as nat,
            ),
            MessageParseError::BadTopic(topic) => ParseFailure::BadTopic(topic@),
        }
    }
}

impl ParseFailure {
    /// The failure in words.
    pub open spec fn description(self) -> Seq<char> {
        match self {
            ParseFailure::BadLength(expected, got) => "Bad length! Expected "@ + decimal_digits(
                expected,
            ) + ", got "@ + decimal_digits(got) + "."@,
            ParseFailure::BadTopic(topic) => "Bad topic name \""@ + topic + "\"."@,
        }
    }
}

impl MessageParseError {
    /// The error in words.
    pub fn to_string(&self) -> (text: String)
        ensures
            text@ == self@.description(),
    {
        match self {
            MessageParseError::BadLength(expected, got) => {
                let mut text = "Bad length! Expected ".to_owned();
                text.append(decimal(*expected).as_str());
                text.append(", got ");
                text.append(decimal(*got).as_str());
                text.append(".");
                text
            },
            MessageParseError::BadTopic(topic) => {
                let mut text = "Bad topic name \"".to_owned();
                text.append(topic.as_str());
                text.append("\".");
                text
            },
        }
    }
}

/// Every sensor type, in the order in which topics are subscribed to.
pub open spec fn all_sensor_types() -> Seq<SensorType> {
    seq![SensorType::Temperature, SensorType::Humidity]
}

impl SensorType {
    /// The topic under which sensors of this type publish.
    pub open spec fn topic(self) -> Seq<char> {
        match self {
            SensorType::Temperature => "temperature"@,
            SensorType::Humidity => "humidity"@,
        }
    }

    /// The number of bytes in a payload of this type.
    pub open spec fn payload_len(self) -> nat {
        match self {
            SensorType::Temperature => 3,
            SensorType::Humidity => 2,
        }
    }

    /// The sensor type that publishes under `topic`, if there is one. The
    /// match is exact and case-sensitive.
    pub open spec fn of_topic(topic: Seq<char>) -> Option<SensorType> {
        if topic == SensorType::Temperature.topic() {
            Some(SensorType::Temperature)
        } else if topic == SensorType::Humidity.topic() {
            Some(SensorType::Humidity)
        } else {
            None
        }
    }

    /// The message that a payload of this type's length stands for.
    pub open spec fn reading(self, data: Seq<u8>) -> AnySensorMessage
        recommends
            data.len() == self.payload_len(),
    {
        match self {
            SensorType::Temperature => AnySensorMessage::Temperature(
                TemperatureMessage::from_payload(data),
            ),
            SensorType::Humidity => AnySensorMessage::Humidity(HumidityMessage::from_payload(data)),
        }
    }

    /// Returns a vector with all types.
    pub fn all_types() -> (types: Vec<Self>)
        ensures
            types@ == all_sensor_types(),
    {
        let mut types: Vec<Self> = Vec::new();
        types.push(SensorType::Temperature);
        types.push(SensorType::Humidity);
        assert(types@ =~= all_sensor_types());
        types
    }

    /// The topic name of this type as a string slice.
    pub fn topic_name(&self) -> (name: &'static str)
        ensures
            name@ == self.topic(),
    {
        match self {
            SensorType::Temperature => "temperature",
            SensorType::Humidity => "humidity",
        }
    }

    /// The topic name of this type as an owned string.
    pub fn to_string(&self) -> (name: String)
        ensures
            name@ == self.topic(),
    {
        self.topic_name().to_owned()
    }

    /// Finds the sensor type whose topic name is `s`.
    pub fn from_str(s: &str) -> (r: Result<Self, ()>)
        ensures
            r.ok() == SensorType::of_topic(s@),
    {
        let types = Self::all_types();
        let mut i: usize = 0;
        while i < types.len()
            invariant
                i <= types.len(),
                types@ == all_sensor_types(),
                forall|j: int| 0 <= j < i ==> types@[j].topic() != s@,
            decreases types.len() - i,
        {
            let stype = types[i];
            if same_text(stype.topic_name(), s) {
                proof {
                    lemma_topics_differ();
                }
                return Ok(stype);
            }
            i += 1;
        }
        assert(all_sensor_types()[0].topic() != s@);
        assert(all_sensor_types()[1].topic() != s@);
        Err(())
    }
}

/// Tells whether `t` occurs in `types`.
pub fn contains_type(types: &Vec<SensorType>, t: SensorType) -> (found: bool)
    ensures
        found == types@.contains(t),
{
    let mut i: usize = 0;
    while i < types.len()
        invariant
            i <= types.len(),
            forall|j: int| 0 <= j < i ==> types@[j] != t,
        decreases types.len() - i,
    {
        if types[i] == t {
            return true;
        }
        i += 1;
    }
    false
}

/// The two topic names are different strings.
pub proof fn lemma_topics_differ()
    ensures
        SensorType::Temperature.topic() != SensorType::Humidity.topic(),
{
    reveal_strlit("temperature");
    reveal_strlit("humidity");
    assert("temperature"@.len() != "humidity"@.len());
}

/// Each sensor type is the one found under its own topic.
pub proof fn lemma_topic_round_trip(t: SensorType)
    ensures
        SensorType::of_topic(t.topic()) == Some(t),
{
    lemma_topics_differ();
}

impl TemperatureMessage {
    /// The reading that a three-byte payload stands for: the sensor's
    /// number, then the temperature as a big-endian 16-bit value.
    pub open spec fn from_payload(data: Seq<u8>) -> TemperatureMessage
        recommends
            data.len() == 3,
    {
        TemperatureMessage { sensor_id: data[0], kelvin: (data[1] * 256 + data[2]) as u16 }
    }

    /// The payload that stands for this reading.
    pub open spec fn payload(self) -> Seq<u8> {
        seq![self.sensor_id, (self.kelvin / 256) as u8, (self.kelvin % 256) as u8]
    }

    /// Writes the reading as the three bytes that a sensor would publish.
    pub fn encode(&self) -> (data: Vec<u8>)
        ensures
            data@ == self.payload(),
    {
        let k = self.kelvin;
        let hi: u8 = (k >> 8) as u8;
        let lo: u8 = (k & 0xff) as u8;
        assert(k >> 8 == k / 256 && k & 0xff == k % 256) by (bit_vector);
        let mut data: Vec<u8> = Vec::new();
        data.push(self.sensor_id);
        data.push(hi);
        data.push(lo);
        assert(data@ =~= self.payload());
        data
    }
}

impl HumidityMessage {
    /// The reading that a two-byte payload stands for: the sensor's number,
    /// then the relative humidity, taken as it comes.
    pub open spec fn from_payload(data: Seq<u8>) -> HumidityMessage
        recommends
            data.len() == 2,
    {
        HumidityMessage { sensor_id: data[0], humidity: data[1] }
    }

    /// The payload that stands for this reading.
    pub open spec fn payload(self) -> Seq<u8> {
        seq![self.sensor_id, self.humidity]
    }

    /// Writes the reading as the two bytes that a sensor would publish.
    pub fn encode(&self) -> (data: Vec<u8>)
        ensures
            data@ == self.payload(),
    {
        let mut data: Vec<u8> = Vec::new();
        data.push(self.sensor_id);
        data.push(self.humidity);
        assert(data@ =~= self.payload());
        data
    }
}

impl TryFrom<&Vec<u8>> for TemperatureMessage {
    /// What a payload of the wrong length gives.
    type Error = MessageParseError;

    /// Convert a three-byte sequence into a temperature message.
    fn try_from(data: &Vec<u8>) -> (r: Result<Self, Self::Error>) {
        if data.len() != 3 {
            Err(MessageParseError::BadLength(3, data.len()))
        } else {
            let e1: u8 = data[0];
            let e2: u16 = data[1] as u16;
            let e3: u16 = data[2] as u16;
            assert(e2 << 8 == e2 * 256) by (bit_vector)
                requires
                    e2 < 256,
            ;
            Ok(Self { sensor_id: e1, kelvin: (e2 << 8) + e3 })
        }
    }
}

impl TryFromSpecImpl<&Vec<u8>> for TemperatureMessage {
    open spec fn obeys_try_from_spec() -> bool {
        true
    }

    open spec fn try_from_spec(data: &Vec<u8>) -> Result<Self, MessageParseError> {
        if data@.len() != 3 {
            Err(MessageParseError::BadLength(3, data.len()))
        } else {
            Ok(TemperatureMessage::from_payload(data@))
        }
    }
}

impl TryFrom<Vec<u8>> for TemperatureMessage {
    type Error = MessageParseError;

    fn try_from(vec: Vec<u8>) -> (r: Result<Self, Self::Error>) {
        Self::try_from(&vec)
    }
}

impl TryFromSpecImpl<Vec<u8>> for TemperatureMessage {
    open spec fn obeys_try_from_spec() -> bool {
        true
    }

    open spec fn try_from_spec(vec: Vec<u8>) -> Result<Self, MessageParseError> {
        <TemperatureMessage as TryFromSpec<&Vec<u8>>>::try_from_spec(&vec)
    }
}

impl TryFrom<&Vec<u8>> for HumidityMessage {
    /// What a payload of the wrong length gives.
    type Error = MessageParseError;

    /// Convert a two-byte sequence into a humidity message.
    fn try_from(data: &Vec<u8>) -> (r: Result<Self, Self::Error>) {
        if data.len() != 2 {
            Err(MessageParseError::BadLength(2, data.len()))
        } else {
            Ok(Self { sensor_id: data[0], humidity: data[1] })
        }
    }
}

impl TryFromSpecImpl<&Vec<u8>> for HumidityMessage {
    open spec fn obeys_try_from_spec() -> bool {
        true
    }

    open spec fn try_from_spec(data: &Vec<u8>) -> Result<Self, MessageParseError> {
        if data@.len() != 2 {
            Err(MessageParseError::BadLength(2, data.len()))
        } else {
            Ok(HumidityMessage::from_payload(data@))
        }
    }
}

impl TryFrom<Vec<u8>> for HumidityMessage {
    type Error = MessageParseError;

    fn try_from(vec: Vec<u8>) -> (r: Result<Self, Self::Error>) {
        Self::try_from(&vec)
    }
}

impl TryFromSpecImpl<Vec<u8>> for HumidityMessage {
    open spec fn obeys_try_from_spec() -> bool {
        true
    }

    open spec fn try_from_spec(vec: Vec<u8>) -> Result<Self, MessageParseError> {
        <HumidityMessage as TryFromSpec<&Vec<u8>>>::try_from_spec(&vec)
    }
}

/// The kind of stuff all sensor messages can do.
pub trait SensorMessage: Copy + Clone + std::fmt::Debug + TryFrom<
    Vec<u8>,
    Error = MessageParseError,
> {
    /// The sensor's number.
    spec fn sensor_number(&self) -> u8;

    /// Return the sensor ID as an usize.
    fn get_sensor_id(&self) -> (id: usize)
        ensures
            id == self.sensor_number(),
    ;
}

impl SensorMessage for TemperatureMessage {
    open spec fn sensor_number(&self) -> u8 {
        self.sensor_id
    }

    fn get_sensor_id(&self) -> (id: usize) {
        self.sensor_id as usize
    }
}

impl SensorMessage for HumidityMessage {
    open spec fn sensor_number(&self) -> u8 {
        self.sensor_id
    }

    fn get_sensor_id(&self) -> (id: usize) {
        self.sensor_id as usize
    }
}

impl From<&AnySensorMessage> for SensorType {
    /// Extract the type of sensor from the message.
    fn from(msg: &AnySensorMessage) -> (t: Self) {
        match msg {
            AnySensorMessage::Temperature(_) => Self::Temperature,
            AnySensorMessage::Humidity(_) => Self::Humidity,
        }
    }
}

impl FromSpecImpl<&AnySensorMessage> for SensorType {
    open spec fn obeys_from_spec() -> bool {
        true
    }

    open spec fn from_spec(msg: &AnySensorMessage) -> Self {
        msg.kind()
    }
}

/// What decoding `data` under `topic` gives: the topic is looked up first,
/// then the length is held against that of the type, and only then are the
/// bytes read.
pub open spec fn decode_spec(topic: Seq<char>, data: Seq<u8>) -> Result<
    AnySensorMessage,
    ParseFailure,
> {
    match SensorType::of_topic(topic) {
        None => Err(ParseFailure::BadTopic(topic)),
        Some(t) => if data.len() != t.payload_len() {
            Err(ParseFailure::BadLength(t.payload_len(), data.len()))
        } else {
            Ok(t.reading(data))
        },
    }
}

/// The result of a decode with its error taken by its view.
pub open spec fn decoded_view(r: Result<AnySensorMessage, MessageParseError>) -> Result<
    AnySensorMessage,
    ParseFailure,
> {
    match r {
        Ok(msg) => Ok(msg),
        Err(e) => Err(e@),
    }
}

impl AnySensorMessage {
    /// The type of sensor behind the message.
    pub open spec fn kind(&self) -> SensorType {
        match self {
            AnySensorMessage::Temperature(_) => SensorType::Temperature,
            AnySensorMessage::Humidity(_) => SensorType::Humidity,
        }
    }

    /// The number of the sensor that sent the message.
    pub open spec fn sensor_number(&self) -> u8 {
        match self {
            AnySensorMessage::Temperature(tm) => tm.sensor_id,
            AnySensorMessage::Humidity(hm) => hm.sensor_id,
        }
    }

    /// The payload that stands for this message.
    pub open spec fn payload(&self) -> Seq<u8> {
        match self {
            AnySensorMessage::Temperature(tm) => tm.payload(),
            AnySensorMessage::Humidity(hm) => hm.payload(),
        }
    }

    /// Returns the type of sensor behind the message.
    pub fn sensor_type(&self) -> (t: SensorType)
        ensures
            t == self.kind(),
    {
        SensorType::from(self)
    }

    /// Decodes the sensor message from a topic name and a byte sequence.
    pub fn decode(topic: &str, data: &Vec<u8>) -> (r: Result<AnySensorMessage, MessageParseError>)
        ensures
            decoded_view(r) == decode_spec(topic@, data@),
    {
        if same_text(topic, "temperature") {
            match TemperatureMessage::try_from(data) {
                Ok(tm) => Ok(AnySensorMessage::Temperature(tm)),
                Err(e) => Err(e),
            }
        } else if same_text(topic, "humidity") {
            proof {
                lemma_topics_differ();
            }
            match HumidityMessage::try_from(data) {
                Ok(hm) => Ok(AnySensorMessage::Humidity(hm)),
                Err(e) => Err(e),
            }
        } else {
            Err(MessageParseError::BadTopic(topic.to_owned()))
        }
    }

    /// Writes the message as the bytes that a sensor would publish under the
    /// topic of the message's type.
    pub fn encode(&self) -> (data: Vec<u8>)
        ensures
            data@ == self.payload(),
    {
        match self {
            AnySensorMessage::Temperature(tm) => tm.encode(),
            AnySensorMessage::Humidity(hm) => hm.encode(),
        }
    }

    /// Returns the sensor ID within.
    pub fn sensor_id(&self) -> (id: usize)
        ensures
            id == self.sensor_number(),
    {
        match self {
            AnySensorMessage::Temperature(tm) => tm.get_sensor_id(),
            AnySensorMessage::Humidity(hm) => hm.get_sensor_id(),
        }
    }
}

/// A message that is encoded and then decoded under the topic of its type
/// comes back unchanged.
pub proof fn lemma_decode_encode(msg: AnySensorMessage)
    ensures
        decode_spec(msg.kind().topic(), msg.payload()) == Ok::<AnySensorMessage, ParseFailure>(
            msg,
        ),
{
    lemma_topic_round_trip(msg.kind());
    match msg {
        AnySensorMessage::Temperature(tm) => {
            let k = tm.kelvin;
            assert((k / 256) * 256 + k % 256 == k);
        },
        AnySensorMessage::Humidity(hm) => {},
    }
}

/// A payload that decodes is the encoding of what it decodes to, and its
/// topic is that of the decoded message's type.
pub proof fn lemma_encode_decode(topic: Seq<char>, data: Seq<u8>, msg: AnySensorMessage)
    requires
        decode_spec(topic, data) == Ok::<AnySensorMessage, ParseFailure>(msg),
    ensures
        msg.payload() == data,
        msg.kind().topic() == topic,
{
    match msg {
        AnySensorMessage::Temperature(tm) => {
            let hi = data[1];
            let lo = data[2];
            assert((hi * 256 + lo) / 256 == hi && (hi * 256 + lo) % 256 == lo);
            assert(msg.payload() =~= data);
        },
        AnySensorMessage::Humidity(hm) => {
            assert(msg.payload() =~= data);
        },
    }
}

} // verus!
