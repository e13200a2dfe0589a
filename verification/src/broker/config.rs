//! Broker configuration: the settings as they lie in the file, and the
//! settings after parsing and checks.

use crate::broker::endpoint::url_parse;
use crate::broker::endpoint::url_normal_form;
use crate::comm::broker_api::HeartbeatMessage;
use crate::comm::sensor_broker::contains_type;
use crate::comm::sensor_broker::SensorType;
use crate::text::texts;
use vstd::prelude::*;
use vstd::std_specs::convert::FromSpecImpl;

verus! {

/// Makes `uuid::Error` known as a type. An error of that type is carried as
/// it comes: nothing is claimed of what it holds.
#[verifier::external_type_specification]
#[verifier::external_body]
pub struct ExUuidError(uuid::Error);

/// Makes `config::ConfigError` known as a type. An error of that type is
/// carried as it comes: nothing is claimed of what it holds.
#[verifier::external_type_specification]
#[verifier::external_body]
pub struct ExConfigError(config::ConfigError);

/// The identifier that `uuid::Uuid::parse_str` reads from `text`, as the
/// 128-bit number that `Uuid::as_u128` gives for it, or `None` where `text`
/// is not the text of an identifier.
pub uninterp spec fn uuid_value(text: Seq<char>) -> Option<u128>;

/// Calls `uuid::Uuid::parse_str` on `text` and turns the identifier into a
/// number with `Uuid::as_u128`.
///
/// The contract only gives the outcome its name: the same text always parses
/// the same way.
#[verifier::external_body]
fn uuid_parse(text: &str) -> (r: Result<u128, uuid::Error>)
    ensures
        match r {
            Ok(id) => uuid_value(text@) == Some(id),
            Err(_) => uuid_value(text@) is None,
        },
{
    match uuid::Uuid::parse_str(text) {
        Ok(id) => Ok(id.as_u128()),
        Err(e) => Err(e),
    }
}

/// Draws a random identifier with `uuid::Uuid::new_v4` and writes it out
/// with its `to_string`.
///
/// The identifier is random: nothing is claimed of the text.
#[verifier::external_body]
fn uuid_fresh_text() -> (text: String) {
    uuid::Uuid::new_v4().to_string()
}

/// The broker config as it lies within the file.
#[derive(Clone, Debug, PartialEq, Eq)]
pub struct BrokerConfigFile {
    /// What topics to subscribe to and send home.
    pub topics: Vec<String>,
    /// Access key for the HTTP target. None means no authentication.
    pub home_key: Option<String>,
    /// The server to contact when phoning home.
    pub endpoint: String,
    /// Bundle size for the endpoint. Accumulate messages and send no more than
    /// said amount.
    pub bundle_size: usize,
    /// Bundle timeout for the endpoint. Ensures messages are sent even if
    /// bundle_size has not been reached.
    pub bundle_timeout_msec: usize,
    /// Buffer size for the endpoint channel.
    pub buffer_size_bundles: usize,
    /// Heartbeat interval for the endpoint. None means no auto heartbeat.
    pub heartbeat_interval_secs: Option<usize>,
    /// This broker's unique identifier. Should be random and static.
    pub uid: String,
}

/// Now, the broker config after some parsing and checks.
#[derive(Clone, Debug, PartialEq, Eq)]
pub struct BrokerConfig {
    /// What topics to subscribe to and send home.
    pub topics: Vec<SensorType>,
    /// Access key for the HTTP target. None means no authentication.
    pub home_key: Option<String>,
    /// The server to contact when phoning home, as a parsed address written
    /// out.
    pub endpoint: String,
    /// Bundle size for the endpoint. Accumulate messages and send no more than
    /// said amount.
    pub bundle_size: usize,
    /// Bundle timeout for the endpoint, in milliseconds. Ensures messages are
    /// sent even if bundle_size has not been reached.
    pub bundle_timeout_msec: u64,
    /// Buffer size for the endpoint channel.
    pub buffer_size_bundles: usize,
    /// Heartbeat interval for the endpoint, in seconds. None means no auto
    /// heartbeat.
    pub heartbeat_interval_secs: Option<u64>,
    /// This broker's unique identifier. Should be random and static.
    pub uid: u128,
}

/// An error that can arise while parsing BrokerConfigFile into BrokerConfig.
#[derive(Debug)]
pub enum BrokerConfigParseError {
    /// Meaning the endpoint URL has a syntax error of some sort.
    BadEndpointUrl(url::ParseError),
    /// Meaning the uuid for the broker was malformed.
    BadBrokerUuid(uuid::Error),
    /// Listed topic is not a valid sensor type.
    BadSensorType(String),
    /// An error caught by the config crate.
    ConfigError(config::ConfigError),
}

impl From<config::ConfigError> for BrokerConfigParseError {
    fn from(cfgerr: config::ConfigError) -> (e: Self) {
        Self::ConfigError(cfgerr)
    }
}

impl FromSpecImpl<config::ConfigError> for BrokerConfigParseError {
    open spec fn obeys_from_spec() -> bool {
        true
    }

    open spec fn from_spec(cfgerr: config::ConfigError) -> Self {
        BrokerConfigParseError::ConfigError(cfgerr)
    }
}

impl Default for BrokerConfigFile {
    /// Returns an example configuration with sane values, good for generating
    /// a brand-new configuration file. The identifier in it is drawn at
    /// random.
    fn default() -> (file: Self)
        ensures
            file.topics@.len() == 0,
            file.home_key matches Some(key) && key@ == "<ACCESS KEY GOES HERE>"@,
            file.endpoint@ == "<ENDPOINT URL GOES HERE>"@,
            file.bundle_size == 10,
            file.bundle_timeout_msec == 5000,
            file.buffer_size_bundles == 10,
            file.heartbeat_interval_secs == Some(30usize),
    {
        Self {
            topics: Vec::new(),
            home_key: Some("<ACCESS KEY GOES HERE>".to_owned()),
            endpoint: "<ENDPOINT URL GOES HERE>".to_owned(),
            bundle_size: 10,
            bundle_timeout_msec: 5000,
            buffer_size_bundles: 10,
            heartbeat_interval_secs: Some(30),
            uid: uuid_fresh_text(),
        }
    }
}

/// Tells whether `i` is the place of the first name in `names` that is no
/// topic.
pub open spec fn first_unknown_topic(names: Seq<Seq<char>>, i: int) -> bool {
    &&& 0 <= i < names.len()
    &&& SensorType::of_topic(names[i]) is None
    &&& forall|j: int| 0 <= j < i ==> SensorType::of_topic(names[j]) is Some
}

/// Tells whether `types` holds, place by place, the sensor types that the
/// topics in `names` stand for.
pub open spec fn topics_resolve_to(names: Seq<Seq<char>>, types: Seq<SensorType>) -> bool {
    &&& types.len() == names.len()
    &&& forall|i: int| 0 <= i < names.len() ==> SensorType::of_topic(names[i]) == Some(types[i])
}

/// Tells whether every name in `names` is a topic.
pub open spec fn topics_known(names: Seq<Seq<char>>) -> bool {
    forall|i: int| 0 <= i < names.len() ==> SensorType::of_topic(#[trigger] names[i]) is Some
}

/// Resolves a list of topic names, stopping at the first that is no topic.
pub fn parse_topics(names: &Vec<String>) -> (r: Result<Vec<SensorType>, String>)
    ensures
        match r {
            Ok(types) => topics_resolve_to(texts(names@), types@),
            Err(name) => exists|i: int|
                first_unknown_topic(texts(names@), i) && name@ == #[trigger] names[i]@,
        },
{
    let ghost all = texts(names@);
    let mut topics: Vec<SensorType> = Vec::new();
    let mut i: usize = 0;
    while i < names.len()
        invariant
            i <= names.len(),
            topics@.len() == i,
            all == texts(names@),
            forall|j: int|
                0 <= j < i ==> SensorType::of_topic(#[trigger] all[j]) == Some(topics@[j]),
        decreases names.len() - i,
    {
        let name = &names[i];
        assert(all[i as int] == name@);
        match SensorType::from_str(name.as_str()) {
            Ok(st) => topics.push(st),
            Err(_) => {
                assert(first_unknown_topic(all, i as int));
                return Err(name.clone());
            },
        }
        i += 1;
    }
    Ok(topics)
}

impl BrokerConfigFile {
    /// Returns the endpoint URL, properly parsed (if correct).
    pub fn endpoint_url(&self) -> (r: Result<String, url::ParseError>)
        ensures
            match r {
                Ok(address) => url_normal_form(self.endpoint@) == Some(address@),
                Err(_) => url_normal_form(self.endpoint@) is None,
            },
    {
        url_parse(self.endpoint.as_str())
    }
}

impl BrokerConfig {
    /// The options that a file stands for, once its topics, its endpoint and
    /// its identifier have been read to `topics`, `endpoint` and `uid`.
    pub open spec fn from_parts(
        cfg: BrokerConfigFile,
        topics: Vec<SensorType>,
        endpoint: String,
        uid: u128,
    ) -> BrokerConfig {
        BrokerConfig {
            topics: topics,
            home_key: cfg.home_key,
            endpoint: endpoint,
            bundle_size: cfg.bundle_size,
            bundle_timeout_msec: cfg.bundle_timeout_msec as u64,
            buffer_size_bundles: cfg.buffer_size_bundles,
            heartbeat_interval_secs: match cfg.heartbeat_interval_secs {
                Some(secs) => Some(secs as u64),
                None => None,
            },
            uid: uid,
        }
    }

    /// Puts the options together from the file and from what reading its
    /// topics, its endpoint and its identifier gave. A bad topic is reported
    /// before a bad endpoint, and a bad endpoint before a bad identifier.
    pub fn assemble(
        cfg: &BrokerConfigFile,
        topics: Result<Vec<SensorType>, String>,
        endpoint: Result<String, url::ParseError>,
        uid: Result<u128, uuid::Error>,
    ) -> (r: Result<Self, BrokerConfigParseError>)
        ensures
            match (topics, endpoint, uid) {
                (Err(name), _, _) => r matches Err(BrokerConfigParseError::BadSensorType(n))
                    && n == name,
                (Ok(_), Err(e), _) => r matches Err(BrokerConfigParseError::BadEndpointUrl(f))
                    && f == e,
                (Ok(_), Ok(_), Err(e)) => r matches Err(BrokerConfigParseError::BadBrokerUuid(f))
                    && f == e,
                (Ok(types), Ok(address), Ok(id)) => r matches Ok(made) && made
                    == BrokerConfig::from_parts(*cfg, types, address, id),
            },
    {
        let topics = match topics {
            Ok(types) => types,
            Err(name) => {
                return Err(BrokerConfigParseError::BadSensorType(name));
            },
        };
        let endpoint = match endpoint {
            Ok(address) => address,
            Err(e) => {
                return Err(BrokerConfigParseError::BadEndpointUrl(e));
            },
        };
        let uid = match uid {
            Ok(id) => id,
            Err(e) => {
                return Err(BrokerConfigParseError::BadBrokerUuid(e));
            },
        };
        Ok(
            Self {
                topics: topics,
                home_key: cfg.home_key.clone(),
                endpoint: endpoint,
                bundle_size: cfg.bundle_size,
                bundle_timeout_msec: cfg.bundle_timeout_msec as u64,
                buffer_size_bundles: cfg.buffer_size_bundles,
                heartbeat_interval_secs: match cfg.heartbeat_interval_secs {
                    Some(secs) => Some(secs as u64),
                    None => None,
                },
                uid: uid,
            },
        )
    }

    /// Attempt converting the file-parsed struct into the actual options.
    ///
    /// The conversion succeeds exactly when every listed topic is a sensor
    /// type, the endpoint parses as an address and the identifier parses as
    /// a UUID. Otherwise the first of these that fails is reported.
    pub fn try_from(cfg: &BrokerConfigFile) -> (r: Result<Self, BrokerConfigParseError>)
        ensures
            match r {
                Ok(made) => {
                    &&& topics_known(texts(cfg.topics@))
                    &&& topics_resolve_to(texts(cfg.topics@), made.topics@)
                    &&& url_normal_form(cfg.endpoint@) == Some(made.endpoint@)
                    &&& uuid_value(cfg.uid@) == Some(made.uid)
                    &&& made == BrokerConfig::from_parts(
                        *cfg,
                        made.topics,
                        made.endpoint,
                        made.uid,
                    )
                },
                Err(BrokerConfigParseError::BadSensorType(name)) => exists|i: int|
                    first_unknown_topic(texts(cfg.topics@), i) && name@
                        == #[trigger] cfg.topics[i]@,
                Err(BrokerConfigParseError::BadEndpointUrl(_)) => {
                    &&& topics_known(texts(cfg.topics@))
                    &&& url_normal_form(cfg.endpoint@) is None
                },
                Err(BrokerConfigParseError::BadBrokerUuid(_)) => {
                    &&& topics_known(texts(cfg.topics@))
                    &&& url_normal_form(cfg.endpoint@) is Some
                    &&& uuid_value(cfg.uid@) is None
                },
                Err(BrokerConfigParseError::ConfigError(_)) => false,
            },
    {
        let topics = parse_topics(&cfg.topics);
        let endpoint = cfg.endpoint_url();
        let uid = uuid_parse(cfg.uid.as_str());
        Self::assemble(cfg, topics, endpoint, uid)
    }

    /// Tells whether `t` is among the topics to send home.
    pub open spec fn subscribed(&self, t: SensorType) -> bool {
        self.topics@.contains(t)
    }

    /// Tells whether messages of type `t` are to be sent home.
    pub fn is_subscribed(&self, t: SensorType) -> (yes: bool)
        ensures
            yes == self.subscribed(t),
    {
        contains_type(&self.topics, t)
    }

    /// The capacity of the channel that feeds the bundle: room for
    /// `buffer_size_bundles` bundles of `bundle_size` messages.
    pub fn channel_capacity(&self) -> (capacity: usize)
        requires
            self.bundle_size * self.buffer_size_bundles <= usize::MAX,
        ensures
            capacity == self.bundle_size * self.buffer_size_bundles,
    {
        self.bundle_size * self.buffer_size_bundles
    }
}

impl From<&BrokerConfig> for HeartbeatMessage {
    /// Allow creation of a HeartbeatMessage directly from broker config.
    fn from(cfg: &BrokerConfig) -> (msg: Self) {
        Self { uid: cfg.uid, key: cfg.home_key.clone() }
    }
}

impl FromSpecImpl<&BrokerConfig> for HeartbeatMessage {
    open spec fn obeys_from_spec() -> bool {
        true
    }

    open spec fn from_spec(cfg: &BrokerConfig) -> Self {
        HeartbeatMessage { uid: cfg.uid, key: cfg.home_key }
    }
}

} // verus!
