//! Dummy configuration.

use crate::comm::sensor_broker::SensorType;
use crate::text::same_text;
use rand::Rng;
use vstd::prelude::*;
use vstd::std_specs::convert::FromSpecImpl;
use vstd::string::StringExecFns;

verus! {

/// Draws a number from `0` up to, but not including, `bound`, with
/// `rand::Rng::gen_range` on the generator that `rand::thread_rng` gives.
///
/// The number is random: the contract only says that it lies in the range.
/// An empty range is left out, as `gen_range` panics on it.
#[verifier::external_body]
fn random_below(bound: u128) -> (drawn: u128)
    requires
        bound > 0,
    ensures
        drawn < bound,
{
    rand::thread_rng().gen_range(0..bound)
}

/// Tosses a fair coin with `rand::Rng::gen_ratio`, one in two, on the
/// generator that `rand::thread_rng` gives. Nothing is claimed of the
/// outcome.
#[verifier::external_body]
fn coin_flip() -> (heads: bool) {
    rand::thread_rng().gen_ratio(1, 2)
}

/// Dummy sensor mode of operation.
#[derive(Copy, Clone, Debug, PartialEq, Eq, Structural)]
pub enum DummyMode {
    /// Constantly output the minimum value in the set range.
    ConstantMin,
    /// Constantly output the maximum value in the set range.
    ConstantMax,
    /// Output random values from the set range.
    Random,
}

/// Every dummy mode.
pub open spec fn all_dummy_modes() -> Seq<DummyMode> {
    seq![DummyMode::ConstantMin, DummyMode::ConstantMax, DummyMode::Random]
}

impl DummyMode {
    /// The name of the mode.
    pub open spec fn name(self) -> Seq<char> {
        match self {
            DummyMode::ConstantMin => "constant_min"@,
            DummyMode::ConstantMax => "constant_max"@,
            DummyMode::Random => "random"@,
        }
    }

    /// The mode that goes by `name`, if there is one.
    pub open spec fn of_name(name: Seq<char>) -> Option<DummyMode> {
        if name == DummyMode::ConstantMin.name() {
            Some(DummyMode::ConstantMin)
        } else if name == DummyMode::ConstantMax.name() {
            Some(DummyMode::ConstantMax)
        } else if name == DummyMode::Random.name() {
            Some(DummyMode::Random)
        } else {
            None
        }
    }

    /// Returns all dummy modes.
    pub fn all_modes() -> (modes: Vec<Self>)
        ensures
            modes@ == all_dummy_modes(),
    {
        let mut modes: Vec<Self> = Vec::new();
        modes.push(DummyMode::ConstantMin);
        modes.push(DummyMode::ConstantMax);
        modes.push(DummyMode::Random);
        assert(modes@ =~= all_dummy_modes());
        modes
    }

    /// The name of the mode as a string slice.
    pub fn mode_name(&self) -> (name: &'static str)
        ensures
            name@ == self.name(),
    {
        match self {
            DummyMode::ConstantMin => "constant_min",
            DummyMode::ConstantMax => "constant_max",
            DummyMode::Random => "random",
        }
    }

    /// The name of the mode as an owned string.
    pub fn to_string(&self) -> (name: String)
        ensures
            name@ == self.name(),
    {
        self.mode_name().to_owned()
    }

    /// Finds the mode that goes by the name `s`.
    pub fn from_str(s: &str) -> (r: Result<Self, ()>)
        ensures
            r.ok() == DummyMode::of_name(s@),
    {
        let modes = Self::all_modes();
        let mut i: usize = 0;
        while i < modes.len()
            invariant
                i <= modes.len(),
                modes@ == all_dummy_modes(),
                forall|j: int| 0 <= j < i ==> modes@[j].name() != s@,
            decreases modes.len() - i,
        {
            let mode = modes[i];
            if same_text(mode.mode_name(), s) {
                proof {
                    lemma_mode_names_differ();
                }
                return Ok(mode);
            }
            i += 1;
        }
        assert(all_dummy_modes()[0].name() != s@);
        assert(all_dummy_modes()[1].name() != s@);
        assert(all_dummy_modes()[2].name() != s@);
        Err(())
    }
}

/// No two modes go by the same name.
pub proof fn lemma_mode_names_differ()
    ensures
        DummyMode::ConstantMin.name() != DummyMode::ConstantMax.name(),
        DummyMode::ConstantMin.name() != DummyMode::Random.name(),
        DummyMode::ConstantMax.name() != DummyMode::Random.name(),
{
    reveal_strlit("constant_min");
    reveal_strlit("constant_max");
    reveal_strlit("random");
    assert("constant_min"@[10] != "constant_max"@[10]);
    assert("constant_min"@.len() != "random"@.len());
    assert("constant_max"@.len() != "random"@.len());
}

/// Configuration for a single dummy sensor, as it lies within the file.
#[derive(Clone, Debug, PartialEq, Eq)]
pub struct DummyConfigFile {
    /// The target broker's address.
    pub broker_address: String,
    /// The target broker's port.
    pub broker_port: u16,
    /// Value selection mode.
    pub mode: String,
    /// List of values that the dummy can output as (number, bytelen).
    pub values: Vec<(usize, u8)>,
    /// The topic/sensor type to output.
    pub topic: String,
    /// The time interval between sends.
    pub interval_msecs: usize,
    /// A jitter for the interval.
    pub interval_jitter_msecs: usize,
}

impl Default for DummyConfigFile {
    fn default() -> (file: Self)
        ensures
            file.broker_address@ == "localhost"@,
            file.broker_port == 9869,
            file.mode@ == "random"@,
            file.values@.len() == 0,
            file.topic@ == "<INSERT TOPIC HERE>"@,
            file.interval_msecs == 1000,
            file.interval_jitter_msecs == 500,
    {
        Self {
            broker_address: "localhost".to_owned(),
            broker_port: 9869,
            mode: "random".to_owned(),
            values: Vec::new(),
            topic: "<INSERT TOPIC HERE>".to_owned(),
            interval_msecs: 1000,
            interval_jitter_msecs: 500,
        }
    }
}

/// Configuration for a single dummy sensor, after parsing.
#[derive(Clone, Debug, PartialEq, Eq)]
pub struct DummyConfig {
    /// The target broker's address.
    pub broker_address: String,
    /// The target broker's port.
    pub broker_port: u16,
    /// The value selection mode, parsed.
    pub mode: DummyMode,
    /// List of payloads to send.
    pub payloads: Vec<Vec<u8>>,
    /// The topic/sensor type to output.
    pub topic: SensorType,
    /// The time interval between sends, in milliseconds.
    pub interval_msecs: u64,
    /// A jitter for the interval, in milliseconds.
    pub interval_jitter_msecs: u64,
}

/// Errors that can be found when parsing a config file.
#[derive(Debug)]
pub enum DummyConfigError {
    /// Upper error caused by the Config crate.
    ConfigError(config::ConfigError),
    /// Sensor type string not recognized.
    BadSensorType(String),
    /// Bad value mode.
    BadModeName(String),
}

impl From<config::ConfigError> for DummyConfigError {
    fn from(ce: config::ConfigError) -> (e: Self) {
        DummyConfigError::ConfigError(ce)
    }
}

impl FromSpecImpl<config::ConfigError> for DummyConfigError {
    open spec fn obeys_from_spec() -> bool {
        true
    }

    open spec fn from_spec(ce: config::ConfigError) -> Self {
        DummyConfigError::ConfigError(ce)
    }
}

impl DummyConfigError {
    /// The error in words. For an error of the `config` crate the words
    /// between the quotes are that crate's own.
    pub fn to_string(&self) -> (text: String)
        ensures
            match self {
                DummyConfigError::ConfigError(_) => exists|words: Seq<char>|
                    text@ == "ConfigError: \""@ + words + "\"!"@,
                DummyConfigError::BadSensorType(s) => text@ == "Bad sensor type \""@ + s@
                    + "\"!"@,
                DummyConfigError::BadModeName(s) => text@ == "Bad sensor mode \""@ + s@ + "\"!"@,
            },
    {
        match self {
            DummyConfigError::ConfigError(ce) => {
                let words = ce.to_string();
                let mut text = "ConfigError: \"".to_owned();
                text.append(words.as_str());
                text.append("\"!");
                assert(text@ == "ConfigError: \""@ + words@ + "\"!"@);
                text
            },
            DummyConfigError::BadSensorType(s) => {
                let mut text = "Bad sensor type \"".to_owned();
                text.append(s.as_str());
                text.append("\"!");
                text
            },
            DummyConfigError::BadModeName(s) => {
                let mut text = "Bad sensor mode \"".to_owned();
                text.append(s.as_str());
                text.append("\"!");
                text
            },
        }
    }
}

/// The number `v` with its `k` lowest bytes dropped.
pub open spec fn shifted(v: nat, k: nat) -> nat
    decreases k,
{
    if k == 0 {
        v
    } else {
        shifted(v, (k - 1) as nat) / 256
    }
}

/// The number of bytes in a `usize`.
pub open spec fn value_width() -> nat {
    (usize::BITS / 8) as nat
}

/// The payload of `len` bytes that a value stands for: the lowest bytes of
/// the value, as many as fit, highest first, and zeros behind them where
/// `len` is more than a value has bytes.
pub open spec fn value_payload(v: usize, len: nat) -> Seq<u8> {
    let kept = if len < value_width() {
        len
    } else {
        value_width()
    };
    Seq::new(
        len,
        |i: int|
            if i < kept {
                (shifted(v as nat, (kept - 1 - i) as nat) % 256) as u8
            } else {
                0u8
            },
    )
}

/// Turns a value into a payload of `len` bytes.
pub fn payload_from_value(v: usize, len: u8) -> (payload: Vec<u8>)
    ensures
        payload@ == value_payload(v, len as nat),
{
    let width: usize = (usize::BITS / 8) as usize;
    let len: usize = len as usize;
    let kept: usize = if len < width {
        len
    } else {
        width
    };
    let mut low: Vec<u8> = Vec::new();
    let mut rest: usize = v;
    let mut k: usize = 0;
    while k < kept
        invariant
            k <= kept,
            low@.len() == k,
            rest == shifted(v as nat, k as nat),
            forall|j: int| 0 <= j < k ==> low@[j] == (shifted(v as nat, j as nat) % 256) as u8,
        decreases kept - k,
    {
        low.push((rest % 256) as u8);
        rest = rest / 256;
        k += 1;
    }
    let mut payload: Vec<u8> = Vec::new();
    let mut i: usize = 0;
    while i < kept
        invariant
            i <= kept,
            low@.len() == kept,
            payload@.len() == i,
            forall|j: int| 0 <= j < i ==> payload@[j] == low@[kept - 1 - j],
        decreases kept - i,
    {
        payload.push(low[kept - 1 - i]);
        i += 1;
    }
    while i < len
        invariant
            kept <= i <= len,
            payload@.len() == i,
            forall|j: int| 0 <= j < kept ==> payload@[j] == low@[kept - 1 - j],
            forall|j: int| kept <= j < i ==> payload@[j] == 0u8,
        decreases len - i,
    {
        payload.push(0);
        i += 1;
    }
    assert(payload@ =~= value_payload(v, len as nat));
    payload
}

/// The payloads that a list of values with their lengths stands for.
pub open spec fn value_payloads(values: Seq<(usize, u8)>) -> Seq<Seq<u8>> {
    values.map_values(|value: (usize, u8)| value_payload(value.0, value.1 as nat))
}

/// The payloads of a list, each taken as its sequence of bytes.
pub open spec fn payload_views(payloads: Seq<Vec<u8>>) -> Seq<Seq<u8>> {
    payloads.map_values(|payload: Vec<u8>| payload@)
}

/// Turns each value of a list into a payload of its length.
pub fn payloads_from_values(values: &Vec<(usize, u8)>) -> (payloads: Vec<Vec<u8>>)
    ensures
        payload_views(payloads@) == value_payloads(values@),
{
    let mut payloads: Vec<Vec<u8>> = Vec::new();
    let mut i: usize = 0;
    while i < values.len()
        invariant
            i <= values.len(),
            payloads@.len() == i,
            forall|j: int|
                0 <= j < i ==> (#[trigger] payloads@[j])@ == value_payload(
                    values@[j].0,
                    values@[j].1 as nat,
                ),
        decreases values.len() - i,
    {
        let (v, bl) = values[i];
        payloads.push(payload_from_value(v, bl));
        i += 1;
    }
    assert(payload_views(payloads@) =~= value_payloads(values@));
    payloads
}

/// The interval with the jitter added or taken away, and no less than zero.
pub open spec fn jittered(interval: nat, jitter: nat, negative: bool) -> nat {
    if !negative {
        interval + jitter
    } else if jitter > interval {
        0
    } else {
        (interval - jitter) as nat
    }
}

/// Adds a jitter to an interval, or takes it away, stopping at zero.
pub fn jittered_interval(interval_msecs: u64, jitter: u64, negative: bool) -> (total: u64)
    requires
        !negative ==> interval_msecs + jitter <= u64::MAX,
    ensures
        total == jittered(interval_msecs as nat, jitter as nat, negative),
{
    if !negative {
        interval_msecs + jitter
    } else if jitter > interval_msecs {
        0
    } else {
        interval_msecs - jitter
    }
}

/// The payload with its first byte replaced by the override, where there is
/// an override and a first byte.
pub open spec fn overridden(payload: Seq<u8>, id_override: Option<u8>) -> Seq<u8> {
    match id_override {
        Some(b) => if payload.len() > 0 {
            payload.update(0, b)
        } else {
            payload
        },
        None => payload,
    }
}

/// Copies a payload, replacing its first byte (the sensor's number) where an
/// override is given.
pub fn payload_with_id(payload: &Vec<u8>, id_override: Option<u8>) -> (made: Vec<u8>)
    ensures
        made@ == overridden(payload@, id_override),
{
    let mut made = payload.clone();
    if let Some(b) = id_override {
        if made.len() > 0 {
            made.remove(0);
            made.insert(0, b);
            assert(made@ =~= payload@.update(0, b));
        }
    }
    made
}

impl DummyConfig {
    /// Generate an interval based on jitter and such: the interval between
    /// sends, with a random jitter below the configured one added or taken
    /// away.
    pub fn gen_interval(&self) -> (millis: u64)
        requires
            self.interval_jitter_msecs > 0,
            self.interval_msecs + self.interval_jitter_msecs - 1 <= u64::MAX,
        ensures
            exists|jitter: nat, negative: bool|
                jitter < self.interval_jitter_msecs && millis == #[trigger] jittered(
                    self.interval_msecs as nat,
                    jitter,
                    negative,
                ),
    {
        let jitter = random_below(self.interval_jitter_msecs as u128) as u64;
        let negative = coin_flip();
        jittered_interval(self.interval_msecs, jitter, negative)
    }

    /// Generate a random payload. Optionally override first byte (ID).
    pub fn gen_payload(&self, id_override: Option<u8>) -> (payload: Vec<u8>)
        requires
            self.payloads@.len() > 0,
        ensures
            exists|i: int|
                0 <= i < self.payloads@.len() && payload@ == overridden(
                    #[trigger] self.payloads@[i]@,
                    id_override,
                ),
    {
        let index = random_below(self.payloads.len() as u128) as usize;
        payload_with_id(&self.payloads[index], id_override)
    }

    /// Tells whether `made` holds the options that the file `cfgf` stands
    /// for: its mode and its topic read, its values turned into payloads, and
    /// the rest taken over.
    pub open spec fn made_from(cfgf: DummyConfigFile, made: DummyConfig) -> bool {
        &&& made.broker_address == cfgf.broker_address
        &&& made.broker_port == cfgf.broker_port
        &&& DummyMode::of_name(cfgf.mode@) == Some(made.mode)
        &&& payload_views(made.payloads@) == value_payloads(cfgf.values@)
        &&& SensorType::of_topic(cfgf.topic@) == Some(made.topic)
        &&& made.interval_msecs == cfgf.interval_msecs
        &&& made.interval_jitter_msecs == cfgf.interval_jitter_msecs
    }

    /// Attempt converting the file-parsed struct into the actual options. A
    /// bad mode name is reported before a bad sensor type.
    pub fn try_from(cfgf: &DummyConfigFile) -> (r: Result<Self, DummyConfigError>)
        ensures
            match r {
                Ok(made) => DummyConfig::made_from(*cfgf, made),
                Err(DummyConfigError::BadModeName(name)) => DummyMode::of_name(cfgf.mode@) is None
                    && name == cfgf.mode,
                Err(DummyConfigError::BadSensorType(name)) => DummyMode::of_name(cfgf.mode@)
                    is Some && SensorType::of_topic(cfgf.topic@) is None && name == cfgf.topic,
                Err(DummyConfigError::ConfigError(_)) => false,
            },
    {
        let mode = match DummyMode::from_str(cfgf.mode.as_str()) {
            Ok(mode) => mode,
            Err(_) => {
                return Err(DummyConfigError::BadModeName(cfgf.mode.clone()));
            },
        };
        let payloads = payloads_from_values(&cfgf.values);
        let topic = match SensorType::from_str(cfgf.topic.as_str()) {
            Ok(topic) => topic,
            Err(_) => {
                return Err(DummyConfigError::BadSensorType(cfgf.topic.clone()));
            },
        };
        Ok(
            Self {
                broker_address: cfgf.broker_address.clone(),
                broker_port: cfgf.broker_port,
                mode: mode,
                payloads: payloads,
                topic: topic,
                interval_msecs: cfgf.interval_msecs as u64,
                interval_jitter_msecs: cfgf.interval_jitter_msecs as u64,
            },
        )
    }
}

/// Converts the configurations of several dummies, in the order given, and
/// stops at the first that does not convert.
pub fn configs_from_files(files: &Vec<DummyConfigFile>) -> (r: Result<
    Vec<DummyConfig>,
    DummyConfigError,
>)
    ensures
        match r {
            Ok(made) => made@.len() == files@.len() && forall|i: int|
                0 <= i < files@.len() ==> DummyConfig::made_from(files@[i], #[trigger] made@[i]),
            Err(_) => exists|i: int|
                0 <= i < files@.len() && !file_converts(#[trigger] files@[i]) && forall|j: int|
                    0 <= j < i ==> file_converts(#[trigger] files@[j]),
        },
{
    let mut made: Vec<DummyConfig> = Vec::new();
    let mut i: usize = 0;
    while i < files.len()
        invariant
            i <= files.len(),
            made@.len() == i,
            forall|j: int| 0 <= j < i ==> DummyConfig::made_from(files@[j], #[trigger] made@[j]),
            forall|j: int| 0 <= j < i ==> file_converts(#[trigger] files@[j]),
        decreases files.len() - i,
    {
        match DummyConfig::try_from(&files[i]) {
            Ok(dc) => {
                made.push(dc);
            },
            Err(e) => {
                assert(!file_converts(files@[i as int]));
                return Err(e);
            },
        }
        i += 1;
    }
    Ok(made)
}

/// Tells whether the configuration of a dummy converts: its mode and its
/// topic are known.
pub open spec fn file_converts(cfgf: DummyConfigFile) -> bool {
    DummyMode::of_name(cfgf.mode@) is Some && SensorType::of_topic(cfgf.topic@) is Some
}

} // verus!
