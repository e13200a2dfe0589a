//! Implements a single dummy sensor.

use crate::dummy::config::DummyConfig;
use crate::text::decimal;
use crate::text::decimal_digits;
use vstd::prelude::*;
use vstd::string::StringExecFns;

verus! {

/// The number of failed sends, or of connection errors, that a dummy puts up
/// with.
pub const MAX_FAILURES: usize = 10;

/// A dummy: its configuration and the sensor's number that it sends.
#[derive(Clone, Debug, PartialEq, Eq)]
pub struct Dummy {
    /// A copy of the dummy config.
    pub cfg: DummyConfig,
    /// A byte to override the first byte of payloads (sensor ID).
    pub id_override: Option<u8>,
}

impl Dummy {
    /// Construct a dummy.
    pub fn construct(cfg: DummyConfig, id_override: Option<u8>) -> (dummy: Self)
        ensures
            dummy.cfg == cfg,
            dummy.id_override == id_override,
    {
        Self { cfg: cfg, id_override: id_override }
    }

    /// The number that the dummy's name ends in: the override, or zero.
    pub open spec fn number(&self) -> nat {
        match self.id_override {
            Some(b) => b as nat,
            None => 0,
        }
    }

    /// The name under which the dummy connects to the broker.
    pub fn client_id(&self) -> (id: String)
        ensures
            id@ == "dummy-"@ + decimal_digits(self.number()),
    {
        let number: usize = match self.id_override {
            Some(b) => b as usize,
            None => 0,
        };
        let mut id = "dummy-".to_owned();
        id.append(decimal(number).as_str());
        id
    }

    /// The next payload to publish.
    pub fn next_payload(&self) -> (payload: Vec<u8>)
        requires
            self.cfg.payloads@.len() > 0,
        ensures
            exists|i: int|
                0 <= i < self.cfg.payloads@.len() && payload@ == crate::dummy::config::overridden(
                    #[trigger] self.cfg.payloads@[i]@,
                    self.id_override,
                ),
    {
        self.cfg.gen_payload(self.id_override)
    }
}

/// The count of sends that went well and of sends that failed.
#[derive(Copy, Clone, Debug, PartialEq, Eq, Structural)]
pub struct SendTally {
    /// Sends that went well.
    pub oks: usize,
    /// Sends that failed.
    pub fails: usize,
}

impl SendTally {
    /// The tally after one more send.
    pub open spec fn counted(self, sent: bool) -> SendTally {
        if sent {
            SendTally { oks: (self.oks + 1) as usize, ..self }
        } else {
            SendTally { fails: (self.fails + 1) as usize, ..self }
        }
    }

    /// Tells whether the dummy gives up: more sends failed than it puts up
    /// with.
    pub open spec fn spent(self) -> bool {
        self.fails > MAX_FAILURES
    }

    /// The tally of a dummy that has sent nothing yet.
    pub fn new() -> (tally: Self)
        ensures
            tally == (SendTally { oks: 0, fails: 0 }),
    {
        Self { oks: 0, fails: 0 }
    }

    /// Counts one send and tells whether the dummy goes on: it stops once
    /// more sends have failed than it puts up with.
    pub fn record(&mut self, sent: bool) -> (go_on: bool)
        requires
            sent ==> old(self).oks < usize::MAX,
            !sent ==> old(self).fails < usize::MAX,
        ensures
            *final(self) == old(self).counted(sent),
            go_on == !(!sent && final(self).spent()),
    {
        if sent {
            self.oks += 1;
            true
        } else {
            self.fails += 1;
            !(self.fails > MAX_FAILURES)
        }
    }
}

/// The count of errors among the notifications of a connection.
#[derive(Copy, Clone, Debug, PartialEq, Eq, Structural)]
pub struct ConnectionWatch {
    /// Notifications that were errors.
    pub errs: usize,
}

impl ConnectionWatch {
    /// The watch of a connection that has notified of nothing yet.
    pub fn new() -> (watch: Self)
        ensures
            watch.errs == 0,
    {
        Self { errs: 0 }
    }

    /// Takes note of one notification and tells whether the dummy stops
    /// listening: it does once more notifications were errors than it puts
    /// up with.
    pub fn note(&mut self, is_err: bool) -> (stop: bool)
        requires
            is_err ==> old(self).errs < usize::MAX,
        ensures
            final(self).errs == if is_err {
                old(self).errs + 1
            } else {
                old(self).errs as int
            },
            stop == (is_err && final(self).errs > MAX_FAILURES),
    {
        if is_err {
            self.errs += 1;
            self.errs > MAX_FAILURES
        } else {
            false
        }
    }
}

} // verus!
