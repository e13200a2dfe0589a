//! The bundle of messages that await delivery, and the rule by which it is
//! flushed.
//!
//! Messages are appended in the order in which they arrive. Two triggers ask
//! for a delivery of the bundle's contents: the bundle reaching its size
//! limit, and a timeout. A delivery is an exchange with the endpoint, which
//! takes time and is made by the caller: the bundle says when to deliver,
//! hands out its contents, and is told how the delivery ended. While one
//! delivery is under way nothing else touches the bundle.

use crate::comm::broker_api::BrokerMessage;
use vstd::prelude::*;

verus! {

/// What asked for a delivery.
#[derive(Copy, Clone, Debug, PartialEq, Eq, Structural)]
pub enum Trigger {
    /// The bundle reached its size limit.
    Size,
    /// The flush timeout ran out.
    Timeout,
}

/// What the caller is to do after a step.
#[derive(Copy, Clone, Debug, PartialEq, Eq, Structural)]
pub enum FlushAction {
    /// Nothing: the bundle keeps collecting.
    Keep,
    /// Deliver the bundle's contents now, then report how it went.
    Deliver,
    /// A delivery is under way: wait until it is settled, then ask again.
    Wait,
}

/// What can happen to a bundle.
pub enum BundleEvent {
    /// A message arrived.
    Append(BrokerMessage),
    /// The flush timeout ran out.
    Timeout,
    /// The delivery under way ended; `true` means that the endpoint confirmed
    /// it.
    Settled(bool),
}

/// A bundle as a mathematical value.
pub struct BundleState {
    /// The number of messages at which the size trigger fires.
    pub limit: nat,
    /// The messages that await delivery, oldest first.
    pub pending: Seq<BrokerMessage>,
    /// The trigger of the delivery under way, if there is one.
    pub in_flight: Option<Trigger>,
}

impl BundleState {
    /// The empty bundle with the given size limit.
    pub open spec fn init(limit: nat) -> BundleState {
        BundleState { limit: limit, pending: Seq::empty(), in_flight: None }
    }

    /// Tells whether no delivery is under way.
    pub open spec fn idle(self) -> bool {
        self.in_flight is None
    }

    /// The bundle after `event`, and what the caller is to do.
    ///
    /// While a delivery is under way, an arriving message or a timeout changes
    /// nothing and is told to wait. Otherwise a message is appended, and the
    /// size trigger fires if the limit is reached; a timeout always fires. A
    /// confirmed delivery empties the bundle; a failed one leaves it as it is.
    pub open spec fn next(self, event: BundleEvent) -> (BundleState, FlushAction) {
        match event {
            BundleEvent::Append(msg) => if self.in_flight is Some {
                (self, FlushAction::Wait)
            } else if self.pending.len() + 1 >= self.limit {
                (
                    BundleState {
                        pending: self.pending.push(msg),
                        in_flight: Some(Trigger::Size),
                        ..self
                    },
                    FlushAction::Deliver,
                )
            } else {
                (BundleState { pending: self.pending.push(msg), ..self }, FlushAction::Keep)
            },
            BundleEvent::Timeout => if self.in_flight is Some {
                (self, FlushAction::Wait)
            } else {
                (BundleState { in_flight: Some(Trigger::Timeout), ..self }, FlushAction::Deliver)
            },
            BundleEvent::Settled(delivered) => if self.in_flight is Some && delivered {
                (
                    BundleState { pending: Seq::empty(), in_flight: None, ..self },
                    FlushAction::Keep,
                )
            } else {
                (BundleState { in_flight: None, ..self }, FlushAction::Keep)
            },
        }
    }

    /// The bundle after the first `n` of `events`.
    pub open spec fn after(self, events: Seq<BundleEvent>, n: nat) -> BundleState
        decreases n,
    {
        if n == 0 {
            self
        } else {
            self.after(events, (n - 1) as nat).next(events[n - 1]).0
        }
    }

    /// What the caller is told to do at the event in place `i`.
    pub open spec fn action_at(self, events: Seq<BundleEvent>, i: int) -> FlushAction {
        self.after(events, i as nat).next(events[i]).1
    }
}

/// The arrival of each message of `msgs`, in order.
pub open spec fn arrivals(msgs: Seq<BrokerMessage>) -> Seq<BundleEvent> {
    msgs.map_values(|msg: BrokerMessage| BundleEvent::Append(msg))
}

/// The message bundle of a broker.
pub struct Bundle {
    limit: usize,
    messages: Vec<BrokerMessage>,
    in_flight: Option<Trigger>,
}

impl View for Bundle {
    type V = BundleState;

    closed spec fn view(&self) -> BundleState {
        BundleState {
            limit: self.limit as nat,
            pending: self.messages@,
            in_flight: self.in_flight,
        }
    }
}

impl Bundle {
    /// An empty bundle whose size trigger fires at `limit` messages.
    pub fn new(limit: usize) -> (bundle: Self)
        ensures
            bundle@ == BundleState::init(limit as nat),
    {
        Self { limit: limit, messages: Vec::new(), in_flight: None }
    }

    /// The number of messages at which the size trigger fires.
    pub fn limit(&self) -> (limit: usize)
        ensures
            limit == self@.limit,
    {
        self.limit
    }

    /// The number of messages that await delivery.
    pub fn len(&self) -> (len: usize)
        ensures
            len == self@.pending.len(),
    {
        self.messages.len()
    }

    /// Tells whether no message awaits delivery.
    pub fn is_empty(&self) -> (empty: bool)
        ensures
            empty == (self@.pending.len() == 0),
    {
        self.messages.len() == 0
    }

    /// Tells whether a delivery is under way.
    pub fn is_sending(&self) -> (sending: bool)
        ensures
            sending == !self@.idle(),
    {
        self.in_flight.is_some()
    }

    /// The trigger of the delivery under way, if there is one.
    pub fn in_flight(&self) -> (trigger: Option<Trigger>)
        ensures
            trigger == self@.in_flight,
    {
        self.in_flight
    }

    /// The messages that await delivery, oldest first. This is what a
    /// delivery sends.
    pub fn contents(&self) -> (messages: &Vec<BrokerMessage>)
        ensures
            messages@ == self@.pending,
    {
        &self.messages
    }

    /// Takes in a message that arrived and checks the size trigger.
    ///
    /// While a delivery is under way the bundle is left as it is and the
    /// message is handed back: it is to be offered again once the delivery is
    /// settled.
    pub fn append(&mut self, msg: BrokerMessage) -> (r: Result<FlushAction, BrokerMessage>)
        ensures
            final(self)@ == old(self)@.next(BundleEvent::Append(msg)).0,
            match r {
                Ok(action) => old(self)@.idle() && action == old(self)@.next(
                    BundleEvent::Append(msg),
                ).1,
                Err(back) => !old(self)@.idle() && back == msg,
            },
    {
        if self.in_flight.is_some() {
            return Err(msg);
        }
        self.messages.push(msg);
        if self.messages.len() >= self.limit {
            self.in_flight = Some(Trigger::Size);
            Ok(FlushAction::Deliver)
        } else {
            Ok(FlushAction::Keep)
        }
    }

    /// Takes note that the flush timeout ran out: a delivery is due whatever
    /// the bundle holds, unless one is under way.
    pub fn request_flush(&mut self) -> (action: FlushAction)
        ensures
            (final(self)@, action) == old(self)@.next(BundleEvent::Timeout),
    {
        if self.in_flight.is_some() {
            FlushAction::Wait
        } else {
            self.in_flight = Some(Trigger::Timeout);
            FlushAction::Deliver
        }
    }

    /// Takes note of how the delivery under way ended: a confirmed delivery
    /// empties the bundle, a failed one leaves every message in place.
    pub fn settle(&mut self, delivered: bool)
        ensures
            final(self)@ == old(self)@.next(BundleEvent::Settled(delivered)).0,
    {
        if self.in_flight.is_some() && delivered {
            self.messages.clear();
        }
        self.in_flight = None;
    }
}

/// While a delivery is under way, a message that arrives or a timeout that
/// runs out is told to wait and changes nothing; and whatever happens, no
/// second delivery is asked for.
pub proof fn lemma_one_delivery_at_a_time(s: BundleState, event: BundleEvent)
    requires
        !s.idle(),
    ensures
        s.next(event).1 != FlushAction::Deliver,
        !(event is Settled) ==> s.next(event) == (s, FlushAction::Wait),
{
}

/// A delivery is only ever asked for when none is under way, and from then on
/// one is under way, with the contents that the bundle held when it was asked
/// for, the arriving message included.
pub proof fn lemma_delivery_takes_hold(s: BundleState, event: BundleEvent)
    requires
        s.next(event).1 == FlushAction::Deliver,
    ensures
        s.idle(),
        !s.next(event).0.idle(),
        event matches BundleEvent::Append(msg) ==> s.next(event).0.pending == s.pending.push(msg),
        event is Timeout ==> s.next(event).0.pending == s.pending,
{
}

/// A delivery stays under way until it is settled: if none of the events in
/// places `from` to `to - 1` is a settlement, then the bundle after `to`
/// events is the one after `from` events, and each of those events was told to
/// wait.
pub proof fn lemma_waits_until_settled(
    s: BundleState,
    events: Seq<BundleEvent>,
    from: nat,
    to: nat,
)
    requires
        from <= to <= events.len(),
        !s.after(events, from).idle(),
        forall|j: int| from <= j < to ==> !(#[trigger] events[j] is Settled),
    ensures
        s.after(events, to) == s.after(events, from),
        forall|j: int| from <= j < to ==> #[trigger] s.action_at(events, j) == FlushAction::Wait,
    decreases to - from,
{
    if from < to {
        let before = (to - 1) as nat;
        lemma_waits_until_settled(s, events, from, before);
        assert(!(events[before as int] is Settled));
        assert(s.after(events, to) == s.after(events, before).next(events[before as int]).0);
        assert forall|j: int| from <= j < to implies #[trigger] s.action_at(events, j)
            == FlushAction::Wait by {
            if j == before {
                assert(s.action_at(events, j) == s.after(events, before).next(
                    events[before as int],
                ).1);
            }
        }
    }
}

/// Two deliveries never run side by side: in any course of events, between two
/// events that were each answered with `Deliver` lies a settlement of the
/// first.
pub proof fn lemma_deliveries_never_overlap(
    s: BundleState,
    events: Seq<BundleEvent>,
    first: int,
    second: int,
)
    requires
        0 <= first < second < events.len(),
        s.action_at(events, first) == FlushAction::Deliver,
        s.action_at(events, second) == FlushAction::Deliver,
    ensures
        exists|j: int| first < j < second && #[trigger] events[j] is Settled,
{
    if forall|j: int| first < j < second ==> !(#[trigger] events[j] is Settled) {
        let from = (first + 1) as nat;
        assert(s.after(events, from) == s.after(events, first as nat).next(events[first]).0);
        lemma_delivery_takes_hold(s.after(events, first as nat), events[first]);
        lemma_waits_until_settled(s, events, from, second as nat);
        lemma_one_delivery_at_a_time(s.after(events, second as nat), events[second]);
    }
}

/// Messages that arrive while no delivery is under way and the size limit is
/// out of reach are all kept, in the order of their arrival, behind those
/// already there; no delivery is asked for.
pub proof fn lemma_arrivals_keep_order(s: BundleState, msgs: Seq<BrokerMessage>, n: nat)
    requires
        s.idle(),
        s.pending.len() + msgs.len() < s.limit,
        n <= msgs.len(),
    ensures
        s.after(arrivals(msgs), n) == (BundleState {
            pending: s.pending + msgs.take(n as int),
            ..s
        }),
        forall|i: int|
            0 <= i < n ==> #[trigger] s.action_at(arrivals(msgs), i) == FlushAction::Keep,
    decreases n,
{
    if n == 0 {
        assert(s.pending + msgs.take(0) =~= s.pending);
    } else {
        let before = (n - 1) as nat;
        lemma_arrivals_keep_order(s, msgs, before);
        let events = arrivals(msgs);
        let prev = s.after(events, before);
        assert(events[before as int] == BundleEvent::Append(msgs[before as int]));
        assert(prev.pending.push(msgs[before as int]) =~= s.pending + msgs.take(n as int));
        assert(s.after(events, n) == prev.next(events[before as int]).0);
        assert forall|i: int| 0 <= i < n implies #[trigger] s.action_at(events, i)
            == FlushAction::Keep by {
            if i == before {
                assert(s.action_at(events, i) == prev.next(events[before as int]).1);
            }
        }
    }
}

/// Messages that arrive at an empty bundle, fewer than its size limit, are
/// what the bundle holds afterwards, in the order of their arrival, and no
/// delivery was asked for on the way.
pub proof fn lemma_order_preserved(limit: nat, msgs: Seq<BrokerMessage>)
    requires
        msgs.len() < limit,
    ensures
        BundleState::init(limit).after(arrivals(msgs), msgs.len()) == (BundleState {
            limit: limit,
            pending: msgs,
            in_flight: None,
        }),
        forall|i: int|
            0 <= i < msgs.len() ==> #[trigger] BundleState::init(limit).action_at(arrivals(msgs), i)
                == FlushAction::Keep,
{
    let s = BundleState::init(limit);
    lemma_arrivals_keep_order(s, msgs, msgs.len());
    assert(s.pending + msgs.take(msgs.len() as int) =~= msgs);
}

/// Filling an empty bundle up to its size limit asks for exactly one
/// delivery, at the last message, and that delivery holds every message in the
/// order of arrival. Until it is settled a further message is told to wait.
pub proof fn lemma_size_trigger(limit: nat, msgs: Seq<BrokerMessage>, extra: BrokerMessage)
    requires
        limit >= 1,
        msgs.len() == limit,
    ensures
        forall|i: int|
            0 <= i < limit - 1 ==> #[trigger] BundleState::init(limit).action_at(arrivals(msgs), i)
                == FlushAction::Keep,
        BundleState::init(limit).action_at(arrivals(msgs), limit - 1) == FlushAction::Deliver,
        BundleState::init(limit).after(arrivals(msgs), limit) == (BundleState {
            limit: limit,
            pending: msgs,
            in_flight: Some(Trigger::Size),
        }),
        BundleState::init(limit).after(arrivals(msgs), limit).next(BundleEvent::Append(extra)) == (
            BundleState::init(limit).after(arrivals(msgs), limit),
            FlushAction::Wait,
        ),
{
    let s = BundleState::init(limit);
    let events = arrivals(msgs);
    let head = msgs.drop_last();
    let before = (limit - 1) as nat;
    lemma_arrivals_keep_order(s, head, before);
    assert forall|n: nat| n <= before implies s.after(events, n) == s.after(arrivals(head), n) by {
        lemma_after_reads_prefix(s, events, arrivals(head), n);
    }
    assert forall|i: int| 0 <= i < limit - 1 implies #[trigger] s.action_at(events, i)
        == FlushAction::Keep by {
        assert(s.after(events, i as nat) == s.after(arrivals(head), i as nat));
        assert(events[i] == arrivals(head)[i]);
        assert(s.action_at(arrivals(head), i) == FlushAction::Keep);
    }
    let prev = s.after(events, before);
    assert(prev == s.after(arrivals(head), before));
    assert(head.take(before as int) =~= head);
    assert(s.pending + head =~= head);
    assert(head.push(msgs[before as int]) =~= msgs);
    assert(events[before as int] == BundleEvent::Append(msgs[before as int]));
    assert(s.after(events, limit) == prev.next(events[before as int]).0);
}

/// The bundle after `n` events depends on the first `n` events alone.
pub proof fn lemma_after_reads_prefix(
    s: BundleState,
    a: Seq<BundleEvent>,
    b: Seq<BundleEvent>,
    n: nat,
)
    requires
        n <= a.len(),
        n <= b.len(),
        forall|i: int| 0 <= i < n ==> a[i] == b[i],
    ensures
        s.after(a, n) == s.after(b, n),
    decreases n,
{
    if n > 0 {
        lemma_after_reads_prefix(s, a, b, (n - 1) as nat);
    }
}

/// A delivery that fails leaves every message in the bundle, and the next
/// message to arrive is appended behind them.
pub proof fn lemma_failure_retains(s: BundleState, msg: BrokerMessage)
    requires
        !s.idle(),
    ensures
        s.next(BundleEvent::Settled(false)).0 == (BundleState { in_flight: None, ..s }),
        s.next(BundleEvent::Settled(false)).0.next(BundleEvent::Append(msg)).0.pending
            == s.pending.push(msg),
{
}

/// A delivery that is confirmed empties the bundle, and only that does: after
/// a settlement the bundle is empty if the delivery was confirmed, and holds
/// what it held otherwise.
pub proof fn lemma_cleared_only_on_success(s: BundleState, delivered: bool)
    requires
        !s.idle(),
    ensures
        s.next(BundleEvent::Settled(delivered)).0.idle(),
        s.next(BundleEvent::Settled(delivered)).0.pending == if delivered {
            Seq::<BrokerMessage>::empty()
        } else {
            s.pending
        },
{
}

/// A timeout on an empty bundle still asks for a delivery, of no messages, and
/// the bundle is empty afterwards however the delivery ends.
pub proof fn lemma_timeout_on_empty(limit: nat, delivered: bool)
    ensures
        BundleState::init(limit).next(BundleEvent::Timeout) == (
            BundleState { in_flight: Some(Trigger::Timeout), ..BundleState::init(limit) },
            FlushAction::Deliver,
        ),
        BundleState::init(limit).next(BundleEvent::Timeout).0.next(
            BundleEvent::Settled(delivered),
        ).0 == BundleState::init(limit),
{
}

/// Whichever request comes second sees what the first left behind. Once a
/// first request has been answered with `Deliver`, a second one waits and
/// changes nothing. When the first is settled, the bundle is idle again and
/// holds nothing if the delivery was confirmed, and what was delivered if it
/// failed; a timeout that asks again then delivers exactly that.
pub proof fn lemma_second_request_sees_outcome(
    s: BundleState,
    first: BundleEvent,
    second: BundleEvent,
    delivered: bool,
)
    requires
        s.next(first).1 == FlushAction::Deliver,
        !(second is Settled),
    ensures
        s.next(first).0.next(second) == (s.next(first).0, FlushAction::Wait),
        s.next(first).0.next(BundleEvent::Settled(delivered)).0 == (BundleState {
            limit: s.limit,
            pending: if delivered {
                Seq::<BrokerMessage>::empty()
            } else {
                s.next(first).0.pending
            },
            in_flight: None,
        }),
        s.next(first).0.next(BundleEvent::Settled(delivered)).0.next(BundleEvent::Timeout) == (
            BundleState {
                in_flight: Some(Trigger::Timeout),
                ..s.next(first).0.next(BundleEvent::Settled(delivered)).0
            },
            FlushAction::Deliver,
        ),
{
}

/// No message is lost and none is added but by its arrival: an event leaves
/// the pending messages as they are, but for an arrival on an idle bundle,
/// which appends its message, and for the settlement of a confirmed delivery,
/// which removes them all. The size limit never changes.
pub proof fn lemma_nothing_lost(s: BundleState, event: BundleEvent)
    ensures
        s.next(event).0.limit == s.limit,
        s.next(event).0.pending == match event {
            BundleEvent::Append(msg) => if s.idle() {
                s.pending.push(msg)
            } else {
                s.pending
            },
            BundleEvent::Timeout => s.pending,
            BundleEvent::Settled(delivered) => if delivered && !s.idle() {
                Seq::<BrokerMessage>::empty()
            } else {
                s.pending
            },
        },
{
}

} // verus!
