//! The event bus: a single-producer, multi-consumer broadcast channel with a
//! bounded buffer.
//!
//! `publish` appends an event for every currently subscribed consumer;
//! `subscribe` returns an independent cursor that observes only events
//! published after the subscription (no replay).  The buffer is bounded: when
//! a consumer falls behind by more than the capacity, the oldest events are
//! dropped for that consumer and its next `poll` reports exactly how many were
//! lost.  Publishing therefore never blocks on — and never fails because of —
//! a slow consumer.  A publish while no consumer is subscribed succeeds and
//! the event is silently discarded once it rotates out of the buffer; that is
//! a deliberate choice, since upstream activity must never block.
//!
//! The bus is the single shared mutable resource of the gateway, so it is kept
//! behind one owner; concurrent callers hand their accesses to that owner.
use vstd::prelude::*;

verus! {

/// A bounded broadcast buffer of the `total()` events published so far, of
/// which the `cap()` most recent are retained for lagging consumers.
pub struct EventBus<T> {
    /// Bound on how many events are retained for lagging consumers.
    pub capacity: usize,
    /// Number of published events that have already rotated out of `buffer`.
    pub head: u64,
    /// The retained suffix of the publish history.
    pub buffer: Vec<T>,
    /// The full publish history (kept only for specification purposes).
    pub history: Ghost<Seq<T>>,
}

/// An independent consumer cursor into the bus's publish history.
pub struct BusSubscriber {
    /// Index into the publish history of the next event to deliver.
    pub cursor: u64,
    /// History length at the moment of subscription.
    pub joined: Ghost<int>,
}

/// What one `poll` call handed a consumer.
pub enum BusPoll<'a, T> {
    /// Nothing was published past the consumer's cursor yet.
    Empty,
    /// The consumer fell behind; the given number of events were dropped for
    /// it, and its cursor now points at the oldest retained event.
    Lagged(u64),
    /// The next event, in publish order.
    Event(&'a T),
}

/// Ghost description of a poll outcome, used to state the bus laws.
pub enum PollOutcome {
    Empty,
    Lagged(int),
    Deliver(int),
}

impl<T> EventBus<T> {
    /// Every event ever published, in order.
    pub open spec fn history(&self) -> Seq<T> {
        self.history@
    }

    /// Number of events published so far.
    pub open spec fn total(&self) -> int {
        self.history@.len() as int
    }

    /// The configured bound on retained events.
    pub open spec fn cap(&self) -> int {
        self.capacity as int
    }

    /// How many of the oldest events are no longer retained.
    pub open spec fn dropped(&self) -> int {
        self.head as int
    }

    pub open spec fn wf(&self) -> bool {
        &&& 1 <= self.capacity
        &&& self.buffer@.len() == if self.history@.len() <= self.capacity as nat {
            self.history@.len()
        } else {
            self.capacity as nat
        }
        &&& self.head as int + self.buffer@.len() == self.history@.len()
        &&& self.buffer@ == self.history@.skip(self.head as int)
        &&& self.history@.len() <= u64::MAX
    }

    /// A subscriber cursor is meaningful for this bus: it joined at some past
    /// history length and has advanced monotonically since, never beyond the
    /// published total.
    pub open spec fn wf_sub(&self, sub: BusSubscriber) -> bool {
        0 <= sub.joined@ <= sub.cursor as int <= self.total()
    }

    /// What `poll` does for a consumer whose cursor sits at `cursor`.
    pub open spec fn poll_outcome(&self, cursor: int) -> PollOutcome {
        if cursor == self.total() {
            PollOutcome::Empty
        } else if cursor < self.dropped() {
            PollOutcome::Lagged(self.dropped() - cursor)
        } else {
            PollOutcome::Deliver(cursor)
        }
    }

    pub fn new(capacity: usize) -> (bus: EventBus<T>)
        requires
            capacity >= 1,
        ensures
            bus.wf(),
            bus.cap() == capacity,
            bus.total() == 0,
            bus.history() == Seq::<T>::empty(),
    {
        let bus = EventBus { capacity, head: 0, buffer: Vec::new(), history: Ghost(Seq::empty()) };
        proof {
            assert(bus.buffer@ =~= bus.history@.skip(0));
        }
        bus
    }

    /// Appends an event to the publish history.  Publishing never fails and
    /// never blocks: a slow consumer only loses its own oldest events.
    pub fn publish(&mut self, event: T)
        requires
            old(self).wf(),
            old(self).total() < u64::MAX,
        ensures
            final(self).wf(),
            final(self).cap() == old(self).cap(),
            final(self).history() == old(self).history().push(event),
            final(self).total() == old(self).total() + 1,
            forall|s: BusSubscriber| old(self).wf_sub(s) ==> final(self).wf_sub(s),
    {
        if self.buffer.len() == self.capacity {
            self.buffer.remove(0);
            self.head = self.head + 1;
        }
        self.buffer.push(event);
        proof {
            self.history@ = self.history@.push(event);
            assert(self.buffer@ =~= self.history@.skip(self.head as int));
        }
    }

    /// Returns a fresh consumer cursor that observes only events published
    /// from this moment on.
    pub fn subscribe(&self) -> (sub: BusSubscriber)
        requires
            self.wf(),
        ensures
            self.wf_sub(sub),
            sub.cursor as int == self.total(),
            sub.joined@ == self.total(),
    {
        let cursor = self.head + self.buffer.len() as u64;
        BusSubscriber { cursor, joined: Ghost(self.total()) }
    }

    /// Hands the consumer its next observation: the next event in publish
    /// order, a deterministic loss report if it lagged past the retained
    /// window, or nothing if it has seen everything published so far.
    pub fn poll<'a>(&'a self, sub: &mut BusSubscriber) -> (r: BusPoll<'a, T>)
        requires
            self.wf(),
            self.wf_sub(*old(sub)),
        ensures
            self.wf_sub(*final(sub)),
            final(sub).joined == old(sub).joined,
            old(sub).cursor <= final(sub).cursor,
            match self.poll_outcome(old(sub).cursor as int) {
                PollOutcome::Empty => r is Empty && final(sub).cursor == old(sub).cursor,
                PollOutcome::Lagged(n) => {
                    &&& r matches BusPoll::Lagged(m) && m as int == n
                    &&& final(sub).cursor as int == self.dropped()
                },
                PollOutcome::Deliver(i) => {
                    &&& r matches BusPoll::Event(e) && *e == self.history()[i]
                    &&& final(sub).cursor as int == i + 1
                },
            },
    {
        let total = self.head + self.buffer.len() as u64;
        if sub.cursor == total {
            BusPoll::Empty
        } else if sub.cursor < self.head {
            let missed = self.head - sub.cursor;
            sub.cursor = self.head;
            BusPoll::Lagged(missed)
        } else {
            let idx = (sub.cursor - self.head) as usize;
            let event = &self.buffer[idx];
            sub.cursor = sub.cursor + 1;
            BusPoll::Event(event)
        }
    }
}

/// No replay: an event the bus can hand a subscriber always lies at or after
/// the subscriber's join point in the publish history, so a subscriber that
/// joined after an event was published never receives that event.
pub proof fn lemma_no_replay<T>(bus: &EventBus<T>, sub: BusSubscriber)
    requires
        bus.wf(),
        bus.wf_sub(sub),
    ensures
        match bus.poll_outcome(sub.cursor as int) {
            PollOutcome::Deliver(i) => sub.joined@ <= i,
            _ => true,
        },
{
}

/// Deterministic loss under a burst: once more events than the capacity were
/// published past a subscriber's cursor, its next poll reports exactly
/// `total() - cap() - cursor` dropped events — while the bus itself retains no
/// more than `cap()` events, so a lagging consumer never causes unbounded
/// buffering or blocks the publisher.
pub proof fn lemma_deterministic_lag<T>(bus: &EventBus<T>, sub: BusSubscriber)
    requires
        bus.wf(),
        bus.wf_sub(sub),
        bus.total() - sub.cursor as int > bus.cap(),
    ensures
        bus.poll_outcome(sub.cursor as int) == PollOutcome::Lagged(
            bus.total() - bus.cap() - sub.cursor as int,
        ),
        bus.buffer@.len() <= bus.cap(),
{
}

} // verus!
