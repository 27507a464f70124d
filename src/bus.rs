//! Fan-out of session events to independent subscribers, each with its own
//! bounded queue. A full queue drops its oldest event and counts the loss, so
//! publishing never waits on a slow subscriber.
use vstd::prelude::*;
use crate::session::AAPEvent;

verus! {

/// What a subscriber gets from one read.
#[derive(Clone, Copy, Debug, PartialEq, Eq)]
pub enum RecvResult {
    /// The oldest event not yet read.
    Event(AAPEvent),
    /// This many events were dropped since the last read because the queue was full.
    Lagged(u64),
    /// Nothing to read yet.
    Empty,
    /// The bus was closed and every queued event has been read.
    Closed,
}

/// Adds one to a loss counter, stopping at its largest value.
pub open spec fn bump(m: u64) -> u64 {
    if m < u64::MAX {
        (m + 1) as u64
    } else {
        m
    }
}

/// A subscriber's queue and loss counter after `e` is published to it with
/// room for `cap` events: when full, the oldest event leaves and the loss is counted.
pub open spec fn queue_after_publish(q: Seq<AAPEvent>, missed: u64, cap: nat, e: AAPEvent) -> (
    Seq<AAPEvent>,
    u64,
) {
    if q.len() < cap {
        (q.push(e), missed)
    } else {
        (q.drop_first().push(e), bump(missed))
    }
}

/// A subscriber's queue and loss counter after each event of `es` is published in order.
pub open spec fn queue_after_all(q: Seq<AAPEvent>, missed: u64, cap: nat, es: Seq<AAPEvent>) -> (
    Seq<AAPEvent>,
    u64,
)
    decreases es.len(),
{
    if es.len() == 0 {
        (q, missed)
    } else {
        let (q1, m1) = queue_after_all(q, missed, cap, es.drop_last());
        queue_after_publish(q1, m1, cap, es.last())
    }
}

/// What a read returns from a queue, a loss counter and the bus's closed flag:
/// a loss is reported before any further event.
pub open spec fn recv_spec(q: Seq<AAPEvent>, missed: u64, closed: bool) -> RecvResult {
    if missed > 0 {
        RecvResult::Lagged(missed)
    } else if q.len() > 0 {
        RecvResult::Event(q[0])
    } else if closed {
        RecvResult::Closed
    } else {
        RecvResult::Empty
    }
}

/// One subscriber's unread events and the count of those it lost.
pub struct Subscription {
    pending: Vec<AAPEvent>,
    missed: u64,
}

impl Subscription {
    fn publish(&mut self, cap: usize, e: AAPEvent)
        requires
            cap > 0,
            old(self).pending@.len() <= cap,
        ensures
            (final(self).pending@, final(self).missed) == queue_after_publish(
                old(self).pending@,
                old(self).missed,
                cap as nat,
                e,
            ),
    {
        if self.pending.len() >= cap {
            self.pending.remove(0);
            if self.missed < u64::MAX {
                self.missed = self.missed + 1;
            }
        }
        self.pending.push(e);
    }

    fn take(&mut self, closed: bool) -> (r: RecvResult)
        ensures
            r == recv_spec(old(self).pending@, old(self).missed, closed),
            r is Lagged ==> final(self).missed == 0 && final(self).pending@ == old(self).pending@,
            r is Event ==> final(self).missed == 0 && final(self).pending@ == old(self).pending@.drop_first(),
            (r is Empty || r is Closed) ==> *final(self) == *old(self),
    {
        if self.missed > 0 {
            let m = self.missed;
            self.missed = 0;
            RecvResult::Lagged(m)
        } else if self.pending.len() > 0 {
            let e = self.pending.remove(0);
            RecvResult::Event(e)
        } else if closed {
            RecvResult::Closed
        } else {
            RecvResult::Empty
        }
    }
}

/// A set of subscriber queues that every published event is copied into.
pub struct EventBus {
    subs: Vec<Subscription>,
    capacity: usize,
    closed: bool,
}

impl EventBus {
    /// Room in each subscriber's queue.
    pub closed spec fn cap(&self) -> nat {
        self.capacity as nat
    }

    /// Number of subscriptions handed out.
    pub closed spec fn subscribers(&self) -> nat {
        self.subs@.len()
    }

    /// Unread events of subscriber `i`, oldest first.
    pub closed spec fn pending(&self, i: int) -> Seq<AAPEvent> {
        self.subs@[i].pending@
    }

    /// Events that subscriber `i` lost since its last read.
    pub closed spec fn missed(&self, i: int) -> u64 {
        self.subs@[i].missed
    }

    /// Whether the bus has been closed.
    pub closed spec fn is_closed(&self) -> bool {
        self.closed
    }

    /// Every queue holds at most `cap` events, and `cap` is positive.
    pub closed spec fn well_formed(&self) -> bool {
        &&& self.capacity > 0
        &&& forall|i: int| 0 <= i < self.subs@.len() ==> self.subs@[i].pending@.len() <= self.capacity
    }

    /// An open bus with no subscribers whose queues hold up to `capacity` events.
    pub fn new(capacity: usize) -> (r: EventBus)
        requires
            capacity > 0,
        ensures
            r.well_formed(),
            r.cap() == capacity,
            r.subscribers() == 0,
            !r.is_closed(),
    {
        EventBus { subs: Vec::new(), capacity, closed: false }
    }

    /// Number of subscriptions handed out.
    pub fn subscriber_count(&self) -> (r: usize)
        ensures
            r == self.subscribers(),
    {
        self.subs.len()
    }

    /// Opens a subscription that receives every event published from now on,
    /// and returns its index.
    pub fn subscribe(&mut self) -> (r: usize)
        requires
            old(self).well_formed(),
            old(self).subscribers() < usize::MAX,
        ensures
            final(self).well_formed(),
            r == old(self).subscribers(),
            final(self).subscribers() == old(self).subscribers() + 1,
            final(self).cap() == old(self).cap(),
            final(self).is_closed() == old(self).is_closed(),
            final(self).pending(r as int) == Seq::<AAPEvent>::empty(),
            final(self).missed(r as int) == 0,
            forall|i: int|
                0 <= i < old(self).subscribers() ==> final(self).pending(i) == old(self).pending(i)
                    && final(self).missed(i) == old(self).missed(i),
    {
        let r = self.subs.len();
        self.subs.push(Subscription { pending: Vec::new(), missed: 0 });
        r
    }

    /// Copies `e` into every subscriber's queue, dropping the oldest event of
    /// a full queue. Once the bus is closed, publishing changes nothing.
    pub fn publish(&mut self, e: AAPEvent)
        requires
            old(self).well_formed(),
        ensures
            final(self).well_formed(),
            final(self).subscribers() == old(self).subscribers(),
            final(self).cap() == old(self).cap(),
            final(self).is_closed() == old(self).is_closed(),
            forall|i: int|
                0 <= i < old(self).subscribers() ==> (final(self).pending(i), final(self).missed(i))
                    == (if old(self).is_closed() {
                    (old(self).pending(i), old(self).missed(i))
                } else {
                    queue_after_publish(old(self).pending(i), old(self).missed(i), old(self).cap(), e)
                }),
    {
        if self.closed {
            return;
        }
        let n = self.subs.len();
        let cap = self.capacity;
        let mut i: usize = 0;
        while i < n
            invariant
                0 <= i <= n,
                n == self.subs@.len(),
                n == old(self).subs@.len(),
                cap == self.capacity,
                self.capacity == old(self).capacity,
                self.closed == old(self).closed,
                !self.closed,
                self.well_formed(),
                old(self).well_formed(),
                forall|j: int|
                    0 <= j < i ==> (self.subs@[j].pending@, self.subs@[j].missed)
                        == queue_after_publish(
                        old(self).subs@[j].pending@,
                        old(self).subs@[j].missed,
                        cap as nat,
                        e,
                    ),
                forall|j: int| i <= j < n ==> self.subs@[j] == old(self).subs@[j],
            decreases n - i,
        {
            self.subs[i].publish(cap, e);
            i = i + 1;
        }
    }

    /// Reads once for subscriber `id`: a loss notice if events were dropped
    /// since the last read (which clears the count), else the oldest unread
    /// event (which leaves the queue), else `Closed` or `Empty`.
    pub fn recv(&mut self, id: usize) -> (r: RecvResult)
        requires
            old(self).well_formed(),
            id < old(self).subscribers(),
        ensures
            final(self).well_formed(),
            r == recv_spec(old(self).pending(id as int), old(self).missed(id as int), old(self).is_closed()),
            final(self).subscribers() == old(self).subscribers(),
            final(self).cap() == old(self).cap(),
            final(self).is_closed() == old(self).is_closed(),
            r is Lagged ==> final(self).missed(id as int) == 0
                && final(self).pending(id as int) == old(self).pending(id as int),
            r is Event ==> final(self).missed(id as int) == 0
                && final(self).pending(id as int) == old(self).pending(id as int).drop_first(),
            (r is Empty || r is Closed) ==> final(self).missed(id as int) == old(self).missed(id as int)
                && final(self).pending(id as int) == old(self).pending(id as int),
            forall|i: int|
                0 <= i < old(self).subscribers() && i != id ==> final(self).pending(i) == old(self).pending(i)
                    && final(self).missed(i) == old(self).missed(i),
    {
        let closed = self.closed;
        self.subs[id].take(closed)
    }

    /// Closes the bus: nothing published afterwards is delivered, and each
    /// subscriber reads `Closed` once its queue is drained.
    pub fn close(&mut self)
        requires
            old(self).well_formed(),
        ensures
            final(self).well_formed(),
            final(self).is_closed(),
            final(self).subscribers() == old(self).subscribers(),
            final(self).cap() == old(self).cap(),
            forall|i: int|
                0 <= i < old(self).subscribers() ==> final(self).pending(i) == old(self).pending(i)
                    && final(self).missed(i) == old(self).missed(i),
    {
        self.closed = true;
    }
}

proof fn lemma_queue_after_all_bounds(q: Seq<AAPEvent>, missed: u64, cap: nat, es: Seq<AAPEvent>)
    requires
        cap > 0,
        q.len() <= cap,
    ensures
        queue_after_all(q, missed, cap, es).0.len() == if q.len() + es.len() <= cap {
            q.len() + es.len()
        } else {
            cap
        },
        queue_after_all(q, missed, cap, es).1 >= missed,
        q.len() + es.len() > cap ==> queue_after_all(q, missed, cap, es).1 > 0,
    decreases es.len(),
{
    if es.len() > 0 {
        lemma_queue_after_all_bounds(q, missed, cap, es.drop_last());
    }
}

/// A subscriber that reads nothing while more events are published than its
/// queue holds keeps at most that many events, and its next read reports the
/// loss rather than an event.
pub proof fn lemma_slow_subscriber_sees_loss(
    q: Seq<AAPEvent>,
    missed: u64,
    cap: nat,
    es: Seq<AAPEvent>,
    closed: bool,
)
    requires
        cap > 0,
        q.len() <= cap,
        q.len() + es.len() > cap,
    ensures
        queue_after_all(q, missed, cap, es).0.len() == cap,
        recv_spec(queue_after_all(q, missed, cap, es).0, queue_after_all(q, missed, cap, es).1, closed)
            is Lagged,
{
    lemma_queue_after_all_bounds(q, missed, cap, es);
}

/// Whatever is published, a subscriber's queue never holds more than its capacity.
pub proof fn lemma_queue_stays_bounded(q: Seq<AAPEvent>, missed: u64, cap: nat, es: Seq<AAPEvent>)
    requires
        cap > 0,
        q.len() <= cap,
    ensures
        queue_after_all(q, missed, cap, es).0.len() <= cap,
{
    lemma_queue_after_all_bounds(q, missed, cap, es);
}

} // verus!
