//! Bounded replay buffer with broadcast fan-out.
//!
//! A [`Sender`] owns an insertion-ordered store of the most recent records,
//! evicting the oldest once it is at capacity. A [`Receiver`] is a cursor into
//! the stream of all records ever sent: its first reads replay the records
//! that were in the store when it subscribed (the snapshot), after which it
//! yields records as they are sent. A receiver that falls further behind than
//! the store's capacity skips the evicted records and is told how many it
//! missed; it then resumes from the oldest record still stored.
//!
//! Because a subscription is created under the same exclusive access as a
//! send, a record sent around subscription time is seen exactly once: either
//! it is already in the store (part of the snapshot) or it is not yet sent
//! (part of the live feed), never both and never neither.

use vstd::prelude::*;

verus! {

/// Producer side of the replay buffer.
pub struct Sender {
    capacity: usize,
    store: Vec<Vec<u8>>,
    sent: u64,
    subscribers: u64,
    history: Ghost<Seq<Seq<u8>>>,
}

/// One subscriber's cursor into the record stream.
pub struct Receiver {
    next: u64,
    start: Ghost<int>,
    received: Ghost<Seq<Seq<u8>>>,
    lagged: Ghost<bool>,
}

/// What one read from a subscription yields.
#[derive(Debug)]
pub enum RecvOutcome {
    /// The next record of this subscription's feed.
    Record(Vec<u8>),
    /// The subscription fell behind and skipped this many records; it now
    /// resumes at the oldest record still stored.
    Lagged(u64),
    /// No record has been sent past this cursor yet.
    Empty,
}

impl Sender {
    /// Every record ever sent, oldest first.
    pub closed spec fn records(self) -> Seq<Seq<u8>> {
        self.history@
    }

    /// Bound on how many records the store retains.
    pub closed spec fn capacity(self) -> int {
        self.capacity as int
    }

    /// How many subscriptions are attached.
    pub closed spec fn subscriber_count(self) -> int {
        self.subscribers as int
    }

    /// How many of the sent records have been evicted from the store: all
    /// but the most recent `capacity` of them.
    pub open spec fn evicted(self) -> int {
        vstd::math::max(0, self.records().len() - self.capacity())
    }

    /// The records currently stored, oldest first.
    pub closed spec fn stored(self) -> Seq<Seq<u8>> {
        Seq::new(self.store@.len(), |i: int| self.store@[i]@)
    }

    pub closed spec fn wf(self) -> bool {
        &&& self.capacity > 0
        &&& self.history@.len() == self.sent
        &&& self.store@.len() == vstd::math::min(self.sent as int, self.capacity as int)
        &&& forall|i: int|
            0 <= i < self.store@.len() ==> #[trigger] self.store@[i]@ == self.history@[self.evicted() + i]
    }

    /// How many records have ever been sent.
    pub fn record_count(&self) -> (n: u64)
        requires
            self.wf(),
        ensures
            n == self.records().len(),
    {
        self.sent
    }

    /// How many subscriptions are attached.
    pub fn subscriber_total(&self) -> (n: u64)
        ensures
            n == self.subscriber_count(),
    {
        self.subscribers
    }

    /// Appends a record, evicting the oldest if the store is at capacity, and
    /// reports how many subscribers there are to receive it. Sending with no
    /// subscribers is not an error: the record is still retained for replay.
    pub fn send(&mut self, value: Vec<u8>) -> (count: u64)
        requires
            old(self).wf(),
            old(self).records().len() < u64::MAX,
        ensures
            final(self).wf(),
            final(self).records() == old(self).records().push(value@),
            final(self).capacity() == old(self).capacity(),
            final(self).subscriber_count() == old(self).subscriber_count(),
            count == old(self).subscriber_count(),
    {
        let ghost v: Seq<u8> = value@;
        if self.store.len() >= self.capacity {
            self.store.remove(0);
        }
        self.store.push(value);
        self.sent = self.sent + 1;
        proof {
            self.history@ = self.history@.push(v);
        }
        self.subscribers
    }

    /// Creates a subscription whose feed starts at the oldest record still
    /// stored: its first reads replay the current store content, after which
    /// it follows new sends.
    pub fn subscribe(&mut self) -> (r: Receiver)
        requires
            old(self).wf(),
            old(self).subscriber_count() < u64::MAX,
        ensures
            final(self).wf(),
            final(self).records() == old(self).records(),
            final(self).capacity() == old(self).capacity(),
            final(self).subscriber_count() == old(self).subscriber_count() + 1,
            r.wf(*final(self)),
            r.feed_start() == old(self).evicted(),
            r.position() == old(self).evicted(),
            r.received() == Seq::<Seq<u8>>::empty(),
            !r.ever_lagged(),
    {
        self.subscribers = self.subscribers + 1;
        let next: u64 = self.sent - self.store.len() as u64;
        proof {
            assert(Seq::<Seq<u8>>::empty() =~= self.records().subrange(next as int, next as int));
        }
        Receiver {
            next,
            start: Ghost(next as int),
            received: Ghost(Seq::empty()),
            lagged: Ghost(false),
        }
    }

    /// Detaches one subscription. Receivers do not report back to the sender
    /// on their own, so whoever retires one — discarding it, or just ceasing
    /// to read it — says so here to keep the subscriber count accurate.
    pub fn unsubscribe(&mut self)
        requires
            old(self).wf(),
            old(self).subscriber_count() > 0,
        ensures
            final(self).wf(),
            final(self).records() == old(self).records(),
            final(self).capacity() == old(self).capacity(),
            final(self).subscriber_count() == old(self).subscriber_count() - 1,
    {
        self.subscribers = self.subscribers - 1;
    }
}

/// Creates a replay buffer that retains the most recent `capacity` records.
pub fn channel(capacity: usize) -> (s: Sender)
    requires
        capacity > 0,
    ensures
        s.wf(),
        s.records() == Seq::<Seq<u8>>::empty(),
        s.capacity() == capacity,
        s.subscriber_count() == 0,
{
    Sender {
        capacity,
        store: Vec::new(),
        sent: 0,
        subscribers: 0,
        history: Ghost(Seq::empty()),
    }
}

impl Receiver {
    /// Index into the sender's record stream where this feed began.
    pub closed spec fn feed_start(self) -> int {
        self.start@
    }

    /// Index of the next record this subscription will read.
    pub closed spec fn position(self) -> int {
        self.next as int
    }

    /// The records this subscription has yielded, in the order it yielded
    /// them.
    pub closed spec fn received(self) -> Seq<Seq<u8>> {
        self.received@
    }

    /// Whether this subscription ever skipped records after falling behind.
    pub closed spec fn ever_lagged(self) -> bool {
        self.lagged@
    }

    pub closed spec fn wf(self, s: Sender) -> bool {
        &&& 0 <= self.start@ <= self.next <= s.records().len()
        &&& !self.lagged@ ==> self.received@ == s.records().subrange(self.start@, self.next as int)
    }

    /// Reads the next record of this subscription's feed: first the snapshot
    /// taken at subscription time, then records as they are sent. If the
    /// cursor has fallen behind the sender's retained window, the evicted
    /// records are skipped and counted, and reading resumes from the oldest
    /// record still stored.
    pub fn recv(&mut self, s: &Sender) -> (r: RecvOutcome)
        requires
            s.wf(),
            old(self).wf(*s),
        ensures
            final(self).wf(*s),
            final(self).feed_start() == old(self).feed_start(),
            ({
                let pos = old(self).position();
                if pos == s.records().len() {
                    &&& r matches RecvOutcome::Empty
                    &&& *final(self) == *old(self)
                } else if pos < s.evicted() {
                    &&& r matches RecvOutcome::Lagged(n) && n == s.evicted() - pos
                    &&& final(self).position() == s.evicted()
                    &&& final(self).received() == old(self).received()
                    &&& final(self).ever_lagged()
                } else {
                    &&& r matches RecvOutcome::Record(v) && v@ == s.records()[pos]
                    &&& final(self).position() == pos + 1
                    &&& final(self).received() == old(self).received().push(s.records()[pos])
                    &&& final(self).ever_lagged() == old(self).ever_lagged()
                }
            }),
    {
        let evicted: u64 = s.sent - s.store.len() as u64;
        if self.next >= s.sent {
            RecvOutcome::Empty
        } else if self.next < evicted {
            let n = evicted - self.next;
            self.next = evicted;
            proof {
                self.lagged@ = true;
            }
            RecvOutcome::Lagged(n)
        } else {
            let idx: usize = (self.next - evicted) as usize;
            let v = s.store[idx].clone();
            proof {
                assert(v@ =~= s.store@[idx as int]@);
                self.received@ = self.received@.push(s.records()[self.next as int]);
                assert(s.records().subrange(self.start@, self.next + 1)
                    =~= s.records().subrange(self.start@, self.next as int).push(
                    s.records()[self.next as int]));
            }
            self.next = self.next + 1;
            RecvOutcome::Record(v)
        }
    }
}

/// The store always holds exactly the most recent `min(k, capacity)` of the
/// `k` records sent, in send order.
pub proof fn lemma_store_is_recent_window(s: Sender)
    requires
        s.wf(),
    ensures
        s.stored().len() == vstd::math::min(s.records().len() as int, s.capacity()),
        s.stored() == s.records().subrange(s.evicted(), s.records().len() as int),
{
    assert(s.stored() =~= s.records().subrange(s.evicted(), s.records().len() as int));
}

/// A subscription that never lagged has received exactly the records of its
/// feed so far — every record from its starting point up to its cursor, in
/// send order, each exactly once. In particular, one that subscribed before
/// any send (so its feed starts at record 0) has received every record sent,
/// in order, with no duplication and no gap.
pub proof fn lemma_no_lag_receives_every_record(r: Receiver, s: Sender)
    requires
        s.wf(),
        r.wf(s),
        !r.ever_lagged(),
    ensures
        r.received() == s.records().subrange(r.feed_start(), r.position()),
        r.feed_start() == 0 ==> r.received() == s.records().take(r.position()),
{
    assert(s.records().subrange(0, r.position()) == s.records().take(r.position()));
}

/// While no record has been evicted yet (at most `capacity` records sent), a
/// new subscription's feed starts at the very first record: its snapshot
/// replays all existing records, oldest to newest, before the live feed
/// continues — nothing is duplicated, because the cursor only moves forward.
pub proof fn lemma_full_replay_before_eviction(s: Sender)
    requires
        s.wf(),
        s.records().len() <= s.capacity(),
    ensures
        s.evicted() == 0,
{
}

/// A receiver stays well-formed as the sender keeps sending: its feed is
/// about the sender's past, which sending never rewrites.
pub proof fn lemma_receiver_wf_preserved_by_send(r: Receiver, s_old: Sender, s_new: Sender)
    requires
        s_old.wf(),
        s_new.wf(),
        r.wf(s_old),
        s_old.records().is_prefix_of(s_new.records()),
    ensures
        r.wf(s_new),
{
    assert(s_new.records().subrange(r.feed_start(), r.position())
        =~= s_old.records().subrange(r.feed_start(), r.position()));
}

} // verus!
