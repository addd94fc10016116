//! Bounded FIFO mailbox between the record feed and its consumer.
//!
//! This is the backpressure point of the consumer side: a send into a full
//! mailbox is refused, and the caller suspends until the consumer has drained
//! something — the slow consumer throttles the upstream read, never the other
//! way around, and no record is dropped silently.

use vstd::prelude::*;

verus! {

pub struct Mailbox {
    queue: Vec<Vec<u8>>,
    capacity: usize,
}

impl Mailbox {
    /// The queued records, oldest first.
    pub closed spec fn contents(self) -> Seq<Seq<u8>> {
        Seq::new(self.queue@.len(), |i: int| self.queue@[i]@)
    }

    pub closed spec fn capacity(self) -> int {
        self.capacity as int
    }

    pub closed spec fn wf(self) -> bool {
        &&& self.capacity > 0
        &&& self.queue@.len() <= self.capacity
    }

    pub fn new(capacity: usize) -> (m: Mailbox)
        requires
            capacity > 0,
        ensures
            m.wf(),
            m.capacity() == capacity,
            m.contents() == Seq::<Seq<u8>>::empty(),
    {
        proof {
            assert(Seq::new(0nat, |i: int| Seq::<u8>::empty()) =~= Seq::<Seq<u8>>::empty());
        }
        Mailbox { queue: Vec::new(), capacity }
    }

    /// Enqueues a record unless the mailbox is full. A refusal is the signal
    /// to suspend: the caller keeps the record and retries once the consumer
    /// has drained.
    pub fn try_send(&mut self, record: Vec<u8>) -> (accepted: bool)
        requires
            old(self).wf(),
        ensures
            final(self).wf(),
            final(self).capacity() == old(self).capacity(),
            accepted == (old(self).contents().len() < old(self).capacity()),
            accepted ==> final(self).contents() == old(self).contents().push(record@),
            !accepted ==> *final(self) == *old(self),
    {
        if self.queue.len() < self.capacity {
            let ghost r: Seq<u8> = record@;
            self.queue.push(record);
            proof {
                assert(self.contents() =~= old(self).contents().push(r));
            }
            true
        } else {
            false
        }
    }

    /// Dequeues the oldest record, or reports the mailbox empty.
    pub fn try_recv(&mut self) -> (r: Option<Vec<u8>>)
        requires
            old(self).wf(),
        ensures
            final(self).wf(),
            final(self).capacity() == old(self).capacity(),
            old(self).contents().len() == 0 ==> r is None && *final(self) == *old(self),
            old(self).contents().len() > 0 ==> (r matches Some(v) && v@ == old(self).contents()[0])
                && final(self).contents() == old(self).contents().drop_first(),
    {
        if self.queue.len() == 0 {
            None
        } else {
            let v = self.queue.remove(0);
            proof {
                assert(self.contents() =~= old(self).contents().drop_first());
            }
            Some(v)
        }
    }

    pub fn len(&self) -> (n: usize)
        ensures
            n == self.contents().len(),
    {
        self.queue.len()
    }

    pub fn is_empty(&self) -> (r: bool)
        ensures
            r == (self.contents().len() == 0),
    {
        self.queue.len() == 0
    }
}

} // verus!
