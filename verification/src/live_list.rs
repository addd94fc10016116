//! Bounded, cursor-addressable live view of recent records.
//!
//! The list keeps at most `capacity` records in arrival order, evicting the
//! oldest past capacity, and carries an optional selection cursor. The cursor
//! is `None` exactly while the list is empty; otherwise it indexes a stored
//! record. When the oldest record is evicted the cursor shifts down with the
//! records it points into (never below zero), and a cursor sitting on the
//! last record follows the tail as new records arrive — a consumer watching
//! "latest" keeps seeing the latest, while one who scrolled back stays put.

use vstd::prelude::*;

use crate::mailbox::Mailbox;

verus! {

/// Mathematical model of a [`LiveLogList`]: its records, cursor and bound.
pub ghost struct LiveView {
    pub entries: Seq<Seq<u8>>,
    pub cursor: Option<int>,
    pub capacity: int,
}

/// The cursor invariant: `None` exactly on an empty list, otherwise in
/// bounds, and never more records than the bound allows.
pub open spec fn view_wf(m: LiveView) -> bool {
    &&& m.capacity > 0
    &&& m.entries.len() <= m.capacity
    &&& (m.cursor is None <==> m.entries.len() == 0)
    &&& (m.cursor matches Some(c) ==> 0 <= c < m.entries.len())
}

/// One record arriving at the view: evict the oldest if at capacity, append,
/// and keep the cursor consistent — shifted down by an eviction if it can
/// be, following the tail if it sat on the previous last record.
pub open spec fn add_model(m: LiveView, r: Seq<u8>) -> LiveView {
    let entries = if m.entries.len() == m.capacity {
        m.entries.drop_first().push(r)
    } else {
        m.entries.push(r)
    };
    let cursor = if m.entries.len() == 0 {
        Some(0int)
    } else {
        let c = m.cursor->Some_0;
        if c == m.entries.len() - 1 {
            Some(entries.len() - 1)
        } else if m.entries.len() == m.capacity && c > 0 {
            Some(c - 1)
        } else {
            Some(c)
        }
    };
    LiveView { entries, cursor, capacity: m.capacity }
}

/// A whole burst arriving at the view, oldest first.
pub open spec fn add_all_model(m: LiveView, rs: Seq<Seq<u8>>) -> LiveView
    decreases rs.len(),
{
    if rs.len() == 0 {
        m
    } else {
        add_all_model(add_model(m, rs[0]), rs.drop_first())
    }
}

pub struct LiveLogList {
    items: Vec<Vec<u8>>,
    cursor: Option<usize>,
    capacity: usize,
}

impl LiveLogList {
    pub closed spec fn model(self) -> LiveView {
        LiveView {
            entries: Seq::new(self.items@.len(), |i: int| self.items@[i]@),
            cursor: match self.cursor {
                Some(c) => Some(c as int),
                None => None,
            },
            capacity: self.capacity as int,
        }
    }

    pub open spec fn entries(self) -> Seq<Seq<u8>> {
        self.model().entries
    }

    pub open spec fn cursor(self) -> Option<int> {
        self.model().cursor
    }

    pub open spec fn capacity(self) -> int {
        self.model().capacity
    }

    pub open spec fn wf(self) -> bool {
        view_wf(self.model())
    }

    pub fn new(capacity: usize) -> (l: LiveLogList)
        requires
            capacity > 0,
        ensures
            l.wf(),
            l.capacity() == capacity,
            l.entries() == Seq::<Seq<u8>>::empty(),
            l.cursor() is None,
    {
        proof {
            assert(Seq::new(0nat, |i: int| Seq::<u8>::empty()) =~= Seq::<Seq<u8>>::empty());
        }
        LiveLogList { items: Vec::new(), cursor: None, capacity }
    }

    /// Appends one record, evicting the oldest when at capacity, and moves
    /// the cursor as [`add_model`] says.
    pub fn add(&mut self, record: Vec<u8>)
        requires
            old(self).wf(),
        ensures
            final(self).wf(),
            final(self).capacity() == old(self).capacity(),
            final(self).model() == add_model(old(self).model(), record@),
    {
        let ghost m0 = self.model();
        let ghost r: Seq<u8> = record@;
        let was_empty = self.items.len() == 0;
        let was_last = match self.cursor {
            Some(c) => !was_empty && c == self.items.len() - 1,
            None => false,
        };
        if self.items.len() >= self.capacity {
            self.items.remove(0);
            match self.cursor {
                Some(c) => {
                    if c > 0 {
                        self.cursor = Some(c - 1);
                    }
                },
                None => {},
            }
        }
        self.items.push(record);
        if was_empty {
            self.cursor = Some(0);
        } else if was_last {
            self.cursor = Some(self.items.len() - 1);
        }
        proof {
            assert(self.model().entries =~= add_model(m0, r).entries);
            assert(self.model() == add_model(m0, r));
        }
    }

    /// Moves the cursor one record toward the newest; a no-op at the tail or
    /// on an empty list.
    pub fn move_next(&mut self)
        requires
            old(self).wf(),
        ensures
            final(self).wf(),
            final(self).entries() == old(self).entries(),
            final(self).capacity() == old(self).capacity(),
            final(self).cursor() == (match old(self).cursor() {
                Some(c) => if c < old(self).entries().len() - 1 {
                    Some(c + 1)
                } else {
                    Some(c)
                },
                None => None::<int>,
            }),
    {
        match self.cursor {
            Some(c) => {
                if c + 1 < self.items.len() {
                    self.cursor = Some(c + 1);
                }
            },
            None => {},
        }
    }

    /// Moves the cursor one record toward the oldest; a no-op at the head or
    /// on an empty list.
    pub fn move_previous(&mut self)
        requires
            old(self).wf(),
        ensures
            final(self).wf(),
            final(self).entries() == old(self).entries(),
            final(self).capacity() == old(self).capacity(),
            final(self).cursor() == (match old(self).cursor() {
                Some(c) => if c > 0 {
                    Some(c - 1)
                } else {
                    Some(c)
                },
                None => None::<int>,
            }),
    {
        match self.cursor {
            Some(c) => {
                if c > 0 {
                    self.cursor = Some(c - 1);
                }
            },
            None => {},
        }
    }

    /// Moves every record now pending in the mailbox into the view, oldest
    /// first, in one pass — after a burst of activity the view catches up
    /// completely before control returns to rendering.
    pub fn drain(&mut self, mbox: &mut Mailbox)
        requires
            old(self).wf(),
            old(mbox).wf(),
        ensures
            final(self).wf(),
            final(mbox).wf(),
            final(mbox).contents().len() == 0,
            final(mbox).capacity() == old(mbox).capacity(),
            final(self).capacity() == old(self).capacity(),
            final(self).model() == add_all_model(old(self).model(), old(mbox).contents()),
    {
        let ghost m0 = self.model();
        let ghost rs0 = mbox.contents();
        loop
            invariant
                self.wf(),
                mbox.wf(),
                self.capacity() == m0.capacity,
                mbox.capacity() == old(mbox).capacity(),
                add_all_model(self.model(), mbox.contents()) == add_all_model(m0, rs0),
            ensures
                self.wf(),
                mbox.wf(),
                self.capacity() == m0.capacity,
                mbox.capacity() == old(mbox).capacity(),
                mbox.contents().len() == 0,
                add_all_model(self.model(), mbox.contents()) == add_all_model(m0, rs0),
            decreases mbox.contents().len(),
        {
            let nxt = mbox.try_recv();
            match nxt {
                Some(v) => {
                    self.add(v);
                },
                None => {
                    break;
                },
            }
        }
    }

    pub fn len(&self) -> (n: usize)
        ensures
            n == self.entries().len(),
    {
        self.items.len()
    }

    pub fn is_empty(&self) -> (r: bool)
        ensures
            r == (self.entries().len() == 0),
    {
        self.items.len() == 0
    }

    /// The current selection, if any.
    pub fn selected(&self) -> (r: Option<usize>)
        ensures
            r is None <==> self.cursor() is None,
            r matches Some(c) ==> self.cursor() == Some(c as int),
    {
        self.cursor
    }

    /// The record at position `i`, oldest first.
    pub fn get(&self, i: usize) -> (r: &Vec<u8>)
        requires
            i < self.entries().len(),
        ensures
            r@ == self.entries()[i as int],
    {
        &self.items[i]
    }
}

} // verus!
