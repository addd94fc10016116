//! Fan-out of the replay buffer to many viewer connections.
//!
//! The service runs an accept loop over an externally produced stream of
//! incoming connections, racing acceptance against the cancellation signal.
//! Each accepted connection gets its own subscription to the replay buffer
//! and its own forwarding task: the task repeatedly asks
//! [`next_action`](FanoutService::next_action) what to do — write the next
//! record, note that the subscription skipped ahead, or wait — and performs
//! the transport write itself. A write error or a cancellation ends only
//! that one connection, through
//! [`connection_closed`](FanoutService::connection_closed); the accept loop
//! and every other connection continue untouched.

use vstd::prelude::*;

use crate::history::{Receiver, RecvOutcome, Sender};

verus! {

/// One attached viewer connection: its subscription and whether its
/// forwarding task is still running.
pub struct Viewer {
    rx: Receiver,
    active: bool,
}

impl Viewer {
    /// Whether this connection's forwarding task is still running.
    pub closed spec fn is_active(self) -> bool {
        self.active
    }

    /// Where in the record stream this viewer's feed began.
    pub closed spec fn feed_start(self) -> int {
        self.rx.feed_start()
    }

    /// Index of the next record this viewer will be handed.
    pub closed spec fn position(self) -> int {
        self.rx.position()
    }

    /// Every record handed to this connection, in delivery order.
    pub closed spec fn delivered(self) -> Seq<Seq<u8>> {
        self.rx.received()
    }

    /// Whether this viewer's subscription ever skipped records.
    pub closed spec fn ever_lagged(self) -> bool {
        self.rx.ever_lagged()
    }

    pub closed spec fn wf(self, s: Sender) -> bool {
        self.rx.wf(s)
    }
}

/// What a per-connection forwarding task does next.
#[derive(Debug)]
pub enum ForwardAction {
    /// Write this record to the connection.
    Write(Vec<u8>),
    /// The subscription fell behind and skipped this many records; the feed
    /// resumes from the oldest record still buffered.
    SkippedAhead(u64),
    /// Nothing pending: wait for the next send or for cancellation.
    Idle,
    /// This connection is closed; the task is done.
    Stopped,
}

pub struct FanoutService {
    accepting: bool,
    viewers: Vec<Viewer>,
}

impl FanoutService {
    /// Whether the accept loop is still taking new connections.
    pub closed spec fn accepting(self) -> bool {
        self.accepting
    }

    pub closed spec fn viewer_count(self) -> int {
        self.viewers@.len() as int
    }

    /// The state of the connection accepted `i`-th.
    pub closed spec fn viewer(self, i: int) -> Viewer {
        self.viewers@[i]
    }

    pub closed spec fn wf(self, s: Sender) -> bool {
        forall|i: int| 0 <= i < self.viewers@.len() ==> (#[trigger] self.viewers@[i]).wf(s)
    }

    pub fn new() -> (f: FanoutService)
        ensures
            f.accepting(),
            f.viewer_count() == 0,
            forall|s: Sender| f.wf(s),
    {
        FanoutService { accepting: true, viewers: Vec::new() }
    }

    pub fn is_accepting(&self) -> (r: bool)
        ensures
            r == self.accepting(),
    {
        self.accepting
    }

    /// Accepts one incoming connection: subscribes it to the replay buffer —
    /// under the same exclusive access as any send, so its snapshot and live
    /// feed meet without gap or overlap — and registers its forwarding task.
    pub fn accept(&mut self, s: &mut Sender) -> (id: usize)
        requires
            old(self).accepting(),
            old(self).wf(*old(s)),
            old(s).wf(),
            old(s).subscriber_count() < u64::MAX,
            old(self).viewer_count() < usize::MAX,
        ensures
            final(s).wf(),
            final(s).records() == old(s).records(),
            final(s).capacity() == old(s).capacity(),
            final(s).subscriber_count() == old(s).subscriber_count() + 1,
            final(self).wf(*final(s)),
            final(self).accepting(),
            id == old(self).viewer_count(),
            final(self).viewer_count() == old(self).viewer_count() + 1,
            forall|i: int|
                0 <= i < old(self).viewer_count() ==> final(self).viewer(i) == old(self).viewer(
                    i,
                ),
            final(self).viewer(id as int).is_active(),
            final(self).viewer(id as int).feed_start() == old(s).evicted(),
            final(self).viewer(id as int).position() == old(s).evicted(),
            final(self).viewer(id as int).delivered() == Seq::<Seq<u8>>::empty(),
            !final(self).viewer(id as int).ever_lagged(),
    {
        let rx = s.subscribe();
        let id = self.viewers.len();
        proof {
            assert forall|i: int| 0 <= i < self.viewers@.len() implies (#[trigger] self.viewers@[i]).wf(
                *s,
            ) by {
                crate::history::lemma_receiver_wf_preserved_by_send(
                    self.viewers@[i].rx,
                    *old(s),
                    *s,
                );
            }
        }
        self.viewers.push(Viewer { rx, active: true });
        id
    }

    /// Asks what the forwarding task of connection `id` should do next:
    /// write the next record of its subscription's feed, tell the viewer it
    /// skipped ahead, wait, or — once the connection is closed — stop.
    pub fn next_action(&mut self, s: &Sender, id: usize) -> (a: ForwardAction)
        requires
            old(self).wf(*s),
            s.wf(),
            0 <= id < old(self).viewer_count(),
        ensures
            final(self).wf(*s),
            final(self).accepting() == old(self).accepting(),
            final(self).viewer_count() == old(self).viewer_count(),
            forall|i: int|
                0 <= i < old(self).viewer_count() && i != id ==> final(self).viewer(i) == old(
                    self,
                ).viewer(i),
            ({
                let v = old(self).viewer(id as int);
                let vf = final(self).viewer(id as int);
                if !v.is_active() {
                    &&& a matches ForwardAction::Stopped
                    &&& vf == v
                } else if v.position() == s.records().len() {
                    &&& a matches ForwardAction::Idle
                    &&& vf == v
                } else if v.position() < s.evicted() {
                    &&& a matches ForwardAction::SkippedAhead(n) && n == s.evicted()
                        - v.position()
                    &&& vf.is_active()
                    &&& vf.feed_start() == v.feed_start()
                    &&& vf.position() == s.evicted()
                    &&& vf.delivered() == v.delivered()
                    &&& vf.ever_lagged()
                } else {
                    &&& a matches ForwardAction::Write(r) && r@ == s.records()[v.position()]
                    &&& vf.is_active()
                    &&& vf.feed_start() == v.feed_start()
                    &&& vf.position() == v.position() + 1
                    &&& vf.delivered() == v.delivered().push(s.records()[v.position()])
                    &&& vf.ever_lagged() == v.ever_lagged()
                }
            }),
    {
        let v = &mut self.viewers[id];
        if !v.active {
            return ForwardAction::Stopped;
        }
        match v.rx.recv(s) {
            RecvOutcome::Empty => ForwardAction::Idle,
            RecvOutcome::Lagged(n) => ForwardAction::SkippedAhead(n),
            RecvOutcome::Record(r) => ForwardAction::Write(r),
        }
    }

    /// Ends one connection — its transport errored, closed, or its task
    /// observed cancellation. Only that connection stops: every other
    /// viewer's subscription and delivery state is untouched, and the accept
    /// loop keeps running.
    pub fn connection_closed(&mut self, s: &mut Sender, id: usize)
        requires
            old(self).wf(*old(s)),
            old(s).wf(),
            0 <= id < old(self).viewer_count(),
            old(self).viewer(id as int).is_active(),
            old(s).subscriber_count() > 0,
        ensures
            final(s).wf(),
            final(s).records() == old(s).records(),
            final(s).capacity() == old(s).capacity(),
            final(s).subscriber_count() == old(s).subscriber_count() - 1,
            final(self).wf(*final(s)),
            final(self).accepting() == old(self).accepting(),
            final(self).viewer_count() == old(self).viewer_count(),
            forall|i: int|
                0 <= i < old(self).viewer_count() && i != id ==> final(self).viewer(i) == old(
                    self,
                ).viewer(i),
            !final(self).viewer(id as int).is_active(),
            final(self).viewer(id as int).feed_start() == old(self).viewer(
                id as int,
            ).feed_start(),
            final(self).viewer(id as int).position() == old(self).viewer(id as int).position(),
            final(self).viewer(id as int).delivered() == old(self).viewer(id as int).delivered(),
            final(self).viewer(id as int).ever_lagged() == old(self).viewer(
                id as int,
            ).ever_lagged(),
    {
        let v = &mut self.viewers[id];
        v.active = false;
        s.unsubscribe();
        proof {
            assert forall|i: int| 0 <= i < self.viewers@.len() implies (#[trigger] self.viewers@[i]).wf(
                *s,
            ) by {
                crate::history::lemma_receiver_wf_preserved_by_send(
                    self.viewers@[i].rx,
                    *old(s),
                    *s,
                );
            }
        }
    }

    /// Ends the accept loop — the incoming-connection stream finished, or
    /// cancellation fired. Connections already attached are not touched
    /// here: each forwarding task observes the same cancellation signal on
    /// its own and ends through
    /// [`connection_closed`](Self::connection_closed).
    pub fn stop_accepting(&mut self)
        ensures
            !final(self).accepting(),
            final(self).viewer_count() == old(self).viewer_count(),
            forall|i: int|
                0 <= i < old(self).viewer_count() ==> final(self).viewer(i) == old(self).viewer(
                    i,
                ),
    {
        self.accepting = false;
    }

    pub fn viewers_len(&self) -> (n: usize)
        ensures
            n == self.viewer_count(),
    {
        self.viewers.len()
    }

    pub fn viewer_is_active(&self, id: usize) -> (r: bool)
        requires
            0 <= id < self.viewer_count(),
        ensures
            r == self.viewer(id as int).is_active(),
    {
        self.viewers[id].active
    }
}

/// With several viewers attached, each one that never lagged has been handed
/// exactly the records of its own feed — every record from its attachment
/// point up to its cursor, in send order — regardless of what happened to
/// any other connection: the viewers' states are disjoint, and
/// [`connection_closed`](FanoutService::connection_closed) on one leaves
/// every other viewer's delivery untouched.
pub proof fn lemma_each_viewer_receives_its_feed(f: FanoutService, s: Sender, i: int, j: int)
    requires
        s.wf(),
        f.wf(s),
        0 <= i < f.viewer_count(),
        0 <= j < f.viewer_count(),
        !f.viewer(i).ever_lagged(),
        !f.viewer(j).ever_lagged(),
    ensures
        f.viewer(i).delivered() == s.records().subrange(
            f.viewer(i).feed_start(),
            f.viewer(i).position(),
        ),
        f.viewer(j).delivered() == s.records().subrange(
            f.viewer(j).feed_start(),
            f.viewer(j).position(),
        ),
{
    crate::history::lemma_no_lag_receives_every_record(f.viewer(i).rx, s);
    crate::history::lemma_no_lag_receives_every_record(f.viewer(j).rx, s);
}

} // verus!
