//! Consumer-side reconnecting feed.
//!
//! The client keeps a live record feed flowing into a bounded mailbox
//! despite transport instability. It cycles `Disconnected → Connecting →
//! Connected` and back: a failed connection attempt sets an earliest-retry
//! instant one backoff interval ahead, so retries never hot-loop against a
//! down endpoint; a decode error or end of stream drops it back to
//! `Disconnected` for an immediate fresh attempt. The loop has no terminal
//! state — it runs until its owner tears it down.
//!
//! The owner drives it: it asks [`should_attempt`] when it could connect,
//! performs the actual transport work, and reports what happened. Records
//! decoded while connected go through [`forward`] into the mailbox; a full
//! mailbox refuses the record, and the owner suspends and retries — the slow
//! consumer throttles the read, not the other way around.
//!
//! [`should_attempt`]: ReconnectingClient::should_attempt
//! [`forward`]: ReconnectingClient::forward

use vstd::prelude::*;

use crate::mailbox::Mailbox;

verus! {

#[derive(Clone, Copy, Debug, PartialEq, Eq, Structural)]
pub enum ClientPhase {
    Disconnected,
    Connecting,
    Connected,
}

pub struct ReconnectingClient {
    phase: ClientPhase,
    backoff: u64,
    earliest_retry: u64,
    attempts: u64,
    forwarded: Ghost<Seq<Seq<u8>>>,
}

impl ReconnectingClient {
    pub closed spec fn phase(self) -> ClientPhase {
        self.phase
    }

    /// Minimum spacing between a failed connection attempt and the next one.
    pub closed spec fn backoff(self) -> int {
        self.backoff as int
    }

    /// No connection attempt may begin before this instant.
    pub closed spec fn earliest_retry(self) -> int {
        self.earliest_retry as int
    }

    /// How many connection attempts have been started.
    pub closed spec fn attempts(self) -> int {
        self.attempts as int
    }

    /// Every record forwarded into the mailbox, in forwarding order.
    pub closed spec fn forwarded(self) -> Seq<Seq<u8>> {
        self.forwarded@
    }

    /// Whether a connection attempt may begin at instant `now`.
    pub closed spec fn may_attempt(self, now: int) -> bool {
        self.phase == ClientPhase::Disconnected && now >= self.earliest_retry
    }

    /// The client as it stands after a connection attempt fails at `now`.
    pub closed spec fn after_failure(self, now: int) -> ReconnectingClient {
        ReconnectingClient {
            phase: ClientPhase::Disconnected,
            earliest_retry: (now + self.backoff) as u64,
            ..self
        }
    }

    pub fn new(backoff: u64) -> (c: ReconnectingClient)
        requires
            backoff >= 1,
        ensures
            c.phase() == ClientPhase::Disconnected,
            c.backoff() == backoff,
            c.earliest_retry() == 0,
            c.attempts() == 0,
            c.forwarded() == Seq::<Seq<u8>>::empty(),
    {
        ReconnectingClient {
            phase: ClientPhase::Disconnected,
            backoff,
            earliest_retry: 0,
            attempts: 0,
            forwarded: Ghost(Seq::empty()),
        }
    }

    /// Where in its connect cycle the client stands.
    pub fn current_phase(&self) -> (r: ClientPhase)
        ensures
            r == self.phase(),
    {
        self.phase
    }

    /// How many connection attempts have been started.
    pub fn attempt_count(&self) -> (n: u64)
        ensures
            n == self.attempts(),
    {
        self.attempts
    }

    /// Whether to invoke the connector now: only while disconnected, and
    /// never before the earliest-retry instant left by the last failure.
    pub fn should_attempt(&self, now: u64) -> (r: bool)
        ensures
            r == self.may_attempt(now as int),
    {
        self.phase == ClientPhase::Disconnected && now >= self.earliest_retry
    }

    /// Starts a connection attempt at instant `now`.
    pub fn begin_attempt(&mut self, now: u64)
        requires
            old(self).may_attempt(now as int),
            old(self).attempts() < u64::MAX,
        ensures
            final(self).phase() == ClientPhase::Connecting,
            final(self).attempts() == old(self).attempts() + 1,
            final(self).backoff() == old(self).backoff(),
            final(self).earliest_retry() == old(self).earliest_retry(),
            final(self).forwarded() == old(self).forwarded(),
    {
        let _ = now;
        self.phase = ClientPhase::Connecting;
        self.attempts = self.attempts + 1;
    }

    /// Reports how the attempt started by [`begin_attempt`](Self::begin_attempt)
    /// ended at instant `now`: success connects; failure schedules the next
    /// attempt no earlier than one backoff interval later.
    pub fn on_connect_result(&mut self, now: u64, ok: bool)
        requires
            old(self).phase() == ClientPhase::Connecting,
            now + old(self).backoff() <= u64::MAX,
        ensures
            ok ==> final(self).phase() == ClientPhase::Connected,
            ok ==> final(self).earliest_retry() == old(self).earliest_retry(),
            !ok ==> *final(self) == old(self).after_failure(now as int),
            !ok ==> final(self).phase() == ClientPhase::Disconnected,
            !ok ==> final(self).earliest_retry() == now + old(self).backoff(),
            final(self).attempts() == old(self).attempts(),
            final(self).backoff() == old(self).backoff(),
            final(self).forwarded() == old(self).forwarded(),
    {
        if ok {
            self.phase = ClientPhase::Connected;
        } else {
            self.phase = ClientPhase::Disconnected;
            self.earliest_retry = now + self.backoff;
        }
    }

    /// Hands one decoded record to the mailbox. A full mailbox refuses it;
    /// the caller suspends until the consumer drains and then retries with
    /// the same record, so nothing is dropped and order is kept.
    pub fn forward(&mut self, mbox: &mut Mailbox, record: Vec<u8>) -> (accepted: bool)
        requires
            old(self).phase() == ClientPhase::Connected,
            old(mbox).wf(),
        ensures
            final(mbox).wf(),
            final(mbox).capacity() == old(mbox).capacity(),
            final(self).phase() == ClientPhase::Connected,
            final(self).backoff() == old(self).backoff(),
            final(self).earliest_retry() == old(self).earliest_retry(),
            final(self).attempts() == old(self).attempts(),
            accepted == (old(mbox).contents().len() < old(mbox).capacity()),
            accepted ==> final(mbox).contents() == old(mbox).contents().push(record@)
                && final(self).forwarded() == old(self).forwarded().push(record@),
            !accepted ==> *final(mbox) == *old(mbox) && *final(self) == *old(self),
    {
        let ghost r: Seq<u8> = record@;
        let accepted = mbox.try_send(record);
        if accepted {
            proof {
                self.forwarded@ = self.forwarded@.push(r);
            }
        }
        accepted
    }

    /// Reports a decode error or end of stream at instant `now`: the client
    /// drops back to `Disconnected` and may attempt a fresh connection at
    /// once — the backoff interval separates failed connection attempts, not
    /// a lost connection from its first reconnect try.
    pub fn on_stream_error(&mut self, now: u64)
        requires
            old(self).phase() == ClientPhase::Connected,
        ensures
            final(self).phase() == ClientPhase::Disconnected,
            final(self).earliest_retry() == now,
            final(self).may_attempt(now as int),
            final(self).attempts() == old(self).attempts(),
            final(self).backoff() == old(self).backoff(),
            final(self).forwarded() == old(self).forwarded(),
    {
        self.phase = ClientPhase::Disconnected;
        self.earliest_retry = now;
    }
}

/// Retries are never tighter than the backoff interval: once an attempt
/// fails at instant `t_fail`, no instant before `t_fail + backoff` admits a
/// new attempt.
pub proof fn lemma_backoff_spacing(c: ReconnectingClient, t_fail: int, t_next: int)
    requires
        c.after_failure(t_fail).may_attempt(t_next),
        t_fail + c.backoff() <= u64::MAX,
    ensures
        t_next >= t_fail + c.backoff(),
{
}

} // verus!
