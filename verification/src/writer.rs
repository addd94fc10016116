//! Producer-side entry point of the pipeline.
//!
//! A [`Writer`] accepts records from the producer's logging call sites and
//! appends them to the replay buffer. Submitting never blocks and never
//! fails: a disabled writer (or one whose pipeline is not initialized yet)
//! quietly drops the record, and an enabled one appends it — evicting old
//! history if need be — whether or not any viewer is attached.
//!
//! The [`WorkerGuard`] is the explicit teardown handle: its owner calls
//! [`stop`](WorkerGuard::stop) before discarding the pipeline, which
//! requests cancellation of the background tasks through the lifecycle
//! manager. Teardown is an explicit step, not a side effect of dropping the
//! guard.

use vstd::prelude::*;

use crate::history::{channel, Sender};
use crate::lifecycle::{LifecycleManager, ShutdownError};

verus! {

pub struct Writer {
    sender: Option<Sender>,
}

/// Teardown token handed out beside a [`Writer`]; see the module note.
pub struct WorkerGuard {}

impl Writer {
    /// Whether records submitted here reach the pipeline at all.
    pub closed spec fn is_enabled(self) -> bool {
        self.sender is Some
    }

    /// The replay buffer behind an enabled writer.
    pub closed spec fn buffer(self) -> Sender {
        self.sender->Some_0
    }

    /// Every record an enabled writer has accepted, oldest first.
    pub open spec fn records(self) -> Seq<Seq<u8>> {
        self.buffer().records()
    }

    pub closed spec fn wf(self) -> bool {
        self.sender matches Some(s) ==> s.wf()
    }

    /// Whether records submitted here reach the pipeline at all.
    pub fn enabled(&self) -> (r: bool)
        ensures
            r == self.is_enabled(),
    {
        match &self.sender {
            Some(_) => true,
            None => false,
        }
    }

    /// A writer whose replay buffer retains the most recent `capacity`
    /// records, with its teardown guard.
    pub fn new(capacity: usize) -> (r: (Writer, WorkerGuard))
        requires
            capacity > 0,
        ensures
            r.0.wf(),
            r.0.is_enabled(),
            r.0.records() == Seq::<Seq<u8>>::empty(),
            r.0.buffer().capacity() == capacity,
            r.0.buffer().subscriber_count() == 0,
    {
        let sender = channel(capacity);
        (Writer { sender: Some(sender) }, WorkerGuard {})
    }

    /// A writer that drops everything — for a process whose log streaming is
    /// switched off while the call sites stay in place.
    pub fn disabled() -> (r: (Writer, WorkerGuard))
        ensures
            r.0.wf(),
            !r.0.is_enabled(),
    {
        (Writer { sender: None }, WorkerGuard {})
    }

    /// Makes sure the background work is started, and reports whether the
    /// pipeline is initialized now. Only the one call that finds the manager
    /// uninitialized performs initialization — its caller then actually
    /// spawns the background service — and without a running task executor
    /// (`runtime_available` false) nothing is started and the writer stays
    /// uninitialized, to be retried on a later call.
    pub fn init(&self, lc: &mut LifecycleManager, runtime_available: bool) -> (initialized: bool)
        requires
            self.is_enabled(),
            old(lc).wf(),
        ensures
            final(lc).wf(),
            initialized == (old(lc).started() || runtime_available),
            final(lc).started() == (old(lc).started() || runtime_available),
            old(lc).started() ==> *final(lc) == *old(lc),
            !old(lc).started() && !runtime_available ==> *final(lc) == *old(lc),
            !old(lc).started() && runtime_available ==> *final(lc) == old(lc).after_initialize(),
    {
        if lc.is_started() {
            return true;
        }
        if !runtime_available {
            return false;
        }
        let performed = lc.initialize();
        performed
    }

    /// Submits one record. Never blocks, never fails, never panics: the
    /// producer's logging call site must not suffer for pipeline trouble.
    /// An enabled writer appends the record to the replay buffer; a disabled
    /// one drops it. Either way the record's length is reported, as a sink
    /// interface expects.
    pub fn write(&mut self, record: Vec<u8>) -> (n: usize)
        requires
            old(self).wf(),
            old(self).is_enabled() ==> old(self).records().len() < u64::MAX,
        ensures
            final(self).wf(),
            final(self).is_enabled() == old(self).is_enabled(),
            n == record@.len(),
            old(self).is_enabled() ==> final(self).records() == old(self).records().push(record@)
                && final(self).buffer().capacity() == old(self).buffer().capacity()
                && final(self).buffer().subscriber_count() == old(
                self,
            ).buffer().subscriber_count(),
            !old(self).is_enabled() ==> *final(self) == *old(self),
    {
        let n = record.len();
        match &mut self.sender {
            Some(sender) => {
                let _ = sender.send(record);
            },
            None => {},
        }
        n
    }

    /// Nothing buffers between the writer and the replay store, so there is
    /// nothing to flush; the call exists because sink interfaces have it.
    pub fn flush(&self) {
    }

    /// Borrows the replay buffer, for the fan-out side to subscribe viewers
    /// and for its own bookkeeping.
    pub fn buffer_mut(&mut self) -> (s: &mut Sender)
        requires
            old(self).is_enabled(),
        ensures
            *s == old(self).buffer(),
            final(self).is_enabled(),
            final(self).buffer() == *final(s),
    {
        match &mut self.sender {
            Some(sender) => sender,
            None => unreached(),
        }
    }
}

impl WorkerGuard {
    /// Tears the pipeline down: requests cancellation of every spawned task.
    /// Safe to call twice — the second call finds nothing left to do and
    /// succeeds. The caller then waits, bounded by its own patience, for the
    /// tasks to report in.
    pub fn stop(&mut self, lc: &mut LifecycleManager) -> (r: Result<(), ShutdownError>)
        requires
            old(lc).wf(),
        ensures
            final(lc).wf(),
            r is Ok,
            *final(lc) == old(lc).after_shutdown(),
    {
        lc.shutdown()
    }
}

} // verus!
