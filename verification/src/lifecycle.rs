//! Process-wide supervisor of background tasks.
//!
//! The manager moves through four phases: `Uninitialized` until the first
//! [`initialize`](LifecycleManager::initialize) call, `Running` while tasks
//! may be spawned, `CancelRequested` once shutdown has been requested, and
//! `Drained` once every spawned task has finished.
//!
//! The manager is one value, held by its owner behind whatever exclusive
//! access the surrounding program uses (a lock, a single task). Concurrent
//! `initialize` calls are serialized by that access; in the resulting order
//! only the first call finds the `Uninitialized` phase, so exactly one caller
//! is told to start the background work
//! ([`lemma_initialize_at_most_once`]).
//!
//! Cancellation is one hierarchical signal: tasks poll
//! [`cancel_requested`](LifecycleManager::cancel_requested) cooperatively
//! (their owner races it with their pending I/O) and report back through
//! [`task_finished`](LifecycleManager::task_finished).

use vstd::prelude::*;

verus! {

#[derive(Clone, Copy, Debug, PartialEq, Eq, Structural)]
pub enum LifecyclePhase {
    Uninitialized,
    Running,
    CancelRequested,
    Drained,
}

/// Why a shutdown did not complete cleanly. Reportable, not fatal: the
/// process may still exit.
#[derive(Clone, Copy, Debug, PartialEq, Eq, Structural)]
pub enum ShutdownError {
    /// The bounded wait for the spawned tasks ran out before all of them
    /// had observed cancellation and exited.
    Timeout,
}

pub struct LifecycleManager {
    phase: LifecyclePhase,
    names: Vec<String>,
    finished: Vec<bool>,
}

impl LifecycleManager {
    pub closed spec fn phase(self) -> LifecyclePhase {
        self.phase
    }

    /// Whether initialization has ever been performed.
    pub closed spec fn started(self) -> bool {
        self.phase != LifecyclePhase::Uninitialized
    }

    pub closed spec fn task_count(self) -> int {
        self.finished@.len() as int
    }

    /// Whether the task spawned `i`-th has finished.
    pub closed spec fn task_finished_spec(self, i: int) -> bool {
        self.finished@[i]
    }

    /// The name the task spawned `i`-th was registered under.
    pub closed spec fn task_name_spec(self, i: int) -> Seq<char> {
        self.names@[i]@
    }

    pub closed spec fn all_tasks_finished(self) -> bool {
        forall|i: int| 0 <= i < self.finished@.len() ==> #[trigger] self.finished@[i]
    }

    pub closed spec fn wf(self) -> bool {
        &&& self.phase == LifecyclePhase::Uninitialized ==> self.finished@.len() == 0
        &&& self.phase == LifecyclePhase::Drained ==> self.all_tasks_finished()
        &&& self.names@.len() == self.finished@.len()
    }

    /// The result `initialize` reports: whether this call is the one that
    /// performs initialization.
    pub closed spec fn init_performed(self) -> bool {
        self.phase == LifecyclePhase::Uninitialized
    }

    /// The manager as it stands after one `initialize` call.
    pub closed spec fn after_initialize(self) -> LifecycleManager {
        if self.phase == LifecyclePhase::Uninitialized {
            LifecycleManager { phase: LifecyclePhase::Running, ..self }
        } else {
            self
        }
    }

    /// The manager as it stands after one `shutdown` call.
    pub closed spec fn after_shutdown(self) -> LifecycleManager {
        match self.phase {
            LifecyclePhase::Uninitialized => LifecycleManager {
                phase: LifecyclePhase::Drained,
                ..self
            },
            LifecyclePhase::Drained => self,
            _ => if self.all_tasks_finished() {
                LifecycleManager { phase: LifecyclePhase::Drained, ..self }
            } else {
                LifecycleManager { phase: LifecyclePhase::CancelRequested, ..self }
            },
        }
    }

    pub fn new() -> (m: LifecycleManager)
        ensures
            m.wf(),
            m.phase() == LifecyclePhase::Uninitialized,
            m.task_count() == 0,
    {
        LifecycleManager {
            phase: LifecyclePhase::Uninitialized,
            names: Vec::new(),
            finished: Vec::new(),
        }
    }

    /// Claims the one-time right to start the background work: returns `true`
    /// to the call that finds the manager uninitialized — that caller starts
    /// the work — and `false` to every later call, which finds it already
    /// done.
    pub fn initialize(&mut self) -> (performed: bool)
        requires
            old(self).wf(),
        ensures
            final(self).wf(),
            performed == old(self).init_performed(),
            *final(self) == old(self).after_initialize(),
            performed ==> final(self).phase() == LifecyclePhase::Running,
            !performed ==> *final(self) == *old(self),
            final(self).started(),
            final(self).task_count() == old(self).task_count(),
    {
        if self.phase == LifecyclePhase::Uninitialized {
            self.phase = LifecyclePhase::Running;
            true
        } else {
            false
        }
    }

    /// Registers a cancellable unit of work and hands back its id. The unit
    /// must poll [`cancel_requested`](Self::cancel_requested) cooperatively
    /// and report its exit through [`task_finished`](Self::task_finished).
    pub fn spawn(&mut self, name: String) -> (id: usize)
        requires
            old(self).wf(),
            old(self).phase() == LifecyclePhase::Running,
            old(self).task_count() < usize::MAX,
        ensures
            final(self).wf(),
            final(self).phase() == old(self).phase(),
            id == old(self).task_count(),
            final(self).task_count() == old(self).task_count() + 1,
            forall|i: int|
                0 <= i < old(self).task_count() ==> final(self).task_finished_spec(i)
                    == old(self).task_finished_spec(i),
            forall|i: int|
                0 <= i < old(self).task_count() ==> final(self).task_name_spec(i) == old(
                    self,
                ).task_name_spec(i),
            !final(self).task_finished_spec(id as int),
            final(self).task_name_spec(id as int) == name@,
    {
        let id = self.finished.len();
        self.names.push(name);
        self.finished.push(false);
        id
    }

    /// The name the task `id` was registered under.
    pub fn task_name(&self, id: usize) -> (name: &String)
        requires
            self.wf(),
            0 <= id < self.task_count(),
        ensures
            name@ == self.task_name_spec(id as int),
    {
        &self.names[id]
    }

    /// The phase the manager stands in.
    pub fn current_phase(&self) -> (r: LifecyclePhase)
        ensures
            r == self.phase(),
    {
        self.phase
    }

    /// Whether initialization has ever been performed.
    pub fn is_started(&self) -> (r: bool)
        ensures
            r == self.started(),
    {
        self.phase != LifecyclePhase::Uninitialized
    }

    /// How many tasks have been spawned.
    pub fn task_total(&self) -> (n: usize)
        ensures
            n == self.task_count(),
    {
        self.finished.len()
    }

    /// The cancellation poll every spawned task observes.
    pub fn cancel_requested(&self) -> (r: bool)
        ensures
            r == (self.phase() == LifecyclePhase::CancelRequested),
    {
        self.phase == LifecyclePhase::CancelRequested
    }

    /// Records that a spawned task has exited (cleanly or not — a crashed
    /// task is finished all the same and does not stop its siblings). Once
    /// cancellation was requested and the last task is done, the manager is
    /// drained.
    pub fn task_finished(&mut self, id: usize)
        requires
            old(self).wf(),
            0 <= id < old(self).task_count(),
        ensures
            final(self).wf(),
            final(self).task_count() == old(self).task_count(),
            final(self).task_finished_spec(id as int),
            forall|i: int|
                0 <= i < old(self).task_count() && i != id ==> final(self).task_finished_spec(i)
                    == old(self).task_finished_spec(i),
            forall|i: int|
                0 <= i < old(self).task_count() ==> final(self).task_name_spec(i) == old(
                    self,
                ).task_name_spec(i),
            final(self).phase() == (if old(self).phase() == LifecyclePhase::CancelRequested
                && final(self).all_tasks_finished() {
                LifecyclePhase::Drained
            } else {
                old(self).phase()
            }),
    {
        self.finished.set(id, true);
        if self.phase == LifecyclePhase::CancelRequested && self.check_all_finished() {
            self.phase = LifecyclePhase::Drained;
        }
    }

    /// Whether every spawned task has exited.
    pub fn check_all_finished(&self) -> (r: bool)
        ensures
            r == self.all_tasks_finished(),
    {
        let mut i: usize = 0;
        while i < self.finished.len()
            invariant
                0 <= i <= self.finished@.len(),
                forall|j: int| 0 <= j < i ==> #[trigger] self.finished@[j],
            decreases self.finished@.len() - i,
        {
            if !self.finished[i] {
                return false;
            }
            i = i + 1;
        }
        true
    }

    /// Requests cancellation of every spawned task. Succeeds whether or not
    /// anything is left to cancel: a manager that never started, or one
    /// already drained, needs no work, and repeating the call changes
    /// nothing. The caller then waits — bounded by its own patience — for
    /// the tasks to report in, and reads the result off
    /// [`shutdown_outcome`](Self::shutdown_outcome).
    pub fn shutdown(&mut self) -> (r: Result<(), ShutdownError>)
        requires
            old(self).wf(),
        ensures
            final(self).wf(),
            r is Ok,
            *final(self) == old(self).after_shutdown(),
            final(self).task_count() == old(self).task_count(),
            forall|i: int|
                0 <= i < old(self).task_count() ==> final(self).task_finished_spec(i)
                    == old(self).task_finished_spec(i),
            old(self).phase() == LifecyclePhase::Uninitialized ==> final(self).phase()
                == LifecyclePhase::Drained,
            old(self).phase() == LifecyclePhase::Drained ==> final(self).phase()
                == LifecyclePhase::Drained,
            (old(self).phase() == LifecyclePhase::Running || old(self).phase()
                == LifecyclePhase::CancelRequested) ==> final(self).phase() == (
            if old(self).all_tasks_finished() {
                LifecyclePhase::Drained
            } else {
                LifecyclePhase::CancelRequested
            }),
    {
        match self.phase {
            LifecyclePhase::Uninitialized => {
                self.phase = LifecyclePhase::Drained;
            },
            LifecyclePhase::Drained => {},
            _ => {
                if self.check_all_finished() {
                    self.phase = LifecyclePhase::Drained;
                } else {
                    self.phase = LifecyclePhase::CancelRequested;
                }
            },
        }
        Ok(())
    }

    /// Maps the end of the caller's bounded wait to the reported result:
    /// success once the manager is drained, a timeout — reportable, not
    /// fatal — if tasks were still pending when the wait ran out.
    pub fn shutdown_outcome(&self) -> (r: Result<(), ShutdownError>)
        ensures
            r is Ok <==> self.phase() == LifecyclePhase::Drained,
            r is Err ==> r == Result::<(), ShutdownError>::Err(ShutdownError::Timeout),
    {
        if self.phase == LifecyclePhase::Drained {
            Ok(())
        } else {
            Err(ShutdownError::Timeout)
        }
    }
}

/// The one-time gate: `initialize` reports `true` exactly when it finds the
/// manager uninitialized, and after any `initialize` call the manager is
/// never uninitialized again. Under the exclusive access that serializes
/// concurrent callers this means exactly one of them is told to perform the
/// initialization, however many race for it, and the background work is
/// started exactly once.
pub proof fn lemma_initialize_at_most_once(m: LifecycleManager)
    ensures
        m.init_performed() == (m.phase() == LifecyclePhase::Uninitialized),
        m.after_initialize().started(),
        !m.after_initialize().init_performed(),
        !m.started() ==> m.init_performed(),
        m.started() ==> !m.init_performed(),
{
}

/// Shutting down twice in succession is safe: both calls return success
/// (`shutdown` always does), and the second call finds the work already done
/// and changes nothing.
pub proof fn lemma_shutdown_idempotent(m: LifecycleManager)
    ensures
        m.after_shutdown().after_shutdown() == m.after_shutdown(),
{
}

} // verus!
