//! A supervisor for a single external child process.
//!
//! The supervisor owns zero or one process handles and enforces the
//! at-most-one-active-process invariant: a process is tracked when a spawn
//! succeeds, and the handle is taken exactly once when the supervisor is
//! stopped, so a process can be killed once and never leaked or killed twice.
//!
//! Spawning and killing are operating-system calls that the host performs;
//! the supervisor makes every decision around them. A start has two halves:
//! [`ProcessSupervisor::begin_start`] admits the attempt (it refuses when a
//! process is already tracked, rather than silently replacing and orphaning
//! it), and [`ProcessSupervisor::finish_start`] records the outcome of the
//! host's spawn. [`ProcessSupervisor::stop`] removes and returns the tracked
//! handle, if any, for the host to kill best-effort; stopping has no error
//! channel, so cleanup can never be the reason a shutdown fails.

use vstd::prelude::*;

verus! {

/// Why a start attempt produced no tracked process.
#[derive(Clone, Copy, Debug, PartialEq, Eq, Structural)]
pub enum SpawnError {
    /// A process is already tracked. Starting another is refused, rather than
    /// silently replacing the tracked handle and orphaning its process.
    AlreadyRunning,
    /// The operating system could not create the process (executable missing,
    /// not executable, resource limits); `code` is the raw error code it
    /// reported.
    Os { code: i32 },
}

/// The two lifecycle states of a supervisor.
#[derive(Clone, Copy, Debug, PartialEq, Eq, Structural)]
pub enum SupervisorState {
    /// No process is tracked.
    Idle,
    /// Exactly one process is tracked.
    Running,
}

/// Owns zero or one handles of type `H` to an external process.
///
/// `H` is whatever the host uses to kill a process: the supervisor never
/// inspects it, it only stores it exclusively and hands it out exactly once.
pub struct ProcessSupervisor<H> {
    handle: Option<H>,
}

impl<H> ProcessSupervisor<H> {
    /// The handle of the tracked process, if one is tracked.
    pub closed spec fn tracked_handle(self) -> Option<H> {
        self.handle
    }

    /// How many processes the supervisor tracks.
    pub open spec fn tracked_count(self) -> nat {
        if self.tracked_handle() is Some {
            1nat
        } else {
            0nat
        }
    }

    /// The lifecycle state: `Running` exactly when a process is tracked.
    pub open spec fn spec_state(self) -> SupervisorState {
        if self.tracked_handle() is Some {
            SupervisorState::Running
        } else {
            SupervisorState::Idle
        }
    }

    /// What completing a start does to the supervisor: a successful spawn
    /// stores the new handle and reports success; a failed spawn stores
    /// nothing, leaves the supervisor unchanged, and surfaces the OS error.
    pub open spec fn start_post(
        pre: Self,
        post: Self,
        outcome: Result<H, i32>,
        r: Result<(), SpawnError>,
    ) -> bool {
        match outcome {
            Ok(h) => post.tracked_handle() == Some(h) && r is Ok,
            Err(code) => post == pre && r == Result::<(), SpawnError>::Err(
                SpawnError::Os { code },
            ),
        }
    }

    /// What a stop does to the supervisor: the tracked handle, if any, is
    /// removed and returned as the one kill target, and nothing stays tracked.
    pub open spec fn stop_post(pre: Self, post: Self, victim: Option<H>) -> bool {
        post.tracked_handle() is None && victim == pre.tracked_handle()
    }

    /// Creates a supervisor that tracks nothing.
    pub fn new() -> (s: Self)
        ensures
            s.tracked_handle() is None,
            s.spec_state() == SupervisorState::Idle,
    {
        ProcessSupervisor { handle: None }
    }

    /// Reports the current lifecycle state.
    pub fn state(&self) -> (st: SupervisorState)
        ensures
            st == self.spec_state(),
    {
        if self.handle.is_some() {
            SupervisorState::Running
        } else {
            SupervisorState::Idle
        }
    }

    /// The first half of a start: succeeds exactly when no process is
    /// tracked, so that the host may spawn one and record it with
    /// `finish_start`; refuses otherwise, so the tracked process is never
    /// silently replaced.
    pub fn begin_start(&self) -> (r: Result<(), SpawnError>)
        ensures
            r is Ok <==> self.tracked_handle() is None,
            r is Err ==> r == Result::<(), SpawnError>::Err(SpawnError::AlreadyRunning),
    {
        if self.handle.is_some() {
            Err(SpawnError::AlreadyRunning)
        } else {
            Ok(())
        }
    }

    /// Completes a start by recording the outcome of the host's spawn attempt:
    /// the new process's handle, or the raw OS error code of the failure.
    /// On success the handle is stored under the supervisor's exclusive
    /// ownership; on failure nothing is stored and the error is surfaced to
    /// the caller as an inspectable value.
    pub fn finish_start(&mut self, outcome: Result<H, i32>) -> (r: Result<(), SpawnError>)
        requires
            old(self).tracked_handle() is None,
        ensures
            Self::start_post(*old(self), *final(self), outcome, r),
    {
        match outcome {
            Ok(h) => {
                self.handle = Some(h);
                Ok(())
            },
            Err(code) => Err(SpawnError::Os { code }),
        }
    }

    /// Stops the supervisor: removes and returns the tracked handle, if any,
    /// so the caller can issue one best-effort kill for it. The handle leaves
    /// the supervisor exactly once, so a repeated stop finds nothing to kill;
    /// and stopping has no error channel, whether or not the process is still
    /// alive, so shutdown can never fail on cleanup.
    pub fn stop(&mut self) -> (victim: Option<H>)
        ensures
            Self::stop_post(*old(self), *final(self), victim),
    {
        self.handle.take()
    }

    /// At most one process is tracked: whatever calls have been made, a
    /// supervisor holds zero or one handles, never more.
    pub proof fn lemma_at_most_one_tracked(self)
        ensures
            self.tracked_count() <= 1,
    {
    }

    /// Stopping twice with no start in between is, in observable effect, one
    /// stop: the second stop finds nothing to kill and changes nothing.
    pub proof fn lemma_stop_idempotent(
        s0: Self,
        s1: Self,
        v1: Option<H>,
        s2: Self,
        v2: Option<H>,
    )
        requires
            Self::stop_post(s0, s1, v1),
            Self::stop_post(s1, s2, v2),
        ensures
            v2 is None,
            s2 == s1,
    {
    }

    /// A failed start leaves the supervisor idle: the OS error is surfaced,
    /// no handle is stored, and a subsequent stop finds nothing to kill.
    pub proof fn lemma_start_failure_leaves_idle(
        s0: Self,
        s1: Self,
        code: i32,
        r: Result<(), SpawnError>,
        s2: Self,
        v: Option<H>,
    )
        requires
            s0.tracked_handle() is None,
            Self::start_post(s0, s1, Result::<H, i32>::Err(code), r),
            Self::stop_post(s1, s2, v),
        ensures
            r == Result::<(), SpawnError>::Err(SpawnError::Os { code }),
            s1.spec_state() == SupervisorState::Idle,
            v is None,
            s2.spec_state() == SupervisorState::Idle,
    {
    }

    /// A successful start transitions to running, and the stop that follows
    /// kills exactly the process that was started, then returns to idle.
    pub proof fn lemma_start_success_then_stop(
        s0: Self,
        s1: Self,
        h: H,
        r: Result<(), SpawnError>,
        s2: Self,
        v: Option<H>,
    )
        requires
            s0.tracked_handle() is None,
            Self::start_post(s0, s1, Result::<H, i32>::Ok(h), r),
            Self::stop_post(s1, s2, v),
        ensures
            r is Ok,
            s1.spec_state() == SupervisorState::Running,
            v == Some(h),
            s2.spec_state() == SupervisorState::Idle,
    {
    }

    /// A stop ends idle without any assumption about the tracked process:
    /// in particular, a process that exited on its own is still handed out
    /// for its one (tolerated, best-effort) kill, and nothing stays tracked.
    pub proof fn lemma_stop_always_ends_idle(s0: Self, s1: Self, v: Option<H>)
        requires
            Self::stop_post(s0, s1, v),
        ensures
            s1.spec_state() == SupervisorState::Idle,
            v == s0.tracked_handle(),
    {
    }
}

} // verus!
