//! The per-element task state machine.
//!
//! Every stream-driving element embeds a [`Task`]: a state machine bound to
//! one context that drives a repeating iteration step while started. The
//! machine here is the decision core; the loop that re-schedules the step on
//! the context thread lives with the embedding runtime. Transitions run to
//! completion within each call, so a machine at rest is never observed in
//! `Preparing` or `Stopping`; those states are reserved for a host-facing
//! driver that reports a transition while it is still in flight.

use vstd::prelude::*;

use crate::context::ContextHandle;
use crate::errors::PrepareError;
use crate::errors::StateChangeError;

verus! {

/// The observable states of a task.
#[derive(Clone, Copy, Debug, PartialEq, Eq, Structural)]
pub enum TaskState {
    /// Not running; the binding to a context, if any, is kept.
    Stopped,
    /// A prepare call is in flight (only ever reported by a driver).
    Preparing,
    /// Bound to a context and ready to start.
    Prepared,
    /// The iteration step is being scheduled repeatedly.
    Started,
    /// The loop is suspended; element-held buffers stay intact.
    Paused,
    /// A stop call is in flight (only ever reported by a driver).
    Stopping,
}

/// The task state machine: the current state, the orthogonal flushing flag,
/// and the non-owning binding to the context that runs the iteration step.
#[derive(Clone, Copy, Debug)]
pub struct Task {
    /// Current state.
    pub state: TaskState,
    /// While set, the iteration step must fail fast without delivering data.
    pub flushing: bool,
    /// The context the step runs on; bound by `prepare`, cleared by
    /// `unprepare`. The task never owns the context.
    pub context: Option<ContextHandle>,
}

impl Task {
    /// A task without a context binding is always at rest in `Stopped`.
    pub open spec fn wf(self) -> bool {
        self.context is None ==> self.state == TaskState::Stopped
    }

    /// Whether `start` succeeds from this configuration: the task must be
    /// bound, and not in a transient driver-reported state.
    pub open spec fn can_start(self) -> bool {
        &&& self.context is Some
        &&& (self.state == TaskState::Prepared || self.state == TaskState::Stopped
            || self.state == TaskState::Started || self.state == TaskState::Paused)
    }

    /// A fresh task: stopped, not flushing, bound to nothing.
    pub fn new() -> (t: Task)
        ensures
            t.state == TaskState::Stopped,
            !t.flushing,
            t.context is None,
            t.wf(),
    {
        Task { state: TaskState::Stopped, flushing: false, context: None }
    }

    /// Binds the task to a context and makes it ready to start.
    /// Fails if the task is already prepared; nothing changes then.
    pub fn prepare(&mut self, context: ContextHandle) -> (r: Result<(), PrepareError>)
        requires
            old(self).wf(),
        ensures
            final(self).wf(),
            old(self).context is Some ==> r == Err::<(), PrepareError>(
                PrepareError::AlreadyPrepared,
            ) && *final(self) == *old(self),
            old(self).context is None ==> r == Ok::<(), PrepareError>(()) && *final(self) == (Task {
                state: TaskState::Prepared,
                flushing: old(self).flushing,
                context: Some(context),
            }),
    {
        if self.context.is_some() {
            Err(PrepareError::AlreadyPrepared)
        } else {
            self.state = TaskState::Prepared;
            self.context = Some(context);
            Ok(())
        }
    }

    /// Starts (or resumes) the repeating iteration step. Succeeds from
    /// `Prepared`, `Paused`, a stopped-but-still-bound task, and is a no-op
    /// from `Started`; fails when the task is unbound or mid-transition.
    pub fn start(&mut self) -> (r: Result<(), StateChangeError>)
        requires
            old(self).wf(),
        ensures
            final(self).wf(),
            old(self).can_start() ==> r == Ok::<(), StateChangeError>(()) && *final(self) == (
            Task { state: TaskState::Started, ..*old(self) }),
            !old(self).can_start() ==> r == Err::<(), StateChangeError>(
                StateChangeError::InvalidTransition,
            ) && *final(self) == *old(self),
    {
        if self.context.is_some()
            && (self.state == TaskState::Prepared || self.state == TaskState::Stopped
                || self.state == TaskState::Started || self.state == TaskState::Paused) {
            self.state = TaskState::Started;
            Ok(())
        } else {
            Err(StateChangeError::InvalidTransition)
        }
    }

    /// Suspends the loop without tearing down element-held buffers, allowing
    /// a clean resume. Succeeds from `Started` (and idempotently from
    /// `Paused`); fails otherwise.
    pub fn pause(&mut self) -> (r: Result<(), StateChangeError>)
        requires
            old(self).wf(),
        ensures
            final(self).wf(),
            (old(self).state == TaskState::Started || old(self).state == TaskState::Paused) ==> r
                == Ok::<(), StateChangeError>(()) && *final(self) == (Task {
                state: TaskState::Paused,
                ..*old(self)
            }),
            !(old(self).state == TaskState::Started || old(self).state == TaskState::Paused)
                ==> r == Err::<(), StateChangeError>(StateChangeError::InvalidTransition)
                && *final(self) == *old(self),
    {
        if self.state == TaskState::Started || self.state == TaskState::Paused {
            self.state = TaskState::Paused;
            Ok(())
        } else {
            Err(StateChangeError::InvalidTransition)
        }
    }

    /// Stops the machine: idempotent from any state. The flushing flag is
    /// cleared so that a later start finds the same machine a fresh prepare
    /// would leave behind; the context binding is kept. The embedding
    /// element runs its teardown hook (drain queues, reset per-stream state)
    /// together with this transition.
    pub fn stop(&mut self)
        requires
            old(self).wf(),
        ensures
            final(self).wf(),
            *final(self) == (Task {
                state: TaskState::Stopped,
                flushing: false,
                context: old(self).context,
            }),
    {
        self.state = TaskState::Stopped;
        self.flushing = false;
    }

    /// Drops the context binding and resets the machine. Always succeeds:
    /// teardown must work even after prior failures.
    pub fn unprepare(&mut self)
        requires
            old(self).wf(),
        ensures
            final(self).wf(),
            *final(self) == (Task {
                state: TaskState::Stopped,
                flushing: false,
                context: None,
            }),
    {
        self.state = TaskState::Stopped;
        self.flushing = false;
        self.context = None;
    }

    /// Raises the flushing flag; while it is set the iteration step fails
    /// fast without delivering data. Fails on an unbound task.
    pub fn flush_start(&mut self) -> (r: Result<(), StateChangeError>)
        requires
            old(self).wf(),
        ensures
            final(self).wf(),
            old(self).context is Some ==> r == Ok::<(), StateChangeError>(()) && *final(self) == (
            Task { flushing: true, ..*old(self) }),
            old(self).context is None ==> r == Err::<(), StateChangeError>(
                StateChangeError::InvalidTransition,
            ) && *final(self) == *old(self),
    {
        if self.context.is_some() {
            self.flushing = true;
            Ok(())
        } else {
            Err(StateChangeError::InvalidTransition)
        }
    }

    /// Clears the flushing flag so the next iteration resumes cleanly. The
    /// embedding element re-arms its initial-handshake state together with
    /// this transition. Fails on an unbound task.
    pub fn flush_stop(&mut self) -> (r: Result<(), StateChangeError>)
        requires
            old(self).wf(),
        ensures
            final(self).wf(),
            old(self).context is Some ==> r == Ok::<(), StateChangeError>(()) && *final(self) == (
            Task { flushing: false, ..*old(self) }),
            old(self).context is None ==> r == Err::<(), StateChangeError>(
                StateChangeError::InvalidTransition,
            ) && *final(self) == *old(self),
    {
        if self.context.is_some() {
            self.flushing = false;
            Ok(())
        } else {
            Err(StateChangeError::InvalidTransition)
        }
    }

    /// Exposes the current state so callers can reject operations that are
    /// invalid for it.
    pub fn lock_state(&self) -> (s: TaskState)
        ensures
            s == self.state,
    {
        self.state
    }
}

} // verus!
