//! Error taxonomy of the runtime.

use vstd::prelude::*;

verus! {

/// Failure of `ContextRegistry::acquire`: a live context with the requested
/// name already exists but was created with a different wait interval.
#[derive(Clone, Copy, Debug, PartialEq, Eq, Structural)]
pub enum AcquireError {
    /// The name is the sharing key; conflicting intervals are rejected
    /// rather than silently resolved.
    IntervalConflict,
}

/// Failure of a prepare operation.
#[derive(Clone, Copy, Debug, PartialEq, Eq, Structural)]
pub enum PrepareError {
    /// The task is already bound to a context.
    AlreadyPrepared,
    /// The context could not be acquired.
    Acquire(AcquireError),
    /// The configured queue depth is beyond what a queue can hold.
    InvalidQueueDepth,
}

/// Stream-level signal returned from push and iterate operations.
#[derive(Clone, Copy, Debug, PartialEq, Eq, Structural)]
pub enum FlowError {
    /// End of stream: expected, ends the iterate loop cleanly.
    Eos,
    /// The element is flushing or being torn down; data is discarded.
    Flushing,
    /// No format was agreed on before data arrived.
    NotNegotiated,
    /// Unrecoverable stream error, surfaced to the host with a diagnostic.
    Error,
}

/// A state transition the host requested was rejected.
#[derive(Clone, Copy, Debug, PartialEq, Eq, Structural)]
pub enum StateChangeError {
    /// The transition is not allowed from the current task state.
    InvalidTransition,
}

} // verus!
