//! The reentrancy bridge's dispatch decision.
//!
//! A synchronous caller that needs work to run on a context must not block
//! waiting for that work while it is already running on the very thread
//! that would execute it: the single-threaded executor would never get to
//! it, and the caller would deadlock itself. The decision below is the core
//! of `block_on_or_add_sub_task`: the surrounding runtime tags each context
//! thread with its context's identity, asks here what to do, and either
//! enqueues the work as a fire-and-forget sub-task or blocks until it is
//! done.

use vstd::prelude::*;

verus! {

/// How a unit of work reaches its target context.
#[derive(Clone, Copy, Debug, PartialEq, Eq, Structural)]
pub enum BridgeAction {
    /// Enqueue as a fire-and-forget sub-task; the caller keeps going and
    /// accepts eventual application. Chosen on the target's own thread,
    /// where blocking would self-deadlock.
    AddSubTask,
    /// Block the caller until the work completes and hand back its result.
    BlockOn,
}

/// Decides the bridge path from the calling thread's context tag: work is
/// enqueued exactly when the caller is already on the target context's
/// thread, so a blocking wait never occurs on the thread that would have to
/// run the work.
pub fn bridge_dispatch(current_context: Option<u64>, target_context: u64) -> (a: BridgeAction)
    ensures
        a == BridgeAction::AddSubTask <==> current_context == Some(target_context),
        a == BridgeAction::BlockOn <==> current_context != Some(target_context),
{
    match current_context {
        Some(id) => if id == target_context {
            BridgeAction::AddSubTask
        } else {
            BridgeAction::BlockOn
        },
        None => BridgeAction::BlockOn,
    }
}

} // verus!
