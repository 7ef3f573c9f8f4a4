//! The incoming port: serialized handler callbacks and the flush escape.
//!
//! A sink port pairs with a handler whose `chain` and `serialized_event`
//! callbacks may be entered from any thread. An exclusive asynchronous lock
//! serializes them: at most one callback body runs per port at any instant,
//! and the lock is released on every exit path. Flush start deliberately
//! bypasses the lock — it must take effect even while a long-running chain
//! holds it — so a chain arriving while flushing is rejected at once,
//! without touching buffered state and without waiting for the lock.

use vstd::prelude::*;

use crate::errors::FlowError;
use crate::stream::ControlEvent;
use crate::stream::MediaBuffer;

verus! {

/// How a chain call comes back to its caller.
#[derive(Clone, Copy, Debug, PartialEq, Eq, Structural)]
pub enum ChainOutcome {
    /// The unit was accepted into the port's buffered state.
    Delivered,
    /// The call was rejected; buffered state was not touched.
    Rejected(FlowError),
    /// Another callback holds the lock; the caller must wait for it and
    /// attempt the call again once the lock is free.
    Blocked,
}

/// An element's incoming connection point. The lock and the callback count
/// are the model of the exclusive asynchronous lock the runtime holds for
/// each callback's duration; the buffered units are the state a chain
/// mutates and a flush must not touch.
pub struct SinkPort {
    /// The owning context's id; `None` before the element is prepared.
    pub context: Option<u64>,
    /// While set, chain calls fail fast without touching buffered state.
    pub flushing: bool,
    /// Whether the exclusive lock is held by a running callback.
    pub lock_held: bool,
    /// How many handler callback bodies are executing right now.
    pub callbacks_active: u64,
    /// The units a chain buffered, oldest first.
    pub buffered: Vec<MediaBuffer>,
    /// The serialized control signals taken in, oldest first.
    pub events: Vec<ControlEvent>,
}

/// What any single port operation may do to the lock: leave it alone, take
/// it for one entering callback, or release it for the one returning
/// callback. Every operation of the port ensures this of its own step.
pub open spec fn port_step(pre: SinkPort, post: SinkPort) -> bool {
    ||| (post.lock_held == pre.lock_held && post.callbacks_active == pre.callbacks_active)
    ||| (!pre.lock_held && post.lock_held && post.callbacks_active == 1)
    ||| (pre.lock_held && !post.lock_held && post.callbacks_active == 0)
}

impl SinkPort {
    /// The serialization invariant: a callback body runs exactly while the
    /// exclusive lock is held, so never more than one at a time.
    pub open spec fn wf(self) -> bool {
        &&& self.callbacks_active <= 1
        &&& (self.callbacks_active == 1 <==> self.lock_held)
    }

    /// A fresh port: unbound, idle, not flushing, nothing buffered.
    pub fn new() -> (p: SinkPort)
        ensures
            p.wf(),
            p == (SinkPort {
                context: None::<u64>,
                flushing: false,
                lock_held: false,
                callbacks_active: 0u64,
                buffered: p.buffered,
                events: p.events,
            }),
            p.buffered@.len() == 0,
            p.events@.len() == 0,
    {
        SinkPort {
            context: None,
            flushing: false,
            lock_held: false,
            callbacks_active: 0,
            buffered: Vec::new(),
            events: Vec::new(),
        }
    }

    /// Binds the port to its owning context.
    pub fn bind(&mut self, context_id: u64)
        ensures
            *final(self) == (SinkPort { context: Some(context_id), ..*old(self) }),
    {
        self.context = Some(context_id);
    }

    /// A caller tries to enter a handler callback: it takes the exclusive
    /// lock if it is free, else it must wait. Entering is the only way the
    /// number of running callback bodies grows, and only ever to one.
    pub fn begin_callback(&mut self) -> (entered: bool)
        requires
            old(self).wf(),
        ensures
            final(self).wf(),
            port_step(*old(self), *final(self)),
            entered == !old(self).lock_held,
            entered ==> *final(self) == (SinkPort {
                lock_held: true,
                callbacks_active: 1u64,
                ..*old(self)
            }),
            !entered ==> *final(self) == *old(self),
    {
        if self.lock_held {
            false
        } else {
            self.lock_held = true;
            self.callbacks_active = 1;
            true
        }
    }

    /// The callback body returns and the lock is released — on every exit
    /// path, whatever the body decided.
    pub fn end_callback(&mut self)
        requires
            old(self).wf(),
            old(self).lock_held,
        ensures
            final(self).wf(),
            port_step(*old(self), *final(self)),
            *final(self) == (SinkPort {
                lock_held: false,
                callbacks_active: 0u64,
                ..*old(self)
            }),
    {
        self.lock_held = false;
        self.callbacks_active = 0;
    }

    /// The body of a chain callback, already serialized under the lock:
    /// while flushing it rejects without touching buffered state, otherwise
    /// it accepts the unit.
    pub fn chain_body(&mut self, unit: MediaBuffer) -> (r: Result<(), FlowError>)
        requires
            old(self).wf(),
            old(self).lock_held,
        ensures
            final(self).wf(),
            port_step(*old(self), *final(self)),
            old(self).flushing ==> r == Err::<(), FlowError>(FlowError::Flushing) && *final(self)
                == *old(self),
            !old(self).flushing ==> r == Ok::<(), FlowError>(()) && final(self).buffered@ == old(
                self,
            ).buffered@.push(unit) && *final(self) == (SinkPort {
                buffered: final(self).buffered,
                ..*old(self)
            }),
    {
        if self.flushing {
            Err(FlowError::Flushing)
        } else {
            self.buffered.push(unit);
            Ok(())
        }
    }

    /// What a chain call answers from a given port state: rejected at once
    /// while flushing — before and without the lock — else blocked while
    /// another callback runs, else delivered.
    pub open spec fn chain_outcome(self) -> ChainOutcome {
        if self.flushing {
            ChainOutcome::Rejected(FlowError::Flushing)
        } else if self.lock_held {
            ChainOutcome::Blocked
        } else {
            ChainOutcome::Delivered
        }
    }

    /// A full chain call: the flushing check runs first and outside the
    /// lock, so it takes effect even while a prior chain still holds the
    /// lock; only a delivered unit touches buffered state, and the lock is
    /// released again on that path.
    pub fn chain(&mut self, unit: MediaBuffer) -> (r: ChainOutcome)
        requires
            old(self).wf(),
        ensures
            final(self).wf(),
            port_step(*old(self), *final(self)),
            r == old(self).chain_outcome(),
            r != ChainOutcome::Delivered ==> *final(self) == *old(self),
            r == ChainOutcome::Delivered ==> final(self).buffered@ == old(self).buffered@.push(
                unit,
            ) && *final(self) == (SinkPort { buffered: final(self).buffered, ..*old(self) }),
    {
        if self.flushing {
            return ChainOutcome::Rejected(FlowError::Flushing);
        }
        if !self.begin_callback() {
            return ChainOutcome::Blocked;
        }
        let _body = self.chain_body(unit);
        self.end_callback();
        ChainOutcome::Delivered
    }

    /// A full serialized-event call, under the same lock as chain. Flush
    /// stop is the one signal handled even while flushing — it clears the
    /// flag; any other signal is rejected while flushing and taken in
    /// otherwise.
    pub fn serialized_event(&mut self, event: ControlEvent) -> (r: ChainOutcome)
        requires
            old(self).wf(),
        ensures
            final(self).wf(),
            port_step(*old(self), *final(self)),
            old(self).lock_held && !(old(self).flushing && event == ControlEvent::FlushStop)
                ==> r == ChainOutcome::Blocked && *final(self) == *old(self),
            old(self).flushing && event == ControlEvent::FlushStop ==> r
                == ChainOutcome::Delivered && *final(self) == (SinkPort {
                flushing: false,
                ..*old(self)
            }),
            !old(self).flushing && !old(self).lock_held && event != ControlEvent::FlushStop
                ==> r == ChainOutcome::Delivered && final(self).events@ == old(
                self,
            ).events@.push(event) && *final(self) == (SinkPort {
                events: final(self).events,
                ..*old(self)
            }),
            !old(self).flushing && !old(self).lock_held && event == ControlEvent::FlushStop
                ==> r == ChainOutcome::Delivered && *final(self) == *old(self),
            old(self).flushing && !old(self).lock_held && event != ControlEvent::FlushStop ==> r
                == ChainOutcome::Rejected(FlowError::Flushing) && *final(self) == *old(self),
    {
        if self.flushing && matches!(event, ControlEvent::FlushStop) {
            self.flushing = false;
            return ChainOutcome::Delivered;
        }
        if self.lock_held {
            return ChainOutcome::Blocked;
        }
        if self.flushing {
            return ChainOutcome::Rejected(FlowError::Flushing);
        }
        let _entered = self.begin_callback();
        if !matches!(event, ControlEvent::FlushStop) {
            self.events.push(event);
        }
        self.end_callback();
        ChainOutcome::Delivered
    }

    /// Raises the flushing flag outside the exclusive lock: the deliberate
    /// escape from priority inversion against a stuck chain. Whoever holds
    /// the lock keeps it; buffered state is not touched.
    pub fn flush_start(&mut self)
        requires
            old(self).wf(),
        ensures
            final(self).wf(),
            port_step(*old(self), *final(self)),
            *final(self) == (SinkPort { flushing: true, ..*old(self) }),
    {
        self.flushing = true;
    }

    /// Drops everything a flush discards: the buffered units.
    pub fn clear_buffered(&mut self)
        requires
            old(self).wf(),
        ensures
            final(self).wf(),
            port_step(*old(self), *final(self)),
            final(self).buffered@.len() == 0,
            *final(self) == (SinkPort { buffered: final(self).buffered, ..*old(self) }),
    {
        self.buffered.clear();
    }
}

/// At most one handler callback body executes per port at any instant:
/// the serialization invariant bounds the count by one, and every
/// transition of the port keeps the invariant — a second caller can only
/// observe `Blocked` until the running callback ends.
pub proof fn lemma_callbacks_exclusive(p: SinkPort)
    requires
        p.wf(),
    ensures
        p.callbacks_active <= 1,
{
}

/// One step keeps the serialization invariant.
pub proof fn lemma_step_preserves_wf(pre: SinkPort, post: SinkPort)
    requires
        pre.wf(),
        port_step(pre, post),
    ensures
        post.wf(),
{
}

/// A run of port operations, in whatever order concurrent callers manage
/// to interleave them: each state steps to the next.
pub open spec fn step_trace(states: Seq<SinkPort>) -> bool {
    forall|i: int| 0 <= i < states.len() - 1 ==> #[trigger] port_step(states[i], states[i + 1])
}

proof fn lemma_trace_state_wf(states: Seq<SinkPort>, i: int)
    requires
        states.len() > 0,
        states.first().wf(),
        step_trace(states),
        0 <= i < states.len(),
    ensures
        states[i].wf(),
    decreases i,
{
    if i > 0 {
        let j = i - 1;
        lemma_trace_state_wf(states, j);
        assert(port_step(states[j], states[j + 1]));
        lemma_step_preserves_wf(states[j], states[i]);
    }
}

/// At most one handler callback body executes per port at any instant,
/// under concurrent stress from any number of callers: however the port's
/// operations interleave, every reachable state has at most one callback
/// running — the observed concurrency never exceeds one.
pub proof fn lemma_exclusive_under_any_interleaving(states: Seq<SinkPort>)
    requires
        states.len() > 0,
        states.first().wf(),
        step_trace(states),
    ensures
        forall|i: int| 0 <= i < states.len() ==> #[trigger] states[i].callbacks_active <= 1,
{
    assert forall|i: int| 0 <= i < states.len() implies #[trigger] states[i].callbacks_active
        <= 1 by {
        lemma_trace_state_wf(states, i);
    };
}

/// A chain call made after flush start observes the flushing state and is
/// rejected without touching buffered state, even if a prior chain call
/// still holds the lock: flush start bypasses the lock, so the rejection
/// does not wait for the running callback.
pub proof fn lemma_flush_start_rejects_chain(port0: SinkPort, port1: SinkPort)
    requires
        port0.wf(),
        port1 == (SinkPort { flushing: true, ..port0 }),
    ensures
        port1.chain_outcome() == ChainOutcome::Rejected(FlowError::Flushing),
{
}

} // verus!
