//! The application source element.
//!
//! The element lets application code feed media units into the pipeline: a
//! producer pushes buffers from any thread into a bounded queue, and the
//! element's task drains the queue on its context, emitting the handshake
//! ahead of the first unit and delivering everything downstream in order.
//! The host drives the element through the state-change mapping at the
//! bottom, which translates pipeline transitions to prepare, start, pause,
//! stop and unprepare.

use vstd::prelude::*;

use crate::context::acquire_creates;
use crate::context::acquire_shares;
use crate::context::has_live;
use crate::context::has_live_with;
use crate::context::ContextRegistry;
use crate::entropy::fresh_stream_id;
use crate::errors::FlowError;
use crate::errors::PrepareError;
use crate::errors::StateChangeError;
use crate::queue::queue_bound;
use crate::queue::queue_items;
use crate::queue::ItemQueue;
use crate::source::delivers;
use crate::source::prelude_done;
use crate::source::prelude_events;
use crate::source::SourceHandler;
use crate::source::SourcePort;
use crate::stream::ControlEvent;
use crate::stream::Format;
use crate::stream::MediaBuffer;
use crate::stream::StreamItem;
use crate::task::Task;
use crate::task::TaskState;

verus! {

/// Default maximum number of queued buffers.
pub const DEFAULT_MAX_BUFFERS: u32 = 10;

/// Largest queue depth a queue can be created with on every machine.
pub const QUEUE_DEPTH_LIMIT: u32 = 0x2000_0000;

/// The element's configuration, owned by the element and consumed by the
/// runtime: which context to share, how often it polls, how deep the buffer
/// queue is, and whether arriving buffers are stamped with the running time.
pub struct Settings {
    /// Name of the context to share threads with; empty for a private one.
    pub context: String,
    /// Context poll throttle in milliseconds.
    pub context_wait: u32,
    /// The format announced in the handshake, if any.
    pub caps: Option<Format>,
    /// Maximum number of buffers to queue up.
    pub max_buffers: u32,
    /// Whether to stamp buffers with the running time on arrival.
    pub do_timestamp: bool,
}

impl Default for Settings {
    /// The defaults: a private context polled without throttle, no format,
    /// ten queued buffers, no timestamping.
    fn default() -> (s: Settings)
        ensures
            s.context@.len() == 0,
            s.context_wait == 0,
            s.caps is None,
            s.max_buffers == DEFAULT_MAX_BUFFERS,
            !s.do_timestamp,
    {
        Settings {
            context: String::new(),
            context_wait: 0,
            caps: None,
            max_buffers: DEFAULT_MAX_BUFFERS,
            do_timestamp: false,
        }
    }
}

/// Largest accepted context poll throttle, in milliseconds.
pub const MAX_CONTEXT_WAIT: u32 = 1000;

/// One of the element's configurable properties, with its value.
#[derive(Clone, Debug, PartialEq, Eq)]
pub enum Property {
    /// Name of the context to share threads with.
    Context(String),
    /// Context poll throttle in milliseconds, at most `MAX_CONTEXT_WAIT`.
    ContextWait(u32),
    /// The format announced in the handshake.
    Caps(Option<Format>),
    /// Maximum number of buffers to queue up, at least 1.
    MaxBuffers(u32),
    /// Whether to stamp buffers with the running time on arrival.
    DoTimestamp(bool),
}

/// Names the properties, for reading one back.
#[derive(Clone, Copy, Debug, PartialEq, Eq, Structural)]
pub enum PropertyName {
    /// The context name.
    Context,
    /// The poll throttle.
    ContextWait,
    /// The announced format.
    Caps,
    /// The queue depth.
    MaxBuffers,
    /// The timestamping switch.
    DoTimestamp,
}

/// Whether a property value is within its allowed range: the poll throttle
/// is capped and at least one buffer must fit in the queue.
pub open spec fn property_in_range(p: Property) -> bool {
    match p {
        Property::ContextWait(w) => w <= MAX_CONTEXT_WAIT,
        Property::MaxBuffers(n) => n >= 1,
        _ => true,
    }
}

impl Settings {
    /// Writes one property. A value outside its range is refused and
    /// changes nothing, as the host's property system would refuse it.
    pub fn set(&mut self, property: Property) -> (r: bool)
        ensures
            r == property_in_range(property),
            !r ==> *final(self) == *old(self),
            r ==> *final(self) == (match property {
                Property::Context(name) => Settings { context: name, ..*old(self) },
                Property::ContextWait(w) => Settings { context_wait: w, ..*old(self) },
                Property::Caps(c) => Settings { caps: c, ..*old(self) },
                Property::MaxBuffers(n) => Settings { max_buffers: n, ..*old(self) },
                Property::DoTimestamp(d) => Settings { do_timestamp: d, ..*old(self) },
            }),
    {
        match property {
            Property::Context(name) => {
                self.context = name;
                true
            },
            Property::ContextWait(w) => {
                if w <= MAX_CONTEXT_WAIT {
                    self.context_wait = w;
                    true
                } else {
                    false
                }
            },
            Property::Caps(c) => {
                self.caps = c;
                true
            },
            Property::MaxBuffers(n) => {
                if n >= 1 {
                    self.max_buffers = n;
                    true
                } else {
                    false
                }
            },
            Property::DoTimestamp(d) => {
                self.do_timestamp = d;
                true
            },
        }
    }

    /// Reads one property back.
    pub fn get(&self, name: PropertyName) -> (p: Property)
        ensures
            p == (match name {
                PropertyName::Context => Property::Context(self.context),
                PropertyName::ContextWait => Property::ContextWait(self.context_wait),
                PropertyName::Caps => Property::Caps(self.caps),
                PropertyName::MaxBuffers => Property::MaxBuffers(self.max_buffers),
                PropertyName::DoTimestamp => Property::DoTimestamp(self.do_timestamp),
            }),
    {
        match name {
            PropertyName::Context => Property::Context(self.context.clone()),
            PropertyName::ContextWait => Property::ContextWait(self.context_wait),
            PropertyName::Caps => Property::Caps(self.caps),
            PropertyName::MaxBuffers => Property::MaxBuffers(self.max_buffers),
            PropertyName::DoTimestamp => Property::DoTimestamp(self.do_timestamp),
        }
    }
}

/// What one call of the iterate step reports to the task loop.
#[derive(Clone, Copy, Debug, PartialEq, Eq, Structural)]
pub enum IterateOutcome {
    /// The queue was empty; nothing was delivered. The loop polls again
    /// within the context's wait interval.
    Pending,
    /// One item was taken from the queue and delivered.
    Handled,
    /// The step signalled a terminal outcome: end of stream ends the loop
    /// cleanly, flushing ends it quietly, anything else is surfaced to the
    /// host.
    Terminated(FlowError),
}

/// A pipeline state transition the host hands down.
#[derive(Clone, Copy, Debug, PartialEq, Eq, Structural)]
pub enum StateChange {
    /// The element is taken into use: prepare.
    NullToReady,
    /// No data flows yet; the element reports that it cannot preroll.
    ReadyToPaused,
    /// Data starts flowing: start.
    PausedToPlaying,
    /// Data pauses: pause.
    PlayingToPaused,
    /// Data stops: stop.
    PausedToReady,
    /// The element is taken out of use: unprepare.
    ReadyToNull,
}

/// How a successful state change is reported to the host.
#[derive(Clone, Copy, Debug, PartialEq, Eq, Structural)]
pub enum StateChangeSuccess {
    /// The transition completed.
    Success,
    /// The transition completed, but the element produces data only while
    /// playing and cannot preroll.
    NoPreroll,
}

/// The application source element: its configuration, the task driving the
/// iterate loop, the handshake state, the outgoing port, and the bounded
/// queue the producer fills.
pub struct AppSrc {
    /// The element's configuration.
    pub settings: Settings,
    /// The state machine driving the iterate loop.
    pub task: Task,
    /// The handshake cache of the outgoing port.
    pub handler: SourceHandler,
    /// The outgoing port.
    pub port: SourcePort,
    /// The producer-to-loop queue; present exactly while prepared.
    pub queue: Option<ItemQueue>,
}

/// The timestamp a buffer carries into the queue: stamped with the running
/// time on arrival when configured, otherwise left as it came.
pub open spec fn stamped(buffer: MediaBuffer, do_timestamp: bool, running_time: Option<u64>)
    -> MediaBuffer {
    if do_timestamp {
        MediaBuffer { pts: None, dts: running_time }
    } else {
        buffer
    }
}

impl AppSrc {
    /// The element invariant: the task is well formed and the queue and the
    /// port's binding exist exactly while the task is bound to a context.
    pub open spec fn wf(self) -> bool {
        &&& self.task.wf()
        &&& self.task.context is Some ==> self.queue is Some && self.port.context == Some(
            self.task.context.unwrap().id,
        )
        &&& self.task.context is None ==> self.queue is None
    }

    /// Whether a pushed buffer is taken at all: only a started or paused
    /// element accepts buffers.
    pub open spec fn accepts_buffers(self) -> bool {
        self.task.state == TaskState::Started || self.task.state == TaskState::Paused
    }

    /// How many items sit in the queue.
    pub open spec fn queued_len(self) -> nat {
        if self.queue is Some {
            queue_items(self.queue.unwrap()).len()
        } else {
            0
        }
    }

    /// The stream state that determines what the next iterations emit:
    /// which handshake events are owed, the configured and the announced
    /// format, the flushing flag, and how much is queued.
    pub open spec fn stream_state(self) -> (bool, bool, Option<Format>, Option<Format>, bool, nat) {
        (
            self.handler.need_initial_events,
            self.handler.need_segment,
            self.handler.caps,
            self.handler.configured_caps,
            self.task.flushing,
            self.queued_len(),
        )
    }

    /// A reset stream: the whole handshake is owed again, nothing has been
    /// announced, nothing is queued, and the element is not flushing. Both
    /// a fresh prepare and a stop leave the element here.
    pub open spec fn stream_reset(self) -> bool {
        &&& self.handler.need_initial_events
        &&& self.handler.need_segment
        &&& self.handler.configured_caps is None
        &&& !self.task.flushing
        &&& self.queued_len() == 0
    }

    /// Whether a prepare goes through: the element is not yet prepared, the
    /// configured queue depth fits, and the configured context name is
    /// acquirable — unnamed, not live yet, or live with the same interval.
    pub open spec fn prepare_admissible(self, reg: ContextRegistry) -> bool {
        &&& self.task.context is None
        &&& self.settings.max_buffers < QUEUE_DEPTH_LIMIT
        &&& (self.settings.context@.len() == 0 || !has_live(reg.entries@, self.settings.context@)
            || has_live_with(reg.entries@, self.settings.context@, self.settings.context_wait))
    }

    /// A fresh element with the given configuration: nothing bound, nothing
    /// queued, the whole handshake owed.
    pub fn new(settings: Settings) -> (a: AppSrc)
        ensures
            a.wf(),
            a.stream_reset(),
            a.settings == settings,
            a.task.state == TaskState::Stopped,
            a.task.context is None,
            a.handler.caps is None,
            a.port.delivered@.len() == 0,
            a.queue is None,
    {
        AppSrc {
            settings,
            task: Task::new(),
            handler: SourceHandler::new(),
            port: SourcePort::new(),
            queue: None,
        }
    }

    /// Takes one buffer from the producer, stamps it if configured, and
    /// queues it. Returns whether the buffer was taken: a stopped element
    /// rejects it, timestamping without a clock reading fails, and a full
    /// queue exerts backpressure.
    pub fn push_buffer(&mut self, buffer: MediaBuffer, running_time: Option<u64>) -> (r: bool)
        requires
            old(self).wf(),
        ensures
            final(self).wf(),
            !old(self).accepts_buffers() ==> !r && *final(self) == *old(self),
            old(self).accepts_buffers() && old(self).settings.do_timestamp && running_time is None
                ==> !r && *final(self) == *old(self),
            old(self).accepts_buffers() && (!old(self).settings.do_timestamp
                || running_time is Some) ==> {
                let q0 = queue_items(old(self).queue.unwrap());
                let item = StreamItem::Buffer(
                    stamped(buffer, old(self).settings.do_timestamp, running_time),
                );
                &&& r == (q0.len() < queue_bound(old(self).queue.unwrap()))
                &&& final(self).queue is Some
                &&& (r ==> queue_items(final(self).queue.unwrap()) == q0.push(item))
                &&& (!r ==> queue_items(final(self).queue.unwrap()) == q0)
                &&& queue_bound(final(self).queue.unwrap()) == queue_bound(old(self).queue.unwrap())
                &&& *final(self) == (AppSrc { queue: final(self).queue, ..*old(self) })
            },
    {
        let state = self.task.lock_state();
        if !(state == TaskState::Started || state == TaskState::Paused) {
            return false;
        }
        let item = if self.settings.do_timestamp {
            match running_time {
                Some(t) => StreamItem::Buffer(MediaBuffer { pts: None, dts: Some(t) }),
                None => {
                    return false;
                },
            }
        } else {
            StreamItem::Buffer(buffer)
        };
        match self.queue.as_mut() {
            Some(q) => q.try_send(item),
            None => false,
        }
    }

    /// Queues the end-of-stream signal so the loop finalizes and delivers
    /// it after everything queued before it. Returns whether it was queued:
    /// an unprepared element and a full queue refuse it.
    pub fn end_of_stream(&mut self) -> (r: bool)
        requires
            old(self).wf(),
        ensures
            final(self).wf(),
            old(self).queue is None ==> !r && *final(self) == *old(self),
            old(self).queue is Some ==> {
                let q0 = queue_items(old(self).queue.unwrap());
                let item = StreamItem::Event(ControlEvent::Eos);
                &&& r == (q0.len() < queue_bound(old(self).queue.unwrap()))
                &&& final(self).queue is Some
                &&& (r ==> queue_items(final(self).queue.unwrap()) == q0.push(item))
                &&& (!r ==> queue_items(final(self).queue.unwrap()) == q0)
                &&& queue_bound(final(self).queue.unwrap()) == queue_bound(old(self).queue.unwrap())
                &&& *final(self) == (AppSrc { queue: final(self).queue, ..*old(self) })
            },
    {
        match self.queue.as_mut() {
            Some(q) => q.try_send(StreamItem::Event(ControlEvent::Eos)),
            None => false,
        }
    }

    /// Prepares the element: acquires the configured context, creates the
    /// bounded queue, hands the configured format to the handshake and
    /// binds the task and the port. Fails on a double prepare, on a queue
    /// depth beyond the machine's limit, and on a context name that is live
    /// with a different wait interval; a failed prepare changes nothing.
    pub fn prepare(&mut self, reg: &mut ContextRegistry) -> (r: Result<(), PrepareError>)
        requires
            old(self).wf(),
            old(reg).wf(),
            old(reg).can_grow(),
        ensures
            final(self).wf(),
            final(reg).wf(),
            r is Ok <==> old(self).prepare_admissible(*old(reg)),
            old(self).task.context is Some ==> r == Err::<(), PrepareError>(
                PrepareError::AlreadyPrepared,
            ) && *final(self) == *old(self) && *final(reg) == *old(reg),
            old(self).task.context is None && old(self).settings.max_buffers >= QUEUE_DEPTH_LIMIT
                ==> r == Err::<(), PrepareError>(PrepareError::InvalidQueueDepth) && *final(self)
                == *old(self) && *final(reg) == *old(reg),
            old(self).task.context is None && old(self).settings.max_buffers < QUEUE_DEPTH_LIMIT
                && !old(self).prepare_admissible(*old(reg)) ==> r == Err::<(), PrepareError>(
                PrepareError::Acquire(crate::errors::AcquireError::IntervalConflict),
            ) && *final(self) == *old(self) && *final(reg) == *old(reg),
            r is Ok ==> {
                let h = final(self).task.context.unwrap();
                &&& final(self).task == (Task {
                    state: TaskState::Prepared,
                    flushing: old(self).task.flushing,
                    context: Some(h),
                })
                &&& h.wait_interval == old(self).settings.context_wait
                &&& (old(self).settings.context@.len() == 0 || !has_live(
                    old(reg).entries@,
                    old(self).settings.context@,
                ) ==> acquire_creates(
                    *old(reg),
                    *final(reg),
                    old(self).settings.context@,
                    old(self).settings.context_wait,
                    h,
                ))
                &&& (old(self).settings.context@.len() > 0 && has_live_with(
                    old(reg).entries@,
                    old(self).settings.context@,
                    old(self).settings.context_wait,
                ) ==> acquire_shares(
                    *old(reg),
                    *final(reg),
                    old(self).settings.context@,
                    old(self).settings.context_wait,
                    h,
                ))
                &&& final(self).handler == (SourceHandler {
                    caps: old(self).settings.caps,
                    ..old(self).handler
                })
                &&& final(self).port == (SourcePort {
                    context: Some(h.id),
                    delivered: old(self).port.delivered,
                })
                &&& final(self).queue is Some
                &&& queue_items(final(self).queue.unwrap()).len() == 0
                &&& queue_bound(final(self).queue.unwrap()) == old(self).settings.max_buffers + 1
                &&& final(self).settings == old(self).settings
            },
    {
        if self.task.context.is_some() {
            return Err(PrepareError::AlreadyPrepared);
        }
        if self.settings.max_buffers >= QUEUE_DEPTH_LIMIT {
            return Err(PrepareError::InvalidQueueDepth);
        }
        let handle = match reg.acquire(self.settings.context.as_str(), self.settings.context_wait) {
            Ok(h) => h,
            Err(e) => {
                return Err(PrepareError::Acquire(e));
            },
        };
        self.queue = Some(ItemQueue::with_buffer(self.settings.max_buffers as usize));
        self.handler.prepare(self.settings.caps);
        self.port.bind(handle.id);
        let _prepared = self.task.prepare(handle);
        Ok(())
    }

    /// Tears the element down: the queue is dropped, the task unbound, the
    /// port unbound, and the element's handle on the context released.
    /// Teardown succeeds from any state.
    pub fn unprepare(&mut self, reg: &mut ContextRegistry)
        requires
            old(self).wf(),
            old(reg).wf(),
        ensures
            final(self).wf(),
            final(reg).wf(),
            final(self).task == (Task {
                state: TaskState::Stopped,
                flushing: false,
                context: None::<crate::context::ContextHandle>,
            }),
            final(self).queue is None,
            final(self).port == (SourcePort {
                context: None::<u64>,
                delivered: old(self).port.delivered,
            }),
            final(self).handler == old(self).handler,
            final(self).settings == old(self).settings,
            old(self).task.context is None ==> *final(reg) == *old(reg),
            old(self).task.context is Some ==> crate::context::released(
                *old(reg),
                *final(reg),
                old(self).task.context.unwrap(),
            ),
    {
        if let Some(handle) = self.task.context {
            reg.release(handle);
        }
        self.queue = None;
        self.task.unprepare();
        self.port.context = None;
    }

    /// Starts (or resumes) the iterate loop. Everything queued and every
    /// owed handshake event stays as it is: a start delivers what a pause
    /// left behind.
    pub fn start(&mut self) -> (r: Result<(), StateChangeError>)
        requires
            old(self).wf(),
        ensures
            final(self).wf(),
            old(self).task.can_start() ==> r == Ok::<(), StateChangeError>(()) && *final(self) == (
            AppSrc { task: Task { state: TaskState::Started, ..old(self).task }, ..*old(self) }),
            !old(self).task.can_start() ==> r == Err::<(), StateChangeError>(
                StateChangeError::InvalidTransition,
            ) && *final(self) == *old(self),
    {
        self.task.start()
    }

    /// Pauses the iterate loop without tearing anything down: the queue and
    /// the handshake state are kept for a clean resume.
    pub fn pause(&mut self) -> (r: Result<(), StateChangeError>)
        requires
            old(self).wf(),
        ensures
            final(self).wf(),
            (old(self).task.state == TaskState::Started || old(self).task.state
                == TaskState::Paused) ==> r == Ok::<(), StateChangeError>(()) && *final(self) == (
            AppSrc { task: Task { state: TaskState::Paused, ..old(self).task }, ..*old(self) }),
            !(old(self).task.state == TaskState::Started || old(self).task.state
                == TaskState::Paused) ==> r == Err::<(), StateChangeError>(
                StateChangeError::InvalidTransition,
            ) && *final(self) == *old(self),
    {
        self.task.pause()
    }

    /// Stops the loop and runs the teardown hook: the queue is drained —
    /// buffered but unsent items are discarded — and the handshake state is
    /// reset, so a later start is indistinguishable from a fresh prepare.
    /// Stopping is idempotent from any state.
    pub fn stop(&mut self)
        requires
            old(self).wf(),
        ensures
            final(self).wf(),
            final(self).stream_reset(),
            final(self).task == (Task {
                state: TaskState::Stopped,
                flushing: false,
                context: old(self).task.context,
            }),
            final(self).handler == (SourceHandler {
                need_initial_events: true,
                need_segment: true,
                caps: old(self).handler.caps,
                configured_caps: None::<Format>,
            }),
            final(self).queue is Some <==> old(self).queue is Some,
            old(self).queue is Some ==> queue_bound(final(self).queue.unwrap()) == queue_bound(
                old(self).queue.unwrap(),
            ),
            final(self).port == old(self).port,
            final(self).settings == old(self).settings,
    {
        self.task.stop();
        if let Some(q) = self.queue.as_mut() {
            q.drain();
        }
        self.handler.reset_state();
    }

    /// Begins a flush: the task fails fast from here on, the queued items
    /// are discarded, and a new segment becomes owed. Fails on an
    /// unprepared element.
    pub fn flush_start(&mut self) -> (r: Result<(), StateChangeError>)
        requires
            old(self).wf(),
        ensures
            final(self).wf(),
            old(self).task.context is None ==> r == Err::<(), StateChangeError>(
                StateChangeError::InvalidTransition,
            ) && *final(self) == *old(self),
            old(self).task.context is Some ==> {
                &&& r == Ok::<(), StateChangeError>(())
                &&& final(self).task == (Task { flushing: true, ..old(self).task })
                &&& final(self).handler == (SourceHandler {
                    need_segment: true,
                    ..old(self).handler
                })
                &&& final(self).queue is Some
                &&& queue_items(final(self).queue.unwrap()).len() == 0
                &&& queue_bound(final(self).queue.unwrap()) == queue_bound(
                    old(self).queue.unwrap(),
                )
                &&& final(self).port == old(self).port
                &&& final(self).settings == old(self).settings
            },
    {
        let started = self.task.flush_start();
        if started.is_err() {
            return Err(StateChangeError::InvalidTransition);
        }
        if let Some(q) = self.queue.as_mut() {
            q.drain();
        }
        self.handler.set_need_segment();
        Ok(())
    }

    /// Ends a flush: the flag is cleared and the handshake is re-armed so
    /// the next iteration resumes cleanly with a fresh segment. Fails on an
    /// unprepared element.
    pub fn flush_stop(&mut self) -> (r: Result<(), StateChangeError>)
        requires
            old(self).wf(),
        ensures
            final(self).wf(),
            old(self).task.context is None ==> r == Err::<(), StateChangeError>(
                StateChangeError::InvalidTransition,
            ) && *final(self) == *old(self),
            old(self).task.context is Some ==> r == Ok::<(), StateChangeError>(()) && *final(self)
                == (AppSrc {
                task: Task { flushing: false, ..old(self).task },
                handler: SourceHandler { need_segment: true, ..old(self).handler },
                ..*old(self)
            }),
    {
        let stopped = self.task.flush_stop();
        if stopped.is_err() {
            return Err(StateChangeError::InvalidTransition);
        }
        self.handler.set_need_segment();
        Ok(())
    }

    /// Handles a control signal arriving at the outgoing port from
    /// downstream: flush start and stop drive the flush transitions,
    /// reconfigure and latency are acknowledged, everything else is not
    /// handled.
    pub fn src_event(&mut self, event: ControlEvent) -> (r: bool)
        requires
            old(self).wf(),
        ensures
            final(self).wf(),
            match event {
                ControlEvent::FlushStart => r == (old(self).task.context is Some),
                ControlEvent::FlushStop => r == (old(self).task.context is Some) && (r
                    ==> *final(self) == (AppSrc {
                    task: Task { flushing: false, ..old(self).task },
                    handler: SourceHandler { need_segment: true, ..old(self).handler },
                    ..*old(self)
                })),
                ControlEvent::Reconfigure => r && *final(self) == *old(self),
                ControlEvent::Latency => r && *final(self) == *old(self),
                _ => !r && *final(self) == *old(self),
            },
            event == ControlEvent::FlushStart && r ==> final(self).task == (Task {
                flushing: true,
                ..old(self).task
            }) && final(self).queued_len() == 0 && final(self).handler == (SourceHandler {
                need_segment: true,
                ..old(self).handler
            }),
            !r ==> *final(self) == *old(self),
    {
        match event {
            ControlEvent::FlushStart => self.flush_start().is_ok(),
            ControlEvent::FlushStop => self.flush_stop().is_ok(),
            ControlEvent::Reconfigure => true,
            ControlEvent::Latency => true,
            _ => false,
        }
    }

    /// One step of the iterate loop, run on the element's context. While
    /// flushing it fails fast without delivering anything. Otherwise it
    /// takes the oldest queued item and delivers it downstream behind the
    /// owed handshake; end of stream is finalized and delivered last, and
    /// ends the loop cleanly. An empty queue leaves everything as it is.
    pub fn iterate(&mut self, reg: &ContextRegistry) -> (r: IterateOutcome)
        requires
            old(self).wf(),
            old(self).task.state == TaskState::Started,
        ensures
            final(self).wf(),
            old(self).task.flushing ==> r == IterateOutcome::Terminated(FlowError::Flushing)
                && *final(self) == *old(self),
            !old(self).task.flushing && old(self).queued_len() == 0 ==> r
                == IterateOutcome::Pending && final(self).queue is Some && queue_items(
                final(self).queue.unwrap(),
            ).len() == 0 && queue_bound(final(self).queue.unwrap()) == queue_bound(
                old(self).queue.unwrap(),
            ) && *final(self) == (AppSrc { queue: final(self).queue, ..*old(self) }),
            !old(self).task.flushing && old(self).queued_len() > 0 ==> {
                let q0 = queue_items(old(self).queue.unwrap());
                let item = q0.first();
                &&& final(self).queue is Some
                &&& queue_items(final(self).queue.unwrap()) == q0.drop_first()
                &&& queue_bound(final(self).queue.unwrap()) == queue_bound(
                    old(self).queue.unwrap(),
                )
                &&& final(self).task == old(self).task
                &&& final(self).settings == old(self).settings
                &&& (!old(self).port.live(*reg) ==> r == IterateOutcome::Terminated(
                    FlowError::Flushing,
                ) && final(self).handler == old(self).handler && final(self).port == old(
                    self,
                ).port)
                &&& (old(self).port.live(*reg) ==> {
                    &&& final(self).handler == prelude_done(old(self).handler)
                    &&& exists|sid: u64|
                        delivers(
                            old(self).port,
                            final(self).port,
                            #[trigger] prelude_events(old(self).handler, sid).push(item),
                        )
                    &&& r == (if item == StreamItem::Event(ControlEvent::Eos) {
                        IterateOutcome::Terminated(FlowError::Eos)
                    } else {
                        IterateOutcome::Handled
                    })
                })
            },
    {
        if self.task.flushing {
            return IterateOutcome::Terminated(FlowError::Flushing);
        }
        let fetched = match self.queue.as_mut() {
            Some(q) => q.try_recv(),
            None => None,
        };
        let item = match fetched {
            Some(item) => item,
            None => {
                return IterateOutcome::Pending;
            },
        };
        let stream_id = fresh_stream_id();
        let ghost q_first = queue_items(old(self).queue.unwrap()).first();
        let ghost emitted = prelude_events(old(self).handler, stream_id).push(q_first);
        let pushed = self.handler.push_item(&mut self.port, reg, stream_id, item);
        match pushed {
            Ok(()) => {
                proof {
                    assert(self.port.delivered@ =~= old(self).port.delivered@ + emitted);
                    assert(delivers(old(self).port, self.port, emitted));
                }
                IterateOutcome::Handled
            },
            Err(FlowError::Eos) => {
                let _sent = self.port.push_event(reg, ControlEvent::Eos);
                proof {
                    assert(self.port.delivered@ =~= old(self).port.delivered@ + emitted);
                    assert(delivers(old(self).port, self.port, emitted));
                }
                IterateOutcome::Terminated(FlowError::Eos)
            },
            Err(e) => IterateOutcome::Terminated(e),
        }
    }

    /// Maps a host state transition onto the element's operations: taking
    /// the element into use prepares it, entering and leaving play start
    /// and pause the loop, leaving the paused state stops it, and taking
    /// the element out of use tears it down. The element cannot preroll, so
    /// the transitions into the paused state report that.
    pub fn change_state(&mut self, reg: &mut ContextRegistry, transition: StateChange) -> (r:
        Result<StateChangeSuccess, StateChangeError>)
        requires
            old(self).wf(),
            old(reg).wf(),
            old(reg).can_grow(),
        ensures
            final(self).wf(),
            final(reg).wf(),
            match transition {
                StateChange::NullToReady => {
                    &&& (old(self).prepare_admissible(*old(reg)) ==> r == Ok::<
                        StateChangeSuccess,
                        StateChangeError,
                    >(StateChangeSuccess::Success) && final(self).task.state
                        == TaskState::Prepared)
                    &&& (!old(self).prepare_admissible(*old(reg)) ==> r == Err::<
                        StateChangeSuccess,
                        StateChangeError,
                    >(StateChangeError::InvalidTransition) && *final(self) == *old(self)
                        && *final(reg) == *old(reg))
                },
                StateChange::ReadyToPaused => r == Ok::<StateChangeSuccess, StateChangeError>(
                    StateChangeSuccess::NoPreroll,
                ) && *final(self) == *old(self) && *final(reg) == *old(reg),
                StateChange::PausedToPlaying => {
                    &&& *final(reg) == *old(reg)
                    &&& (old(self).task.can_start() ==> r == Ok::<
                        StateChangeSuccess,
                        StateChangeError,
                    >(StateChangeSuccess::Success) && final(self).task.state == TaskState::Started)
                    &&& (!old(self).task.can_start() ==> r == Err::<
                        StateChangeSuccess,
                        StateChangeError,
                    >(StateChangeError::InvalidTransition) && *final(self) == *old(self))
                },
                StateChange::PlayingToPaused => {
                    &&& *final(reg) == *old(reg)
                    &&& (old(self).task.state == TaskState::Started || old(self).task.state
                        == TaskState::Paused ==> r == Ok::<StateChangeSuccess, StateChangeError>(
                        StateChangeSuccess::NoPreroll,
                    ) && final(self).task.state == TaskState::Paused)
                    &&& (!(old(self).task.state == TaskState::Started || old(self).task.state
                        == TaskState::Paused) ==> r == Err::<StateChangeSuccess, StateChangeError>(
                        StateChangeError::InvalidTransition,
                    ) && *final(self) == *old(self))
                },
                StateChange::PausedToReady => r == Ok::<StateChangeSuccess, StateChangeError>(
                    StateChangeSuccess::Success,
                ) && final(self).stream_reset() && final(self).task.state == TaskState::Stopped
                    && *final(reg) == *old(reg),
                StateChange::ReadyToNull => r == Ok::<StateChangeSuccess, StateChangeError>(
                    StateChangeSuccess::Success,
                ) && final(self).task.context is None && final(self).queue is None && (old(
                    self,
                ).task.context is Some ==> crate::context::released(
                    *old(reg),
                    *final(reg),
                    old(self).task.context.unwrap(),
                )) && (old(self).task.context is None ==> *final(reg) == *old(reg)),
            },
    {
        match transition {
            StateChange::NullToReady => {
                match self.prepare(reg) {
                    Ok(()) => Ok(StateChangeSuccess::Success),
                    Err(_) => Err(StateChangeError::InvalidTransition),
                }
            },
            StateChange::ReadyToPaused => Ok(StateChangeSuccess::NoPreroll),
            StateChange::PausedToPlaying => {
                match self.start() {
                    Ok(()) => Ok(StateChangeSuccess::Success),
                    Err(e) => Err(e),
                }
            },
            StateChange::PlayingToPaused => {
                match self.pause() {
                    Ok(()) => Ok(StateChangeSuccess::NoPreroll),
                    Err(e) => Err(e),
                }
            },
            StateChange::PausedToReady => {
                self.stop();
                Ok(StateChangeSuccess::Success)
            },
            StateChange::ReadyToNull => {
                self.unprepare(reg);
                Ok(StateChangeSuccess::Success)
            },
        }
    }
}

/// A stop followed by a start is externally indistinguishable from a fresh
/// prepare followed by a start: both leave the element with the same reset
/// stream state — the whole handshake owed, nothing announced, nothing
/// queued, not flushing — and from that state the next media unit is again
/// preceded by the full handshake, stream start first. A stopped task stays
/// bound, so the start itself is accepted.
pub proof fn lemma_stop_start_like_fresh(
    stopped: AppSrc,
    fresh: AppSrc,
    stream_id: u64,
    buffer: MediaBuffer,
)
    requires
        stopped.stream_reset(),
        fresh.stream_reset(),
        stopped.handler.caps == fresh.handler.caps,
        stopped.task.state == TaskState::Stopped,
        stopped.task.context is Some,
    ensures
        stopped.stream_state() == fresh.stream_state(),
        prelude_events(stopped.handler, stream_id) == prelude_events(fresh.handler, stream_id),
        stopped.task.can_start(),
        ({
            let emitted = prelude_events(stopped.handler, stream_id).push(
                StreamItem::Buffer(buffer),
            );
            &&& emitted.first() == StreamItem::Event(
                ControlEvent::StreamStart { stream_id },
            )
            &&& emitted.last() == StreamItem::Buffer(buffer)
        }),
{
    assert(prelude_events(stopped.handler, stream_id) =~= prelude_events(
        fresh.handler,
        stream_id,
    ));
}

} // verus!
