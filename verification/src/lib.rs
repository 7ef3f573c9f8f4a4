//! A cooperative scheduling runtime for stream-processing elements.
//!
//! Many pipeline elements share a small pool of named, single-threaded
//! event loops ("contexts") instead of each owning a dedicated thread.
//! The library holds the verified core: the context registry, the task
//! state machine every stream-driving element embeds, source and sink
//! port models that serialize delivery, and the reentrancy-bridge
//! decision that keeps callers on a context thread from deadlocking.

mod appsrc;
mod bridge;
mod context;
mod entropy;
mod errors;
mod queue;
mod sink;
mod source;
mod stream;
mod task;

pub use appsrc::lemma_stop_start_like_fresh;
pub use appsrc::stamped;
pub use appsrc::AppSrc;
pub use appsrc::IterateOutcome;
pub use appsrc::Property;
pub use appsrc::PropertyName;
pub use appsrc::Settings;
pub use appsrc::StateChange;
pub use appsrc::StateChangeSuccess;
pub use appsrc::DEFAULT_MAX_BUFFERS;
pub use appsrc::MAX_CONTEXT_WAIT;
pub use appsrc::QUEUE_DEPTH_LIMIT;
pub use bridge::bridge_dispatch;
pub use bridge::BridgeAction;
pub use context::acquire_creates;
pub use context::acquire_shares;
pub use context::has_live;
pub use context::has_live_with;
pub use context::lemma_acquire_sharing;
pub use context::released;
pub use context::ContextEntry;
pub use context::ContextHandle;
pub use context::ContextRegistry;
pub use errors::AcquireError;
pub use errors::FlowError;
pub use errors::PrepareError;
pub use errors::StateChangeError;
pub use queue::queue_bound;
pub use queue::queue_items;
pub use queue::ItemQueue;
pub use sink::lemma_callbacks_exclusive;
pub use sink::lemma_exclusive_under_any_interleaving;
pub use sink::lemma_flush_start_rejects_chain;
pub use sink::lemma_step_preserves_wf;
pub use sink::port_step;
pub use sink::step_trace;
pub use sink::ChainOutcome;
pub use sink::SinkPort;
pub use source::concat_all;
pub use source::delivers;
pub use source::delivery_chain;
pub use source::item_payload;
pub use source::item_result;
pub use source::lemma_deliveries_in_call_order;
pub use source::lemma_handshake_precedes_first_unit;
pub use source::lemma_two_deliveries_ordered;
pub use source::prelude_done;
pub use source::prelude_events;
pub use source::SourceHandler;
pub use source::SourcePort;
pub use stream::intersect;
pub use stream::intersect_spec;
pub use stream::ControlEvent;
pub use stream::Format;
pub use stream::MediaBuffer;
pub use stream::Query;
pub use stream::StreamItem;
pub use task::Task;
pub use task::TaskState;
