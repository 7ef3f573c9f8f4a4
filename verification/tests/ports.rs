//! Source and sink port behaviour: ordering, handshake, serialization,
//! flushing.

use threadshare::ChainOutcome;
use threadshare::ContextRegistry;
use threadshare::ControlEvent;
use threadshare::FlowError;
use threadshare::Format;
use threadshare::MediaBuffer;
use threadshare::Query;
use threadshare::SinkPort;
use threadshare::SourceHandler;
use threadshare::SourcePort;
use threadshare::StreamItem;

fn buf(pts: u64) -> MediaBuffer {
    MediaBuffer { pts: Some(pts), dts: None }
}

#[test]
fn pushes_observed_downstream_in_call_order() {
    let mut reg = ContextRegistry::new();
    let h = reg.acquire("ctx", 0).unwrap();
    let mut port = SourcePort::new();
    port.bind(h.id);
    assert!(port.push(&reg, buf(0)).is_ok());
    assert!(port.push(&reg, buf(10)).is_ok());
    assert!(port.push(&reg, buf(20)).is_ok());
    assert_eq!(
        port.delivered,
        vec![
            StreamItem::Buffer(buf(0)),
            StreamItem::Buffer(buf(10)),
            StreamItem::Buffer(buf(20)),
        ]
    );
}

#[test]
fn dead_context_fails_gracefully() {
    let mut reg = ContextRegistry::new();
    let h = reg.acquire("ctx", 0).unwrap();
    let mut port = SourcePort::new();
    port.bind(h.id);
    reg.release(h);
    assert_eq!(port.push(&reg, buf(0)), Err(FlowError::Flushing));
    assert!(!port.push_event(&reg, ControlEvent::Segment));
    assert!(port.delivered.is_empty());
}

#[test]
fn unbound_port_delivers_nothing() {
    let reg = ContextRegistry::new();
    let mut port = SourcePort::new();
    assert_eq!(port.push(&reg, buf(0)), Err(FlowError::Flushing));
    assert!(port.delivered.is_empty());
}

#[test]
fn prelude_emitted_once_and_cached() {
    let mut reg = ContextRegistry::new();
    let h = reg.acquire("ctx", 0).unwrap();
    let mut port = SourcePort::new();
    port.bind(h.id);
    let mut handler = SourceHandler::new();
    handler.prepare(Some(Format::Fixed(7)));
    assert!(handler.push_prelude(&mut port, &reg, 42).is_ok());
    assert_eq!(
        port.delivered,
        vec![
            StreamItem::Event(ControlEvent::StreamStart { stream_id: 42 }),
            StreamItem::Event(ControlEvent::Caps(Format::Fixed(7))),
            StreamItem::Event(ControlEvent::Segment),
        ]
    );
    assert_eq!(handler.configured_caps, Some(Format::Fixed(7)));
    // Repeated calls are idempotent until a flush or stop resets the cache.
    assert!(handler.push_prelude(&mut port, &reg, 43).is_ok());
    assert_eq!(port.delivered.len(), 3);
}

#[test]
fn eos_is_bounced_to_the_caller() {
    let mut reg = ContextRegistry::new();
    let h = reg.acquire("ctx", 0).unwrap();
    let mut port = SourcePort::new();
    port.bind(h.id);
    let mut handler = SourceHandler::new();
    let r = handler.push_item(&mut port, &reg, 1, StreamItem::Event(ControlEvent::Eos));
    assert_eq!(r, Err(FlowError::Eos));
    // The prelude went out, the end-of-stream did not: the caller
    // finalizes first and pushes it explicitly.
    assert_eq!(
        port.delivered,
        vec![
            StreamItem::Event(ControlEvent::StreamStart { stream_id: 1 }),
            StreamItem::Event(ControlEvent::Segment),
        ]
    );
}

#[test]
fn latency_query_answered() {
    let handler = SourceHandler::new();
    let mut q = Query::Latency { live: false, min: 99, max: Some(1) };
    assert!(handler.src_query(&mut q));
    assert_eq!(q, Query::Latency { live: true, min: 0, max: None });
}

#[test]
fn scheduling_query_answered() {
    let handler = SourceHandler::new();
    let mut q = Query::Scheduling { sequential: false, push_mode: false };
    assert!(handler.src_query(&mut q));
    assert_eq!(q, Query::Scheduling { sequential: true, push_mode: true });
}

#[test]
fn caps_query_intersects_with_filter() {
    let mut reg = ContextRegistry::new();
    let h = reg.acquire("ctx", 0).unwrap();
    let mut port = SourcePort::new();
    port.bind(h.id);
    let mut handler = SourceHandler::new();
    handler.prepare(Some(Format::Fixed(3)));
    assert!(handler.push_prelude(&mut port, &reg, 5).is_ok());

    let mut q = Query::Caps { filter: Some(Format::Any), result: None };
    assert!(handler.src_query(&mut q));
    assert_eq!(q, Query::Caps { filter: Some(Format::Any), result: Some(Format::Fixed(3)) });

    let mut q = Query::Caps { filter: Some(Format::Fixed(4)), result: None };
    assert!(handler.src_query(&mut q));
    assert_eq!(
        q,
        Query::Caps { filter: Some(Format::Fixed(4)), result: Some(Format::Empty) }
    );
}

#[test]
fn caps_query_without_configured_format() {
    let handler = SourceHandler::new();
    let mut q = Query::Caps { filter: None, result: None };
    assert!(handler.src_query(&mut q));
    assert_eq!(q, Query::Caps { filter: None, result: Some(Format::Any) });

    let mut q = Query::Caps { filter: Some(Format::Fixed(9)), result: None };
    assert!(handler.src_query(&mut q));
    assert_eq!(
        q,
        Query::Caps { filter: Some(Format::Fixed(9)), result: Some(Format::Fixed(9)) }
    );
}

#[test]
fn unknown_query_not_handled() {
    let handler = SourceHandler::new();
    let mut q = Query::Other;
    assert!(!handler.src_query(&mut q));
    assert_eq!(q, Query::Other);
}

#[test]
fn at_most_one_callback_at_a_time() {
    let mut sink = SinkPort::new();
    // A first caller enters; the port reports one running callback.
    assert!(sink.begin_callback());
    assert_eq!(sink.callbacks_active, 1);
    // Any further caller is held off while the lock is taken — the
    // observed concurrency never exceeds one.
    assert!(!sink.begin_callback());
    assert!(!sink.begin_callback());
    assert_eq!(sink.callbacks_active, 1);
    sink.end_callback();
    assert_eq!(sink.callbacks_active, 0);
    assert!(sink.begin_callback());
    assert_eq!(sink.callbacks_active, 1);
}

#[test]
fn chain_after_flush_start_rejected_mid_callback() {
    let mut sink = SinkPort::new();
    assert_eq!(sink.chain(buf(0)), ChainOutcome::Delivered);
    // A long chain call is still executing...
    assert!(sink.begin_callback());
    // ...when a flush starts: it bypasses the lock.
    sink.flush_start();
    // A chain arriving now observes the flushing state at once and
    // returns without touching buffered state — it does not wait.
    assert_eq!(sink.chain(buf(1)), ChainOutcome::Rejected(FlowError::Flushing));
    assert_eq!(sink.buffered, vec![buf(0)]);
    // The running callback ends; chains keep failing until flush stop.
    sink.end_callback();
    assert_eq!(sink.chain(buf(2)), ChainOutcome::Rejected(FlowError::Flushing));
    assert_eq!(sink.serialized_event(ControlEvent::FlushStop), ChainOutcome::Delivered);
    assert_eq!(sink.chain(buf(3)), ChainOutcome::Delivered);
    assert_eq!(sink.buffered, vec![buf(0), buf(3)]);
}

#[test]
fn chain_blocked_while_lock_held() {
    let mut sink = SinkPort::new();
    assert!(sink.begin_callback());
    assert_eq!(sink.chain(buf(0)), ChainOutcome::Blocked);
    assert!(sink.buffered.is_empty());
    sink.end_callback();
    assert_eq!(sink.chain(buf(0)), ChainOutcome::Delivered);
}

#[test]
fn serialized_events_respect_flushing() {
    let mut sink = SinkPort::new();
    assert_eq!(sink.serialized_event(ControlEvent::Segment), ChainOutcome::Delivered);
    assert_eq!(sink.events, vec![ControlEvent::Segment]);
    sink.flush_start();
    assert_eq!(
        sink.serialized_event(ControlEvent::Segment),
        ChainOutcome::Rejected(FlowError::Flushing)
    );
    assert_eq!(sink.events, vec![ControlEvent::Segment]);
    assert_eq!(sink.serialized_event(ControlEvent::FlushStop), ChainOutcome::Delivered);
    assert!(!sink.flushing);
}

#[test]
fn flush_discards_buffered_units() {
    let mut sink = SinkPort::new();
    assert_eq!(sink.chain(buf(0)), ChainOutcome::Delivered);
    assert_eq!(sink.chain(buf(1)), ChainOutcome::Delivered);
    sink.flush_start();
    sink.clear_buffered();
    assert!(sink.buffered.is_empty());
}
