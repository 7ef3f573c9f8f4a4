//! The application source element end to end, and the bridge decision.

use threadshare::bridge_dispatch;
use threadshare::AppSrc;
use threadshare::BridgeAction;
use threadshare::ContextRegistry;
use threadshare::ControlEvent;
use threadshare::FlowError;
use threadshare::Format;
use threadshare::IterateOutcome;
use threadshare::MediaBuffer;
use threadshare::PrepareError;
use threadshare::Property;
use threadshare::PropertyName;
use threadshare::Settings;
use threadshare::StateChange;
use threadshare::StateChangeSuccess;
use threadshare::StreamItem;
use threadshare::AcquireError;
use threadshare::MAX_CONTEXT_WAIT;
use threadshare::QUEUE_DEPTH_LIMIT;

fn buf(pts_ms: u64) -> MediaBuffer {
    MediaBuffer { pts: Some(pts_ms * 1_000_000), dts: None }
}

fn settings(name: &str, wait: u32) -> Settings {
    Settings {
        context: String::from(name),
        context_wait: wait,
        caps: Some(Format::Fixed(1)),
        max_buffers: 10,
        do_timestamp: false,
    }
}

fn is_stream_start(item: &StreamItem) -> bool {
    matches!(item, StreamItem::Event(ControlEvent::StreamStart { .. }))
}

#[test]
fn three_timestamped_buffers_arrive_in_order() {
    let mut reg = ContextRegistry::new();
    let mut src = AppSrc::new(settings("play", 5));
    assert!(src.prepare(&mut reg).is_ok());
    assert!(src.start().is_ok());

    assert!(src.push_buffer(buf(0), None));
    assert!(src.push_buffer(buf(10), None));
    assert!(src.push_buffer(buf(20), None));

    assert_eq!(src.iterate(&reg), IterateOutcome::Handled);
    assert_eq!(src.iterate(&reg), IterateOutcome::Handled);
    assert_eq!(src.iterate(&reg), IterateOutcome::Handled);
    assert_eq!(src.iterate(&reg), IterateOutcome::Pending);

    // Exactly three in-order downstream pushes, behind the handshake.
    let out = &src.port.delivered;
    assert_eq!(out.len(), 6);
    assert!(is_stream_start(&out[0]));
    assert_eq!(out[1], StreamItem::Event(ControlEvent::Caps(Format::Fixed(1))));
    assert_eq!(out[2], StreamItem::Event(ControlEvent::Segment));
    assert_eq!(out[3], StreamItem::Buffer(buf(0)));
    assert_eq!(out[4], StreamItem::Buffer(buf(10)));
    assert_eq!(out[5], StreamItem::Buffer(buf(20)));
}

#[test]
fn stop_discards_unsent_and_start_reemits_handshake() {
    let mut reg = ContextRegistry::new();
    let mut src = AppSrc::new(settings("play2", 5));
    assert!(src.prepare(&mut reg).is_ok());
    assert!(src.start().is_ok());

    assert!(src.push_buffer(buf(0), None));
    assert!(src.push_buffer(buf(10), None));
    assert_eq!(src.iterate(&reg), IterateOutcome::Handled);
    let sent_before_stop = src.port.delivered.len();

    // Stop mid-stream: the queued-but-unsent buffer is discarded.
    src.stop();
    assert!(src.start().is_ok());
    assert_eq!(src.iterate(&reg), IterateOutcome::Pending);
    assert_eq!(src.port.delivered.len(), sent_before_stop);

    // The next unit is again preceded by the full handshake.
    assert!(src.push_buffer(buf(30), None));
    assert_eq!(src.iterate(&reg), IterateOutcome::Handled);
    let out = &src.port.delivered;
    assert!(is_stream_start(&out[sent_before_stop]));
    assert_eq!(
        out[sent_before_stop + 1],
        StreamItem::Event(ControlEvent::Caps(Format::Fixed(1)))
    );
    assert_eq!(out[sent_before_stop + 2], StreamItem::Event(ControlEvent::Segment));
    assert_eq!(out[sent_before_stop + 3], StreamItem::Buffer(buf(30)));
    // The discarded buffer never shows up.
    assert!(!out.contains(&StreamItem::Buffer(buf(10))));
}

#[test]
fn stopped_element_rejects_buffers() {
    let mut reg = ContextRegistry::new();
    let mut src = AppSrc::new(settings("idle", 0));
    assert!(!src.push_buffer(buf(0), None));
    assert!(src.prepare(&mut reg).is_ok());
    // Prepared but not started: still rejected.
    assert!(!src.push_buffer(buf(0), None));
    assert!(src.start().is_ok());
    assert!(src.push_buffer(buf(0), None));
}

#[test]
fn do_timestamp_stamps_running_time_and_needs_a_clock() {
    let mut reg = ContextRegistry::new();
    let mut cfg = settings("stamp", 0);
    cfg.do_timestamp = true;
    cfg.caps = None;
    let mut src = AppSrc::new(cfg);
    assert!(src.prepare(&mut reg).is_ok());
    assert!(src.start().is_ok());

    // Without a clock reading the buffer is refused.
    assert!(!src.push_buffer(buf(5), None));
    // With one, the buffer is stamped with the running time on arrival.
    assert!(src.push_buffer(buf(5), Some(77)));
    assert_eq!(src.iterate(&reg), IterateOutcome::Handled);
    let out = &src.port.delivered;
    assert_eq!(
        out[out.len() - 1],
        StreamItem::Buffer(MediaBuffer { pts: None, dts: Some(77) })
    );
}

#[test]
fn full_queue_exerts_backpressure() {
    let mut reg = ContextRegistry::new();
    let mut cfg = settings("tight", 0);
    cfg.max_buffers = 1;
    let mut src = AppSrc::new(cfg);
    assert!(src.prepare(&mut reg).is_ok());
    assert!(src.start().is_ok());

    // Capacity is the configured depth plus the producer's guaranteed slot.
    assert!(src.push_buffer(buf(0), None));
    assert!(src.push_buffer(buf(1), None));
    assert!(!src.push_buffer(buf(2), None));
    assert_eq!(src.iterate(&reg), IterateOutcome::Handled);
    assert!(src.push_buffer(buf(3), None));
}

#[test]
fn end_of_stream_finalizes_and_ends_the_loop() {
    let mut reg = ContextRegistry::new();
    let mut src = AppSrc::new(settings("eos", 0));
    assert!(src.prepare(&mut reg).is_ok());
    assert!(src.start().is_ok());

    assert!(src.push_buffer(buf(0), None));
    assert!(src.end_of_stream());
    assert_eq!(src.iterate(&reg), IterateOutcome::Handled);
    assert_eq!(src.iterate(&reg), IterateOutcome::Terminated(FlowError::Eos));
    let out = &src.port.delivered;
    assert_eq!(out[out.len() - 1], StreamItem::Event(ControlEvent::Eos));
    assert_eq!(out[out.len() - 2], StreamItem::Buffer(buf(0)));
}

#[test]
fn end_of_stream_needs_a_prepared_element() {
    let mut src = AppSrc::new(settings("eos2", 0));
    assert!(!src.end_of_stream());
}

#[test]
fn prepare_errors_are_exact() {
    let mut reg = ContextRegistry::new();
    let mut first = AppSrc::new(settings("shared", 10));
    assert!(first.prepare(&mut reg).is_ok());
    assert_eq!(first.prepare(&mut reg), Err(PrepareError::AlreadyPrepared));

    // Same name, different interval: the conflict is surfaced.
    let mut second = AppSrc::new(settings("shared", 20));
    assert_eq!(
        second.prepare(&mut reg),
        Err(PrepareError::Acquire(AcquireError::IntervalConflict))
    );

    // Same name and interval: the context is shared, no new thread.
    let mut third = AppSrc::new(settings("shared", 10));
    assert!(third.prepare(&mut reg).is_ok());
    assert_eq!(reg.threads_started, 1);

    // A queue depth beyond the machine limit is refused.
    let mut cfg = settings("deep", 0);
    cfg.max_buffers = QUEUE_DEPTH_LIMIT;
    let mut fourth = AppSrc::new(cfg);
    assert_eq!(fourth.prepare(&mut reg), Err(PrepareError::InvalidQueueDepth));
}

#[test]
fn flush_discards_and_reopens_with_a_segment() {
    let mut reg = ContextRegistry::new();
    let mut src = AppSrc::new(settings("flush", 0));
    assert!(src.prepare(&mut reg).is_ok());
    assert!(src.start().is_ok());

    assert!(src.push_buffer(buf(0), None));
    assert_eq!(src.iterate(&reg), IterateOutcome::Handled);
    let sent = src.port.delivered.len();

    assert!(src.push_buffer(buf(10), None));
    assert!(src.flush_start().is_ok());
    // While flushing the step fails fast without delivering data.
    assert_eq!(src.iterate(&reg), IterateOutcome::Terminated(FlowError::Flushing));
    assert_eq!(src.port.delivered.len(), sent);

    assert!(src.flush_stop().is_ok());
    // The flushed buffer is gone; a new one goes out behind a fresh
    // segment, but the stream is still the same: no new stream start.
    assert_eq!(src.iterate(&reg), IterateOutcome::Pending);
    assert!(src.push_buffer(buf(20), None));
    assert_eq!(src.iterate(&reg), IterateOutcome::Handled);
    let out = &src.port.delivered;
    assert_eq!(out[sent], StreamItem::Event(ControlEvent::Segment));
    assert_eq!(out[sent + 1], StreamItem::Buffer(buf(20)));
}

#[test]
fn src_event_dispatch() {
    let mut reg = ContextRegistry::new();
    let mut src = AppSrc::new(settings("events", 0));
    // Unprepared: flush transitions are refused.
    assert!(!src.src_event(ControlEvent::FlushStart));
    assert!(src.prepare(&mut reg).is_ok());
    assert!(src.src_event(ControlEvent::FlushStart));
    assert!(src.task.flushing);
    assert!(src.src_event(ControlEvent::FlushStop));
    assert!(!src.task.flushing);
    assert!(src.src_event(ControlEvent::Reconfigure));
    assert!(src.src_event(ControlEvent::Latency));
    assert!(!src.src_event(ControlEvent::Eos));
    assert!(!src.src_event(ControlEvent::Segment));
}

#[test]
fn change_state_drives_the_whole_lifecycle() {
    let mut reg = ContextRegistry::new();
    let mut src = AppSrc::new(settings("host", 5));
    assert_eq!(
        src.change_state(&mut reg, StateChange::NullToReady),
        Ok(StateChangeSuccess::Success)
    );
    assert_eq!(
        src.change_state(&mut reg, StateChange::ReadyToPaused),
        Ok(StateChangeSuccess::NoPreroll)
    );
    assert_eq!(
        src.change_state(&mut reg, StateChange::PausedToPlaying),
        Ok(StateChangeSuccess::Success)
    );
    assert!(src.push_buffer(buf(0), None));
    assert_eq!(
        src.change_state(&mut reg, StateChange::PlayingToPaused),
        Ok(StateChangeSuccess::NoPreroll)
    );
    assert_eq!(
        src.change_state(&mut reg, StateChange::PausedToReady),
        Ok(StateChangeSuccess::Success)
    );
    assert_eq!(
        src.change_state(&mut reg, StateChange::ReadyToNull),
        Ok(StateChangeSuccess::Success)
    );
    assert!(!reg.is_live(0));
    // Starting an element that was taken out of use is rejected.
    assert!(src.change_state(&mut reg, StateChange::PausedToPlaying).is_err());
}

#[test]
fn unprepare_releases_the_shared_context() {
    let mut reg = ContextRegistry::new();
    let mut a = AppSrc::new(settings("pool", 10));
    let mut b = AppSrc::new(settings("pool", 10));
    assert!(a.prepare(&mut reg).is_ok());
    assert!(b.prepare(&mut reg).is_ok());
    let id = a.task.context.unwrap().id;
    a.unprepare(&mut reg);
    assert!(reg.is_live(id));
    b.unprepare(&mut reg);
    assert!(!reg.is_live(id));
}

#[test]
fn bridge_enqueues_only_on_own_thread() {
    assert_eq!(bridge_dispatch(Some(3), 3), BridgeAction::AddSubTask);
    assert_eq!(bridge_dispatch(Some(2), 3), BridgeAction::BlockOn);
    assert_eq!(bridge_dispatch(None, 3), BridgeAction::BlockOn);
}

#[test]
fn properties_set_and_read_back() {
    let mut s = Settings::default();
    assert!(s.set(Property::Context(String::from("shared"))));
    assert!(s.set(Property::ContextWait(1000)));
    assert!(s.set(Property::Caps(Some(Format::Fixed(4)))));
    assert!(s.set(Property::MaxBuffers(3)));
    assert!(s.set(Property::DoTimestamp(true)));
    assert_eq!(s.get(PropertyName::Context), Property::Context(String::from("shared")));
    assert_eq!(s.get(PropertyName::ContextWait), Property::ContextWait(1000));
    assert_eq!(s.get(PropertyName::Caps), Property::Caps(Some(Format::Fixed(4))));
    assert_eq!(s.get(PropertyName::MaxBuffers), Property::MaxBuffers(3));
    assert_eq!(s.get(PropertyName::DoTimestamp), Property::DoTimestamp(true));
}

#[test]
fn out_of_range_properties_are_refused() {
    let mut s = Settings::default();
    assert!(!s.set(Property::ContextWait(MAX_CONTEXT_WAIT + 1)));
    assert_eq!(s.get(PropertyName::ContextWait), Property::ContextWait(0));
    assert!(!s.set(Property::MaxBuffers(0)));
    assert_eq!(
        s.get(PropertyName::MaxBuffers),
        Property::MaxBuffers(threadshare::DEFAULT_MAX_BUFFERS)
    );
}

#[test]
fn default_settings_match_documentation() {
    let s = Settings::default();
    assert_eq!(s.context, String::new());
    assert_eq!(s.context_wait, 0);
    assert_eq!(s.caps, None);
    assert_eq!(s.max_buffers, 10);
    assert!(!s.do_timestamp);
}

#[test]
fn torn_down_context_stops_delivery_gracefully() {
    let mut reg = ContextRegistry::new();
    let mut src = AppSrc::new(settings("fragile", 0));
    assert!(src.prepare(&mut reg).is_ok());
    assert!(src.start().is_ok());
    assert!(src.push_buffer(buf(0), None));

    // The context is torn down behind the element's back; the port's weak
    // reference no longer upgrades, so the step fails fast and delivers
    // nothing.
    let handle = src.task.context.unwrap();
    reg.release(handle);
    assert_eq!(src.iterate(&reg), IterateOutcome::Terminated(FlowError::Flushing));
    assert!(src.port.delivered.is_empty());
}

#[test]
fn empty_context_name_gives_each_element_its_own_thread() {
    let mut reg = ContextRegistry::new();
    let mut a = AppSrc::new(settings("", 0));
    let mut b = AppSrc::new(settings("", 0));
    assert!(a.prepare(&mut reg).is_ok());
    assert!(b.prepare(&mut reg).is_ok());
    assert_ne!(a.task.context.unwrap().id, b.task.context.unwrap().id);
    assert_eq!(reg.threads_started, 2);
}
