//! The outgoing port and its handler state.
//!
//! A source port wraps an element's outgoing connection point. Every push
//! runs on the port's owning context, so items pushed by one task's iterate
//! loop leave in call order; the port records what it delivered, oldest
//! first, and that log is the downstream observation the contracts speak
//! of. The handler caches the initial handshake — stream start, format,
//! segment — so that it precedes the first media unit and is re-emitted
//! after a stop or a flush reset it.

use vstd::prelude::*;

use crate::context::ContextRegistry;
use crate::errors::FlowError;
use crate::stream::ControlEvent;
use crate::stream::Format;
use crate::stream::MediaBuffer;
use crate::stream::Query;
use crate::stream::StreamItem;

verus! {

/// An element's outgoing connection point, bound to the context whose
/// thread delivers for it. The port never owns its context: every operation
/// checks that the context is still live and fails gracefully otherwise.
pub struct SourcePort {
    /// The owning context's id; `None` before the element is prepared.
    pub context: Option<u64>,
    /// Everything delivered downstream, in delivery order.
    pub delivered: Vec<StreamItem>,
}

/// One or more operations delivered `emitted` through the port, in order,
/// on top of what was already out.
pub open spec fn delivers(pre: SourcePort, post: SourcePort, emitted: Seq<StreamItem>) -> bool {
    &&& post.delivered@ == pre.delivered@ + emitted
    &&& post.context == pre.context
}

impl SourcePort {
    /// A fresh port: bound to nothing, nothing delivered.
    pub fn new() -> (p: SourcePort)
        ensures
            p.context is None,
            p.delivered@.len() == 0,
    {
        SourcePort { context: None, delivered: Vec::new() }
    }

    /// Binds the port to its owning context.
    pub fn bind(&mut self, context_id: u64)
        ensures
            *final(self) == (SourcePort {
                context: Some(context_id),
                delivered: old(self).delivered,
            }),
    {
        self.context = Some(context_id);
    }

    /// Whether the owning context is still live: the port holds a
    /// non-owning reference and upgrades it before each operation.
    pub open spec fn live(self, reg: ContextRegistry) -> bool {
        &&& self.context is Some
        &&& exists|i: int|
            0 <= i < reg.entries@.len() && #[trigger] reg.entries@[i].id == self.context.unwrap()
    }

    /// Upgrades the non-owning context reference.
    pub fn is_live(&self, reg: &ContextRegistry) -> (r: bool)
        ensures
            r == self.live(*reg),
    {
        match self.context {
            Some(id) => reg.is_live(id),
            None => false,
        }
    }

    /// Delivers a media unit downstream. Fails gracefully (delivering
    /// nothing) when the owning context was already torn down.
    pub fn push(&mut self, reg: &ContextRegistry, buffer: MediaBuffer) -> (r: Result<
        (),
        FlowError,
    >)
        ensures
            old(self).live(*reg) ==> r == Ok::<(), FlowError>(()) && delivers(
                *old(self),
                *final(self),
                seq![StreamItem::Buffer(buffer)],
            ),
            !old(self).live(*reg) ==> r == Err::<(), FlowError>(FlowError::Flushing) && *final(self) == *old(self),
    {
        if self.is_live(reg) {
            self.delivered.push(StreamItem::Buffer(buffer));
            proof {
                assert(self.delivered@ =~= old(self).delivered@ + seq![
                    StreamItem::Buffer(buffer),
                ]);
            }
            Ok(())
        } else {
            Err(FlowError::Flushing)
        }
    }

    /// Delivers a control signal downstream; reports whether it went out.
    /// Fails gracefully when the owning context was already torn down.
    pub fn push_event(&mut self, reg: &ContextRegistry, event: ControlEvent) -> (r: bool)
        ensures
            r == old(self).live(*reg),
            r ==> delivers(*old(self), *final(self), seq![StreamItem::Event(event)]),
            !r ==> *final(self) == *old(self),
    {
        if self.is_live(reg) {
            self.delivered.push(StreamItem::Event(event));
            proof {
                assert(self.delivered@ =~= old(self).delivered@ + seq![StreamItem::Event(event)]);
            }
            true
        } else {
            false
        }
    }
}

/// The handshake cache and format state of a source port's handler.
pub struct SourceHandler {
    /// Whether stream start (and the format, if configured) must still be
    /// emitted before the next media unit.
    pub need_initial_events: bool,
    /// Whether a segment must still be opened before the next media unit.
    pub need_segment: bool,
    /// The format the element was prepared with, if any.
    pub caps: Option<Format>,
    /// The format announced downstream, once the handshake emitted it.
    pub configured_caps: Option<Format>,
}

/// The handshake events the handler emits ahead of an item: stream start
/// and the configured format while the initial events are owed, then a
/// segment while one is owed. Repeated pushes emit nothing more until a
/// flush or a stop re-arms the cache.
pub open spec fn prelude_events(h: SourceHandler, stream_id: u64) -> Seq<StreamItem> {
    (if h.need_initial_events {
        seq![StreamItem::Event(ControlEvent::StreamStart { stream_id })] + (match h.caps {
            Some(c) => seq![StreamItem::Event(ControlEvent::Caps(c))],
            None => Seq::<StreamItem>::empty(),
        })
    } else {
        Seq::<StreamItem>::empty()
    }) + (if h.need_segment {
        seq![StreamItem::Event(ControlEvent::Segment)]
    } else {
        Seq::<StreamItem>::empty()
    })
}

/// The handler state after a prelude went out: nothing is owed any more,
/// and the announced format is recorded.
pub open spec fn prelude_done(h: SourceHandler) -> SourceHandler {
    SourceHandler {
        need_initial_events: false,
        need_segment: false,
        caps: h.caps,
        configured_caps: if h.need_initial_events && h.caps is Some {
            h.caps
        } else {
            h.configured_caps
        },
    }
}

/// What a pushed item adds downstream after the prelude: media units and
/// ordinary control signals go out as they are; end of stream is returned
/// to the caller instead, so it can finalize first.
pub open spec fn item_payload(item: StreamItem) -> Seq<StreamItem> {
    match item {
        StreamItem::Event(ControlEvent::Eos) => Seq::<StreamItem>::empty(),
        _ => seq![item],
    }
}

/// What pushing an item answers: end of stream is bounced back to the
/// caller, everything else is delivered.
pub open spec fn item_result(item: StreamItem) -> Result<(), FlowError> {
    match item {
        StreamItem::Event(ControlEvent::Eos) => Err(FlowError::Eos),
        _ => Ok(()),
    }
}

impl SourceHandler {
    /// A fresh handler: the whole handshake is owed, no format configured.
    pub fn new() -> (h: SourceHandler)
        ensures
            h == (SourceHandler {
                need_initial_events: true,
                need_segment: true,
                caps: None::<Format>,
                configured_caps: None::<Format>,
            }),
    {
        SourceHandler {
            need_initial_events: true,
            need_segment: true,
            caps: None,
            configured_caps: None,
        }
    }

    /// Configures the format the handshake announces.
    pub fn prepare(&mut self, caps: Option<Format>)
        ensures
            *final(self) == (SourceHandler { caps, ..*old(self) }),
    {
        self.caps = caps;
    }

    /// Re-arms the whole handshake and forgets what was announced, so the
    /// next iteration emits the initial events again; the configured format
    /// is kept, as after a fresh prepare.
    pub fn reset_state(&mut self)
        ensures
            *final(self) == (SourceHandler {
                need_initial_events: true,
                need_segment: true,
                caps: old(self).caps,
                configured_caps: None::<Format>,
            }),
    {
        self.need_initial_events = true;
        self.need_segment = true;
        self.configured_caps = None;
    }

    /// Re-arms only the segment: after a flush the stream is still open,
    /// but a new segment must precede the next media unit.
    pub fn set_need_segment(&mut self)
        ensures
            *final(self) == (SourceHandler { need_segment: true, ..*old(self) }),
    {
        self.need_segment = true;
    }

    /// Emits whatever of the handshake is still owed, ahead of any item.
    /// `stream_id` names the stream if its start goes out now. Fails
    /// gracefully, emitting and changing nothing, when the port's context
    /// was already torn down.
    pub fn push_prelude(
        &mut self,
        port: &mut SourcePort,
        reg: &ContextRegistry,
        stream_id: u64,
    ) -> (r: Result<(), FlowError>)
        ensures
            old(port).live(*reg) ==> r == Ok::<(), FlowError>(()) && delivers(
                *old(port),
                *final(port),
                prelude_events(*old(self), stream_id),
            ) && *final(self) == prelude_done(*old(self)),
            !old(port).live(*reg) ==> r == Err::<(), FlowError>(FlowError::Flushing) && *final(self) == *old(self) && *final(port) == *old(port),
    {
        if !port.is_live(reg) {
            return Err(FlowError::Flushing);
        }
        if self.need_initial_events {
            let _sent = port.push_event(reg, ControlEvent::StreamStart { stream_id });
            if let Some(c) = self.caps {
                let _sent = port.push_event(reg, ControlEvent::Caps(c));
                self.configured_caps = Some(c);
            }
            self.need_initial_events = false;
        }
        if self.need_segment {
            let _sent = port.push_event(reg, ControlEvent::Segment);
            self.need_segment = false;
        }
        proof {
            assert(final(port).delivered@ =~= old(port).delivered@ + prelude_events(
                *old(self),
                stream_id,
            ));
        }
        Ok(())
    }

    /// Pushes one item: the owed handshake first, then the item itself.
    /// End of stream is not delivered but bounced back to the caller, which
    /// finalizes and pushes it explicitly. Fails gracefully when the port's
    /// context was already torn down.
    pub fn push_item(
        &mut self,
        port: &mut SourcePort,
        reg: &ContextRegistry,
        stream_id: u64,
        item: StreamItem,
    ) -> (r: Result<(), FlowError>)
        ensures
            old(port).live(*reg) ==> r == item_result(item) && delivers(
                *old(port),
                *final(port),
                prelude_events(*old(self), stream_id) + item_payload(item),
            ) && *final(self) == prelude_done(*old(self)),
            !old(port).live(*reg) ==> r == Err::<(), FlowError>(FlowError::Flushing) && *final(self) == *old(self) && *final(port) == *old(port),
    {
        let prelude = self.push_prelude(port, reg, stream_id);
        if prelude.is_err() {
            return Err(FlowError::Flushing);
        }
        match item {
            StreamItem::Buffer(b) => {
                let _pushed = port.push(reg, b);
                proof {
                    assert(final(port).delivered@ =~= old(port).delivered@ + (prelude_events(
                        *old(self),
                        stream_id,
                    ) + item_payload(item)));
                }
                Ok(())
            },
            StreamItem::Event(ev) => {
                if matches!(ev, ControlEvent::Eos) {
                    proof {
                        assert(final(port).delivered@ =~= old(port).delivered@ + (prelude_events(
                            *old(self),
                            stream_id,
                        ) + item_payload(item)));
                    }
                    Err(FlowError::Eos)
                } else {
                    let _sent = port.push_event(reg, ev);
                    proof {
                        assert(final(port).delivered@ =~= old(port).delivered@ + (prelude_events(
                            *old(self),
                            stream_id,
                        ) + item_payload(item)));
                    }
                    Ok(())
                }
            },
        }
    }

    /// Answers a query from the host: latency (a live source introducing
    /// none), scheduling (push mode), and the producible formats — the
    /// announced format cut down by the caller's filter. Anything else is
    /// not handled.
    pub fn src_query(&self, query: &mut Query) -> (r: bool)
        ensures
            match *old(query) {
                Query::Latency { .. } => r && *final(query) == (Query::Latency {
                    live: true,
                    min: 0u64,
                    max: None::<u64>,
                }),
                Query::Scheduling { .. } => r && *final(query) == (Query::Scheduling {
                    sequential: true,
                    push_mode: true,
                }),
                Query::Caps { filter, .. } => r && *final(query) == (Query::Caps {
                    filter,
                    result: Some(
                        match self.configured_caps {
                            Some(c) => match filter {
                                Some(f) => crate::stream::intersect_spec(f, c),
                                None => c,
                            },
                            None => match filter {
                                Some(f) => f,
                                None => Format::Any,
                            },
                        },
                    ),
                }),
                Query::Other => !r && *final(query) == *old(query),
            },
    {
        match *query {
            Query::Latency { .. } => {
                *query = Query::Latency { live: true, min: 0, max: None };
                true
            },
            Query::Scheduling { .. } => {
                *query = Query::Scheduling { sequential: true, push_mode: true };
                true
            },
            Query::Caps { filter, .. } => {
                let answer = match self.configured_caps {
                    Some(c) => match filter {
                        Some(f) => crate::stream::intersect(f, c),
                        None => c,
                    },
                    None => match filter {
                        Some(f) => f,
                        None => Format::Any,
                    },
                };
                *query = Query::Caps { filter, result: Some(answer) };
                true
            },
            Query::Other => false,
        }
    }
}

/// Concatenation of a sequence of delivery chunks, in order.
pub open spec fn concat_all(chunks: Seq<Seq<StreamItem>>) -> Seq<StreamItem>
    decreases chunks.len(),
{
    if chunks.len() == 0 {
        Seq::<StreamItem>::empty()
    } else {
        chunks.first() + concat_all(chunks.drop_first())
    }
}

/// A run of port operations: each step delivered its chunk on top of the
/// log the step before left behind.
pub open spec fn delivery_chain(ports: Seq<SourcePort>, chunks: Seq<Seq<StreamItem>>) -> bool {
    &&& ports.len() == chunks.len() + 1
    &&& forall|i: int| 0 <= i < chunks.len() ==> delivers(ports[i], ports[i + 1], chunks[i])
}

/// Deliveries arrive downstream in call order: any run of operations on
/// one source port extends the downstream log by exactly the pushed chunks,
/// one after another, in the order the calls were made.
pub proof fn lemma_deliveries_in_call_order(ports: Seq<SourcePort>, chunks: Seq<Seq<StreamItem>>)
    requires
        delivery_chain(ports, chunks),
    ensures
        delivers(ports.first(), ports.last(), concat_all(chunks)),
    decreases chunks.len(),
{
    if chunks.len() == 0 {
        assert(ports.first().delivered@ + concat_all(chunks) =~= ports.last().delivered@);
    } else {
        let tail_ports = ports.drop_first();
        let tail_chunks = chunks.drop_first();
        assert(delivery_chain(tail_ports, tail_chunks)) by {
            assert forall|i: int| 0 <= i < tail_chunks.len() implies delivers(
                tail_ports[i],
                tail_ports[i + 1],
                tail_chunks[i],
            ) by {
                assert(delivers(ports[i + 1], ports[i + 2], chunks[i + 1]));
            };
        };
        lemma_deliveries_in_call_order(tail_ports, tail_chunks);
        assert(delivers(ports[0], ports[1], chunks[0]));
        assert(ports.last() == tail_ports.last());
        assert(ports.first().delivered@ + concat_all(chunks) =~= tail_ports.first().delivered@
            + concat_all(tail_chunks));
    }
}

/// Two successive pushes land at successive positions: the items of the
/// first chunk sit right where the old log ended, those of the second right
/// after them — call order is delivery order.
pub proof fn lemma_two_deliveries_ordered(
    port0: SourcePort,
    port1: SourcePort,
    port2: SourcePort,
    e1: Seq<StreamItem>,
    e2: Seq<StreamItem>,
)
    requires
        delivers(port0, port1, e1),
        delivers(port1, port2, e2),
    ensures
        delivers(port0, port2, e1 + e2),
        port2.delivered@.len() == port0.delivered@.len() + e1.len() + e2.len(),
        forall|i: int|
            0 <= i < e1.len() ==> port2.delivered@[port0.delivered@.len() + i] == e1[i],
        forall|j: int|
            0 <= j < e2.len() ==> port2.delivered@[port0.delivered@.len() + e1.len() + j] == e2[j],
{
    assert(port2.delivered@ =~= port0.delivered@ + (e1 + e2));
}

/// The handshake precedes the first media unit: while the initial events
/// are owed, the emission for a media unit opens with the stream start and
/// ends with the unit, and nothing before the unit is media.
pub proof fn lemma_handshake_precedes_first_unit(h: SourceHandler, stream_id: u64, b: MediaBuffer)
    requires
        h.need_initial_events,
    ensures
        ({
            let emitted = prelude_events(h, stream_id) + item_payload(
                StreamItem::Buffer(b),
            );
            &&& emitted.first() == StreamItem::Event(ControlEvent::StreamStart { stream_id })
            &&& emitted.last() == StreamItem::Buffer(b)
            &&& forall|k: int| 0 <= k < emitted.len() - 1 ==> emitted[k] is Event
        }),
{
}

} // verus!
