//! Plain-value models of the payloads that flow through ports.
//!
//! The host pipeline's buffers, events and queries are treated as opaque:
//! the runtime reads only identity, timestamps and the negotiation format,
//! so those are what the models keep.

use vstd::prelude::*;

verus! {

/// A media format in negotiation. The runtime only ever passes formats
/// through and intersects a configured format with a query's filter, so the
/// model keeps exactly the structure that intersection needs.
#[derive(Clone, Copy, Debug, PartialEq, Eq, Structural)]
pub enum Format {
    /// Matches every format.
    Any,
    /// One concrete format, named by an identifier.
    Fixed(u64),
    /// Matches nothing: two different concrete formats were intersected.
    Empty,
}

/// What intersecting two formats yields.
pub open spec fn intersect_spec(a: Format, b: Format) -> Format {
    match (a, b) {
        (Format::Any, _) => b,
        (_, Format::Any) => a,
        (Format::Empty, _) => Format::Empty,
        (_, Format::Empty) => Format::Empty,
        (Format::Fixed(x), Format::Fixed(y)) => if x == y {
            Format::Fixed(x)
        } else {
            Format::Empty
        },
    }
}

/// Intersects two formats: `Any` is neutral, `Empty` absorbing, and two
/// concrete formats agree only when they are the same.
pub fn intersect(a: Format, b: Format) -> (r: Format)
    ensures
        r == intersect_spec(a, b),
{
    match (a, b) {
        (Format::Any, _) => b,
        (_, Format::Any) => a,
        (Format::Empty, _) => Format::Empty,
        (_, Format::Empty) => Format::Empty,
        (Format::Fixed(x), Format::Fixed(y)) => if x == y {
            Format::Fixed(x)
        } else {
            Format::Empty
        },
    }
}

/// A media unit: a chunk of streamed payload. Timestamps are running-time
/// nanoseconds; `None` stands for an unset timestamp.
#[derive(Clone, Copy, Debug, PartialEq, Eq, Structural)]
pub struct MediaBuffer {
    /// Presentation timestamp.
    pub pts: Option<u64>,
    /// Decode timestamp.
    pub dts: Option<u64>,
}

/// An out-of-band control signal.
#[derive(Clone, Copy, Debug, PartialEq, Eq, Structural)]
pub enum ControlEvent {
    /// Opens a stream; carries the stream's fresh identity.
    StreamStart { stream_id: u64 },
    /// Announces the negotiated format.
    Caps(Format),
    /// Opens a timed segment.
    Segment,
    /// End of stream.
    Eos,
    /// Raises the flushing state downstream.
    FlushStart,
    /// Clears the flushing state downstream.
    FlushStop,
    /// Asks upstream to renegotiate.
    Reconfigure,
    /// Announces a latency update.
    Latency,
}

/// One item travelling through a port: a media unit or a control signal.
#[derive(Clone, Copy, Debug, PartialEq, Eq, Structural)]
pub enum StreamItem {
    /// A media unit.
    Buffer(MediaBuffer),
    /// A control signal.
    Event(ControlEvent),
}

/// A query the host puts to an element, with room for the answer.
#[derive(Clone, Copy, Debug, PartialEq, Eq, Structural)]
pub enum Query {
    /// How much latency the element introduces.
    Latency {
        /// Whether the element is live.
        live: bool,
        /// Minimum latency in nanoseconds.
        min: u64,
        /// Maximum latency; `None` is unbounded.
        max: Option<u64>,
    },
    /// Which scheduling mode the element supports.
    Scheduling {
        /// Whether the element delivers sequentially.
        sequential: bool,
        /// Whether the element delivers by pushing downstream.
        push_mode: bool,
    },
    /// Which formats the element can produce.
    Caps {
        /// The caller's filter, if any.
        filter: Option<Format>,
        /// The answer.
        result: Option<Format>,
    },
    /// Anything the element does not answer.
    Other,
}

} // verus!
