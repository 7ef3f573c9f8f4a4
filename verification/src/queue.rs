//! The bounded item queue between a producer and an iterate loop.
//!
//! Producers hand media units and control signals to an element from any
//! thread; the element's iterate loop drains them on its context. The queue
//! is the bounded first-in-first-out channel between the two, the element's
//! backpressure boundary.
//!
//! The queue is `futures::channel::mpsc` behind trusted contracts. The
//! channel comes as a pair of halves whose shared contents no half shows on
//! its own, so the pair is kept together in one opaque struct: with the one
//! sender and the one receiver sealed in here, no other handle can touch
//! the channel, and the contents are a function of the struct's value.

use vstd::prelude::*;

use crate::stream::StreamItem;

verus! {

/// A bounded first-in-first-out queue of stream items.
///
/// Relies on `futures::channel::mpsc::channel`: a bounded channel delivers
/// the sent messages in the order they were sent, and its capacity is the
/// requested buffer plus one guaranteed slot per sender — here exactly one
/// sender, kept private beside the receiver for the queue's lifetime.
#[verifier::external_body]
pub struct ItemQueue {
    sender: futures::channel::mpsc::Sender<StreamItem>,
    receiver: futures::channel::mpsc::Receiver<StreamItem>,
}

/// The items the queue holds, oldest first.
pub uninterp spec fn queue_items(q: ItemQueue) -> Seq<StreamItem>;

/// How many items the queue can hold.
pub uninterp spec fn queue_bound(q: ItemQueue) -> nat;

impl ItemQueue {
    /// A fresh empty queue holding up to `buffer + 1` items.
    ///
    /// Relies on `futures::channel::mpsc::channel(buffer)`: the new channel
    /// is open and empty, and its capacity is `buffer` plus the one
    /// sender's guaranteed slot. The bound on `buffer` keeps it under the
    /// channel's maximum on every machine; the constructor panics above
    /// that maximum.
    #[verifier::external_body]
    pub(crate) fn with_buffer(buffer: usize) -> (q: ItemQueue)
        requires
            buffer < 0x2000_0000,
        ensures
            queue_items(q) == Seq::<StreamItem>::empty(),
            queue_bound(q) == buffer + 1,
    {
        let (sender, receiver) = futures::channel::mpsc::channel(buffer);
        ItemQueue { sender, receiver }
    }

    /// Appends an item unless the queue is full.
    ///
    /// Relies on `futures::channel::mpsc::Sender::try_send`: a successful
    /// send appends the item, and with the receiver half alive and never
    /// closed the only error is a full channel. The sender parks itself on
    /// the send that fills the channel and every receive first unparks it,
    /// so for this sealed single-sender pair a send fails exactly when the
    /// channel holds `buffer + 1` items.
    #[verifier::external_body]
    pub(crate) fn try_send(&mut self, item: StreamItem) -> (ok: bool)
        ensures
            ok == (queue_items(*old(self)).len() < queue_bound(*old(self))),
            ok ==> queue_items(*final(self)) == queue_items(*old(self)).push(item),
            !ok ==> queue_items(*final(self)) == queue_items(*old(self)),
            queue_bound(*final(self)) == queue_bound(*old(self)),
    {
        self.sender.try_send(item).is_ok()
    }

    /// Removes and returns the oldest item, or nothing when empty.
    ///
    /// Relies on `futures::channel::mpsc::Receiver::try_recv`: the channel
    /// is a first-in-first-out queue, so it returns the earliest sent
    /// message still held, and an error only when none is — the sender half
    /// lives beside the receiver and is never closed, so a drained channel
    /// is merely empty, not ended.
    #[verifier::external_body]
    pub(crate) fn try_recv(&mut self) -> (r: Option<StreamItem>)
        ensures
            queue_items(*old(self)).len() > 0 ==> r == Some(queue_items(*old(self)).first())
                && queue_items(*final(self)) == queue_items(*old(self)).drop_first(),
            queue_items(*old(self)).len() == 0 ==> r == None::<StreamItem> && queue_items(
                *final(self),
            ) == queue_items(*old(self)),
            queue_bound(*final(self)) == queue_bound(*old(self)),
    {
        match self.receiver.try_recv() {
            Ok(item) => Some(item),
            Err(_) => None,
        }
    }

    /// Discards everything the queue holds.
    pub(crate) fn drain(&mut self)
        ensures
            queue_items(*final(self)).len() == 0,
            queue_bound(*final(self)) == queue_bound(*old(self)),
    {
        loop
            invariant
                queue_bound(*self) == queue_bound(*old(self)),
            ensures
                queue_items(*self).len() == 0,
                queue_bound(*self) == queue_bound(*old(self)),
            decreases queue_items(*self).len(),
        {
            if self.try_recv().is_none() {
                break ;
            }
        }
    }
}

} // verus!
