//! Message channel: a bounded, strictly FIFO queue of events crossing from
//! the host UI thread to the worker thread.
//!
//! The host operating system backs this queue with a port primitive whose
//! send blocks while the queue is full and whose receive can wait for the
//! next message. This model captures the queue's contents and capacity
//! exactly; where the real primitive would make the caller wait, an
//! operation here reports that outcome instead of blocking, so callers
//! state what holds in either case. `send` returns whether the message was
//! accepted (a rejected send is one the real primitive would block on),
//! and a receive returns `None` where the real one would still be waiting.

use crate::protocol::Event;
use vstd::prelude::*;

verus! {

/// A bounded FIFO queue of events. The view `@` is the sequence of queued
/// events, oldest first; `cap()` is the fixed capacity in messages.
pub struct Channel {
    items: Vec<Event>,
    capacity: usize,
}

impl View for Channel {
    type V = Seq<Event>;

    closed spec fn view(&self) -> Seq<Event> {
        self.items@
    }
}

impl Channel {
    /// The capacity in messages the channel was created with.
    pub closed spec fn cap(&self) -> nat {
        self.capacity as nat
    }

    /// The queue never holds more messages than its capacity.
    pub open spec fn wf(&self) -> bool {
        self@.len() <= self.cap()
    }

    /// A send is accepted exactly when a slot is free.
    pub open spec fn has_room(&self) -> bool {
        self@.len() < self.cap()
    }

    /// Create an empty channel holding at most `capacity` messages.
    pub fn new(capacity: usize) -> (c: Channel)
        ensures
            c@ == Seq::<Event>::empty(),
            c.cap() == capacity,
            c.wf(),
    {
        Channel { items: Vec::new(), capacity }
    }

    pub fn capacity(&self) -> (r: usize)
        ensures
            r == self.cap(),
    {
        self.capacity
    }

    pub fn len(&self) -> (r: usize)
        ensures
            r == self@.len(),
    {
        self.items.len()
    }

    /// Enqueue a message at the back. When the queue is full the message
    /// is not accepted and the queue is unchanged: the real primitive
    /// would block the sender until the consumer frees at least one slot.
    pub fn send(&mut self, message: Event) -> (accepted: bool)
        requires
            old(self).wf(),
        ensures
            accepted == old(self).has_room(),
            accepted ==> final(self)@ == old(self)@.push(message),
            !accepted ==> final(self)@ == old(self)@,
            final(self).cap() == old(self).cap(),
            final(self).wf(),
    {
        if self.items.len() < self.capacity {
            self.items.push(message);
            true
        } else {
            false
        }
    }

    /// Dequeue the oldest message, or report an empty queue. The real
    /// primitive's bounded wait returns no message on expiry; once a
    /// message is ready it is always the front of the queue.
    pub fn receive_timeout(&mut self) -> (r: Option<Event>)
        ensures
            final(self).cap() == old(self).cap(),
            old(self)@.len() == 0 ==> r is None && final(self)@ == old(self)@,
            old(self)@.len() > 0 ==> r == Some(old(self)@[0]) && final(self)@ == old(self)@.skip(
                1,
            ),
            old(self).wf() ==> final(self).wf(),
    {
        if self.items.len() == 0 {
            None
        } else {
            let e = self.items.remove(0);
            proof {
                assert(self@ =~= old(self)@.skip(1));
            }
            Some(e)
        }
    }

    /// Dequeue the oldest message. The real primitive waits indefinitely
    /// on an empty queue; `None` here stands for a wait that no send ends.
    pub fn receive_blocking(&mut self) -> (r: Option<Event>)
        ensures
            final(self).cap() == old(self).cap(),
            old(self)@.len() == 0 ==> r is None && final(self)@ == old(self)@,
            old(self)@.len() > 0 ==> r == Some(old(self)@[0]) && final(self)@ == old(self)@.skip(
                1,
            ),
            old(self).wf() ==> final(self).wf(),
    {
        self.receive_timeout()
    }
}

/// Backpressure: a channel at capacity accepts no further message, and
/// one below capacity always has room, so removing a single message from
/// a full channel is enough to let the sender proceed.
pub proof fn lemma_full_channel_blocks_sender(c: Channel)
    ensures
        c@.len() == c.cap() ==> !c.has_room(),
        c@.len() < c.cap() ==> c.has_room(),
{
}

} // verus!
