//! Control request queue: application-originated commands flowing into
//! the worker loop.
//!
//! Pushing never blocks and the queue is unbounded; the worker drains it
//! whole once per loop iteration, so no request is ever left stuck across
//! iterations. The real queue crosses threads (any thread may push, one
//! worker drains); this model captures its contents and order exactly.

use crate::worker::ControlRequest;
use vstd::prelude::*;

verus! {

/// An unbounded FIFO queue of control requests. The view `@` is the
/// sequence of pending requests, oldest first.
pub struct RequestQueue {
    items: Vec<ControlRequest>,
}

impl View for RequestQueue {
    type V = Seq<ControlRequest>;

    closed spec fn view(&self) -> Seq<ControlRequest> {
        self.items@
    }
}

impl RequestQueue {
    /// An empty queue.
    pub fn new() -> (q: RequestQueue)
        ensures
            q@ == Seq::<ControlRequest>::empty(),
    {
        RequestQueue { items: Vec::new() }
    }

    pub fn len(&self) -> (r: usize)
        ensures
            r == self@.len(),
    {
        self.items.len()
    }

    /// Enqueue a request at the back. Never blocks and never fails:
    /// the queue is unbounded.
    pub fn push(&mut self, request: ControlRequest)
        ensures
            final(self)@ == old(self)@.push(request),
    {
        self.items.push(request);
    }

    /// Take every pending request, in order, leaving the queue empty.
    pub fn drain(&mut self) -> (pending: Vec<ControlRequest>)
        ensures
            pending@ == old(self)@,
            final(self)@ == Seq::<ControlRequest>::empty(),
    {
        let mut pending: Vec<ControlRequest> = Vec::new();
        core::mem::swap(&mut pending, &mut self.items);
        pending
    }
}

} // verus!
