//! The bounded handoff queue, modelled as a FIFO of frame envelopes.
//!
//! The queue's occupancy is consulted by the skip-if-full policy; the
//! block-if-full policy's send always lands (the worker's stall until room
//! exists is a matter of timing, not of contents). A closed queue models a
//! disconnected consumer side: any further send is fatal for the session.

use vstd::prelude::*;
use crate::envelope::VideoFrameEnvelope;

verus! {

/// A FIFO of frame envelopes with a fixed capacity and a closed flag.
pub struct FrameQueue {
    items: Vec<VideoFrameEnvelope>,
    capacity: usize,
    closed: bool,
}

impl View for FrameQueue {
    type V = Seq<VideoFrameEnvelope>;

    closed spec fn view(&self) -> Seq<VideoFrameEnvelope> {
        self.items@
    }
}

impl FrameQueue {
    /// The capacity fixed at construction.
    pub closed spec fn spec_capacity(self) -> int {
        self.capacity as int
    }

    /// Whether the consumer side is gone.
    pub closed spec fn spec_closed(self) -> bool {
        self.closed
    }

    /// A queue is well formed when its capacity is positive.
    pub open spec fn well_formed(self) -> bool {
        self.spec_capacity() >= 1
    }

    /// Whether occupancy has reached capacity.
    pub open spec fn spec_full(self) -> bool {
        self@.len() >= self.spec_capacity()
    }

    /// A fresh, open, empty queue of the given capacity.
    pub fn new(capacity: usize) -> (q: FrameQueue)
        requires
            capacity >= 1,
        ensures
            q@ == Seq::<VideoFrameEnvelope>::empty(),
            q.spec_capacity() == capacity,
            !q.spec_closed(),
            q.well_formed(),
    {
        FrameQueue { items: Vec::new(), capacity, closed: false }
    }

    /// The capacity fixed at construction.
    pub fn capacity(&self) -> (r: usize)
        ensures
            r == self.spec_capacity(),
    {
        self.capacity
    }

    /// Current occupancy.
    pub fn len(&self) -> (r: usize)
        ensures
            r == self@.len(),
    {
        self.items.len()
    }

    /// Whether occupancy has reached capacity.
    pub fn is_full(&self) -> (r: bool)
        ensures
            r == self.spec_full(),
    {
        self.items.len() >= self.capacity
    }

    /// Whether the queue holds no envelope.
    pub fn is_empty(&self) -> (r: bool)
        ensures
            r == (self@.len() == 0),
    {
        self.items.len() == 0
    }

    /// Whether the consumer side is gone.
    pub fn is_closed(&self) -> (r: bool)
        ensures
            r == self.spec_closed(),
    {
        self.closed
    }

    /// Appends an envelope at the back.
    pub fn push(&mut self, e: VideoFrameEnvelope)
        ensures
            final(self)@ == old(self)@.push(e),
            final(self).spec_capacity() == old(self).spec_capacity(),
            final(self).spec_closed() == old(self).spec_closed(),
    {
        self.items.push(e);
    }

    /// Removes and returns the oldest envelope, if any.
    pub fn pop_front(&mut self) -> (r: Option<VideoFrameEnvelope>)
        ensures
            final(self).spec_capacity() == old(self).spec_capacity(),
            final(self).spec_closed() == old(self).spec_closed(),
            old(self)@.len() == 0 ==> r is None && final(self)@ == old(self)@,
            old(self)@.len() > 0 ==> (r == Some(old(self)@[0]) && final(self)@ == old(
                self,
            )@.drop_first()),
    {
        if self.items.len() == 0 {
            None
        } else {
            let e = self.items.remove(0);
            proof {
                assert(self.items@ =~= old(self)@.drop_first());
            }
            Some(e)
        }
    }

    /// Marks the consumer side as gone.
    pub fn close(&mut self)
        ensures
            final(self)@ == old(self)@,
            final(self).spec_capacity() == old(self).spec_capacity(),
            final(self).spec_closed(),
    {
        self.closed = true;
    }
}

} // verus!
