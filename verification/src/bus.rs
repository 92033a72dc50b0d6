//! The bounded FIFO event bus connecting the input sources to the coordinator.
//!
//! Publishing to a full bus neither blocks nor fails the publisher: the event
//! is silently discarded and the bus is left unchanged.  Toggle requests are
//! user-paced, so a dropped request only asks the user to press again.

use vstd::prelude::*;
use crate::events::Event;

verus! {

/// Capacity of the event bus: one event being handled, one queued behind it.
pub const EVENT_BUS_CAPACITY: usize = 2;

/// What a publish leaves in a bounded queue: the event is appended when there
/// is room, and dropped otherwise.
pub open spec fn spec_publish(queue: Seq<Event>, capacity: nat, e: Event) -> Seq<Event> {
    if queue.len() < capacity {
        queue.push(e)
    } else {
        queue
    }
}

/// Bounded FIFO queue of events, filled by the producers and drained by the
/// coordinator alone.
pub struct EventBus {
    queue: Vec<Event>,
    capacity: usize,
}

impl EventBus {
    /// The events currently queued, oldest first.
    pub closed spec fn contents(&self) -> Seq<Event> {
        self.queue@
    }

    /// The fixed bound on the queue length.
    pub closed spec fn spec_capacity(&self) -> nat {
        self.capacity as nat
    }

    /// The bus never holds more events than its bound allows.
    pub open spec fn well_formed(&self) -> bool {
        &&& self.contents().len() <= self.spec_capacity()
        &&& self.spec_capacity() >= 1
    }

    /// An empty bus with the given bound.
    pub fn new(capacity: usize) -> (b: Self)
        requires
            capacity >= 1,
        ensures
            b.well_formed(),
            b.contents() =~= Seq::<Event>::empty(),
            b.spec_capacity() == capacity,
    {
        EventBus { queue: Vec::new(), capacity }
    }

    /// How many events are queued.
    pub fn len(&self) -> (n: usize)
        ensures
            n == self.contents().len(),
    {
        self.queue.len()
    }

    /// The bound the bus was created with.
    pub fn capacity(&self) -> (c: usize)
        ensures
            c == self.spec_capacity(),
    {
        self.capacity
    }

    /// Appends `e` when there is room and reports whether it was accepted.
    /// On a full bus the event is dropped and the queue is left exactly as it
    /// was; the publisher is never blocked and never fails.
    pub fn publish(&mut self, e: Event) -> (accepted: bool)
        requires
            old(self).well_formed(),
        ensures
            final(self).well_formed(),
            final(self).spec_capacity() == old(self).spec_capacity(),
            accepted == (old(self).contents().len() < old(self).spec_capacity()),
            final(self).contents() == spec_publish(
                old(self).contents(),
                old(self).spec_capacity(),
                e,
            ),
    {
        if self.queue.len() < self.capacity {
            self.queue.push(e);
            true
        } else {
            false
        }
    }

    /// Removes and returns the oldest queued event, or `None` on an empty bus.
    pub fn receive(&mut self) -> (r: Option<Event>)
        requires
            old(self).well_formed(),
        ensures
            final(self).well_formed(),
            final(self).spec_capacity() == old(self).spec_capacity(),
            old(self).contents().len() == 0 ==> r is None && final(self).contents()
                == old(self).contents(),
            old(self).contents().len() > 0 ==> r == Some(old(self).contents()[0])
                && final(self).contents() == old(self).contents().drop_first(),
    {
        if self.queue.len() > 0 {
            let e = self.queue.remove(0);
            proof {
                assert(self.queue@ =~= old(self).contents().drop_first());
            }
            Some(e)
        } else {
            None
        }
    }
}

} // verus!
