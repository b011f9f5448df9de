//! The bounded event queue, as the single-threaded scheduler sees it:
//! a FIFO of queued events with a hard capacity. Enqueueing never blocks
//! and never grows the queue past its capacity; when the pipeline is not
//! active or the queue is full, the event is dropped and `false` returned.
//! Telemetry must never apply backpressure to its caller.
//!
//! A cross-thread ingress over the same discipline is in [`crate::channel`];
//! its transport is trusted, which is why the buffer re-validates on drain.

use vstd::prelude::*;

use crate::event::EventPayload;
use crate::event::QueuedEvent;

verus! {

/// Default capacity of the event queue.
pub const DEFAULT_MAX_QUEUE: usize = 10000;

/// The payloads wrapped by a sequence of queued events, in order.
pub open spec fn payloads_of(events: Seq<QueuedEvent>) -> Seq<EventPayload> {
    events.map_values(|ev: QueuedEvent| ev@)
}

/// A bounded FIFO of events awaiting the batch buffer. Capacity is fixed at
/// construction; `enqueue` applies the backpressure, so the queue never holds
/// more than `max_queue` events.
pub struct EventQueue {
    events: Vec<QueuedEvent>,
    max_queue: usize,
}

impl View for EventQueue {
    type V = Seq<EventPayload>;

    /// The queued payloads, oldest first.
    closed spec fn view(&self) -> Seq<EventPayload> {
        payloads_of(self.events@)
    }
}

impl EventQueue {
    /// The fixed capacity of this queue.
    pub closed spec fn max_queue(&self) -> usize {
        self.max_queue
    }

    /// The queue never holds more events than its capacity.
    pub open spec fn inv(&self) -> bool {
        self@.len() <= self.max_queue()
    }

    /// Creates an empty queue with the given capacity.
    pub fn new(max_queue: usize) -> (q: EventQueue)
        ensures
            q@ == Seq::<EventPayload>::empty(),
            q.max_queue() == max_queue,
            q.inv(),
    {
        let q = EventQueue { events: Vec::new(), max_queue };
        proof {
            assert(q@ =~= Seq::<EventPayload>::empty());
        }
        q
    }

    /// How many events are queued.
    pub fn len(&self) -> (n: usize)
        ensures
            n == self@.len(),
    {
        self.events.len()
    }

    /// Attempts to enqueue an event without ever blocking. The event is
    /// accepted exactly when the pipeline is active and the queue is below
    /// capacity; otherwise it is dropped silently and `false` is returned.
    /// The queue never grows beyond its capacity.
    pub fn enqueue(&mut self, active: bool, ev: QueuedEvent) -> (accepted: bool)
        requires
            old(self).inv(),
        ensures
            accepted <==> (active && old(self)@.len() < old(self).max_queue()),
            accepted ==> final(self)@ == old(self)@.push(ev@),
            !accepted ==> final(self)@ == old(self)@,
            final(self).max_queue() == old(self).max_queue(),
            final(self).inv(),
    {
        if !active {
            return false;
        }
        if self.events.len() >= self.max_queue {
            return false;
        }
        self.events.push(ev);
        proof {
            assert(self@ =~= old(self)@.push(ev@));
        }
        true
    }

    /// Takes every currently queued event out of the queue, oldest first,
    /// leaving it empty. Never waits for more items.
    pub fn drain(&mut self) -> (drained: Vec<QueuedEvent>)
        ensures
            payloads_of(drained@) == old(self)@,
            final(self)@ == Seq::<EventPayload>::empty(),
            final(self).max_queue() == old(self).max_queue(),
            final(self).inv(),
    {
        let mut drained: Vec<QueuedEvent> = Vec::new();
        core::mem::swap(&mut drained, &mut self.events);
        proof {
            assert(self@ =~= Seq::<EventPayload>::empty());
        }
        drained
    }
}

} // verus!
