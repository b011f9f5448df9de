//! The batch buffer and the three flush triggers. The buffer accumulates
//! events drained from the queue, re-validating each one on the way in
//! (defense in depth against payloads constructed outside the validated
//! path). A flush removes the oldest events, up to the batch size, and hands
//! them to the caller for transmission; a timer flush of an empty buffer
//! yields a heartbeat instead of a batch.

use vstd::prelude::*;

use crate::event::EventPayload;
use crate::event::QueuedEvent;
use crate::event::valid_payload;
use crate::event::valid_pred;
use crate::queue::EventQueue;
use crate::queue::payloads_of;

verus! {

/// Default number of events per batch request.
pub const DEFAULT_BATCH_SIZE: usize = 64;

/// How many events one flush removes from a buffer of length `len`:
/// everything, up to `batch_size`.
pub open spec fn flush_count(len: int, batch_size: int) -> int {
    if len <= batch_size {
        len
    } else {
        batch_size
    }
}

/// What a flush trigger produced: a batch of events to transmit, or a
/// heartbeat request keeping the session alive when no events are pending.
pub enum FlushOutcome {
    /// Transmit these events, oldest first.
    Batch(Vec<EventPayload>),
    /// Nothing pending: send a heartbeat request instead.
    Heartbeat,
}

/// The in-memory accumulator between the queue and the transport: an
/// insertion-order-preserving sequence of events, owned by the scheduler
/// tick and mutated only by draining the queue and flushing.
pub struct BatchBuffer {
    events: Vec<QueuedEvent>,
}

impl View for BatchBuffer {
    type V = Seq<EventPayload>;

    /// The buffered payloads, oldest first.
    closed spec fn view(&self) -> Seq<EventPayload> {
        payloads_of(self.events@)
    }
}

impl BatchBuffer {
    /// Every buffered event has a well-formed event type: re-validation on
    /// the way in keeps it so.
    pub open spec fn wf(&self) -> bool {
        forall|i: int| 0 <= i < self@.len() ==> valid_payload(#[trigger] self@[i])
    }

    /// Creates an empty buffer.
    pub fn new() -> (buf: BatchBuffer)
        ensures
            buf@ == Seq::<EventPayload>::empty(),
            buf.wf(),
    {
        let buf = BatchBuffer { events: Vec::new() };
        proof {
            assert(buf@ =~= Seq::<EventPayload>::empty());
        }
        buf
    }

    /// How many events are buffered.
    pub fn len(&self) -> (n: usize)
        ensures
            n == self@.len(),
    {
        self.events.len()
    }

    /// Appends one event that has already passed re-validation.
    pub(crate) fn push_validated(&mut self, ev: QueuedEvent)
        requires
            valid_payload(ev@),
        ensures
            final(self)@ == old(self)@.push(ev@),
            old(self).wf() ==> final(self).wf(),
    {
        self.events.push(ev);
        proof {
            assert(self@ =~= old(self)@.push(ev@)) by {
                assert forall|j: int| 0 <= j < self@.len() implies self@[j]
                    == old(self)@.push(ev@)[j] by {
                    assert(payloads_of(self.events@)[j] == self.events@[j]@);
                    if j < old(self)@.len() {
                        assert(self.events@[j] == old(self).events@[j]);
                        assert(old(self)@[j] == old(self).events@[j]@);
                    }
                }
            }
            if old(self).wf() {
                assert forall|j: int| 0 <= j < self@.len() implies valid_payload(
                    self@[j],
                ) by {
                    if j < old(self)@.len() {
                        assert(valid_payload(old(self)@[j]));
                    } else {
                        assert(self@[j] == ev@);
                    }
                }
            }
        }
    }

    /// Moves drained events into the buffer, re-validating each one.
    /// Exactly the events with a valid type are appended, in order; the rest
    /// are dropped, and their number returned for diagnostics.
    pub fn accept_drained(&mut self, drained: Vec<QueuedEvent>) -> (dropped: usize)
        ensures
            final(self)@ == old(self)@ + payloads_of(drained@).filter(valid_pred()),
            dropped == drained@.len() - payloads_of(drained@).filter(valid_pred()).len(),
            old(self).wf() ==> final(self).wf(),
    {
        let ghost orig: Seq<EventPayload> = payloads_of(drained@);
        let ghost buf0: Seq<EventPayload> = self@;
        let ghost was_wf: bool = self.wf();
        let mut rest = drained;
        let total = rest.len();
        let mut dropped: usize = 0;
        let mut accepted: usize = 0;
        proof {
            assert(orig.take(0) =~= Seq::<EventPayload>::empty());
            lemma_filter_empty();
            assert(self@ =~= buf0 + orig.take(0).filter(valid_pred()));
            assert(payloads_of(rest@) =~= orig.skip(0));
        }
        while rest.len() > 0
            invariant
                orig.len() == total,
                accepted + dropped + rest@.len() == total,
                payloads_of(rest@) == orig.skip(accepted + dropped),
                self@ == buf0 + orig.take(accepted + dropped).filter(valid_pred()),
                accepted == orig.take(accepted + dropped).filter(valid_pred()).len(),
                was_wf ==> self.wf(),
            decreases rest@.len(),
        {
            let ghost k: int = accepted + dropped;
            let ghost prev: Seq<QueuedEvent> = rest@;
            let ev = rest.remove(0);
            proof {
                assert(payloads_of(prev).len() == prev.len());
                assert(payloads_of(prev)[0] == prev[0]@);
                assert(ev@ == orig[k]);
                assert(payloads_of(rest@) =~= orig.skip(k + 1)) by {
                    assert forall|j: int| 0 <= j < rest@.len() implies payloads_of(rest@)[j]
                        == orig.skip(k + 1)[j] by {
                        assert(payloads_of(rest@)[j] == rest@[j]@);
                        assert(rest@[j] == prev[j + 1]);
                        assert(payloads_of(prev)[j + 1] == prev[j + 1]@);
                    }
                }
                assert(orig.take(k + 1) =~= orig.take(k).push(orig[k]));
                lemma_filter_push(orig.take(k), orig[k]);
            }
            let ghost mid: Seq<EventPayload> = self@;
            match ev.validate() {
                Ok(_) => {
                    self.events.push(ev);
                    proof {
                        assert(self@ =~= mid.push(ev@)) by {
                            assert forall|j: int| 0 <= j < self@.len() implies self@[j]
                                == mid.push(ev@)[j] by {
                                assert(payloads_of(self.events@)[j] == self.events@[j]@);
                            }
                        }
                        assert(self@ =~= buf0 + orig.take(k + 1).filter(valid_pred()));
                        if was_wf {
                            assert forall|j: int| 0 <= j < self@.len() implies valid_payload(
                                self@[j],
                            ) by {
                                if j < mid.len() {
                                    assert(valid_payload(mid[j]));
                                } else {
                                    assert(self@[j] == ev@);
                                }
                            }
                        }
                    }
                    accepted = accepted + 1;
                },
                Err(_) => {
                    dropped = dropped + 1;
                },
            }
        }
        proof {
            assert(orig.take(accepted + dropped) =~= orig);
        }
        dropped
    }

    /// Removes up to `batch_size` of the oldest events from the front of the
    /// buffer, preserving their order, and returns them as the batch to
    /// transmit. Whatever exceeds the batch size stays buffered for the next
    /// trigger.
    pub fn flush(&mut self, batch_size: usize) -> (batch: Vec<EventPayload>)
        ensures
            batch@ == old(self)@.take(flush_count(old(self)@.len() as int, batch_size as int)),
            final(self)@ == old(self)@.skip(
                flush_count(old(self)@.len() as int, batch_size as int),
            ),
            old(self).wf() ==> final(self).wf(),
    {
        let ghost buf0: Seq<EventPayload> = self@;
        let ghost was_wf: bool = self.wf();
        let count = if self.events.len() < batch_size {
            self.events.len()
        } else {
            batch_size
        };
        let mut batch: Vec<EventPayload> = Vec::new();
        let mut i: usize = 0;
        proof {
            assert(batch@ =~= buf0.take(0));
            assert(self@ =~= buf0.skip(0));
        }
        while i < count
            invariant
                i <= count <= buf0.len(),
                batch@ == buf0.take(i as int),
                self@ == buf0.skip(i as int),
                was_wf ==> self.wf(),
            decreases count - i,
        {
            let ghost prev: Seq<QueuedEvent> = self.events@;
            let ghost cur: Seq<EventPayload> = self@;
            proof {
                assert(self.events@.len() == self@.len());
            }
            let ev = self.events.remove(0);
            batch.push(ev.into_inner());
            proof {
                assert(payloads_of(prev)[0] == prev[0]@);
                assert(self@ =~= buf0.skip(i + 1)) by {
                    assert forall|j: int| 0 <= j < self.events@.len() implies payloads_of(
                        self.events@,
                    )[j] == buf0.skip(i + 1)[j] by {
                        assert(payloads_of(self.events@)[j] == self.events@[j]@);
                        assert(self.events@[j] == prev[j + 1]);
                        assert(payloads_of(prev)[j + 1] == prev[j + 1]@);
                    }
                }
                assert(batch@ =~= buf0.take(i + 1));
                if was_wf {
                    assert forall|j: int| 0 <= j < self@.len() implies valid_payload(
                        self@[j],
                    ) by {
                        assert(valid_payload(cur[j + 1]));
                        assert(self@[j] == cur[j + 1]);
                    }
                }
            }
            i = i + 1;
        }
        batch
    }

    /// The size trigger: when the buffer has grown to the batch size or
    /// beyond, flush immediately; otherwise leave the buffer untouched.
    pub fn maybe_flush(&mut self, batch_size: usize) -> (flushed: Option<Vec<EventPayload>>)
        ensures
            flushed is Some <==> old(self)@.len() >= batch_size,
            match flushed {
                Some(batch) => {
                    &&& batch@ == old(self)@.take(batch_size as int)
                    &&& final(self)@ == old(self)@.skip(batch_size as int)
                },
                None => final(self)@ == old(self)@,
            },
            old(self).wf() ==> final(self).wf(),
    {
        if self.events.len() >= batch_size {
            Some(self.flush(batch_size))
        } else {
            None
        }
    }

    /// The timer trigger: flush regardless of size, but if the buffer was
    /// empty, produce a heartbeat request instead of a batch and remove
    /// nothing.
    pub fn timer_flush(&mut self, batch_size: usize) -> (outcome: FlushOutcome)
        ensures
            match outcome {
                FlushOutcome::Heartbeat => {
                    &&& old(self)@.len() == 0
                    &&& final(self)@ == old(self)@
                },
                FlushOutcome::Batch(batch) => {
                    &&& old(self)@.len() > 0
                    &&& batch@ == old(self)@.take(
                        flush_count(old(self)@.len() as int, batch_size as int),
                    )
                    &&& final(self)@ == old(self)@.skip(
                        flush_count(old(self)@.len() as int, batch_size as int),
                    )
                },
            },
            old(self).wf() ==> final(self).wf(),
    {
        if self.events.len() == 0 {
            FlushOutcome::Heartbeat
        } else {
            FlushOutcome::Batch(self.flush(batch_size))
        }
    }
}

/// The drain trigger: takes every currently queued event, re-validates each,
/// and appends the valid ones to the buffer in order. Events failing
/// re-validation are dropped; their number is returned for diagnostics.
pub fn handle_queued_events(queue: &mut EventQueue, buffer: &mut BatchBuffer) -> (dropped: usize)
    ensures
        final(queue)@ == Seq::<EventPayload>::empty(),
        final(queue).max_queue() == old(queue).max_queue(),
        final(queue).inv(),
        final(buffer)@ == old(buffer)@ + old(queue)@.filter(valid_pred()),
        dropped == old(queue)@.len() - old(queue)@.filter(valid_pred()).len(),
        old(buffer).wf() ==> final(buffer).wf(),
{
    let drained = queue.drain();
    buffer.accept_drained(drained)
}

/// One flush removes exactly `min(len, batch_size)` events — everything,
/// up to the batch size — and what it removes is the oldest prefix of the
/// buffer in its original order, with the remainder kept intact behind it.
pub proof fn lemma_flush_removes_min_prefix(buffer: Seq<EventPayload>, batch_size: int)
    requires
        0 <= batch_size,
    ensures
        ({
            let count = flush_count(buffer.len() as int, batch_size);
            &&& count == if buffer.len() <= batch_size {
                buffer.len() as int
            } else {
                batch_size
            }
            &&& buffer.take(count).len() == count
            &&& forall|i: int| 0 <= i < count ==> buffer.take(count)[i] == buffer[i]
            &&& buffer.take(count) + buffer.skip(count) == buffer
        }),
{
    let count = flush_count(buffer.len() as int, batch_size);
    assert(buffer.take(count) + buffer.skip(count) =~= buffer);
}

/// Filtering an empty sequence yields an empty sequence.
proof fn lemma_filter_empty()
    ensures
        Seq::<EventPayload>::empty().filter(valid_pred()) == Seq::<EventPayload>::empty(),
{
    reveal(Seq::filter);
}

/// Filtering commutes with appending one element: the element is kept
/// exactly when it satisfies the predicate.
proof fn lemma_filter_push(s: Seq<EventPayload>, x: EventPayload)
    ensures
        valid_pred()(x) ==> s.push(x).filter(valid_pred()) == s.filter(valid_pred()).push(x),
        !valid_pred()(x) ==> s.push(x).filter(valid_pred()) == s.filter(valid_pred()),
{
    reveal(Seq::filter);
    assert(s.push(x).drop_last() =~= s);
    assert(s.push(x).last() == x);
}

} // verus!
