//! The bounded event channel: the bridge from interrupt-context producers to
//! task-context consumers.
//!
//! A channel is one fixed-capacity FIFO of raw event bytes plus a single
//! cached resumption slot holding the wake handle of whichever task is
//! currently awaiting a value. The producer side (`try_push`) never blocks:
//! it enqueues and wakes, or drops the value and counts the loss. The
//! consumer side polls with a mandatory check / register / re-check order so
//! that a producer racing between the first check and the registration can
//! never cost the consumer its wakeup.

use vstd::prelude::*;

use crate::queue::{byte_queue_bytes, byte_queue_bound, byte_queue_len, byte_queue_new,
    byte_queue_pop, byte_queue_push, ReadyQueue};
use crate::task::WakeHandle;

verus! {

/// The mathematical state of an event channel.
pub struct ChannelView {
    /// Queued event bytes, oldest first.
    pub bytes: Seq<u8>,
    /// The id of the task whose wake handle sits in the resumption slot.
    pub waiter: Option<u64>,
    /// How many events were dropped because the queue was full.
    pub dropped: nat,
    /// The fixed capacity of the queue.
    pub bound: nat,
}

impl ChannelView {
    /// A fresh channel's state.
    pub open spec fn empty(bound: nat) -> ChannelView {
        ChannelView { bytes: Seq::empty(), waiter: None, dropped: 0, bound }
    }

    /// The producer transition: an in-capacity push appends the byte, hands
    /// the cached wake out and clears the slot; a push against a full queue
    /// changes nothing but the loss counter.
    pub open spec fn after_push(self, value: u8) -> ChannelView {
        if self.bytes.len() < self.bound {
            ChannelView { bytes: self.bytes.push(value), waiter: None, ..self }
        } else {
            ChannelView { dropped: self.dropped + 1, ..self }
        }
    }

    /// The consumer transition: take the front byte if there is one, else
    /// leave the wake handle of task `waker` in the resumption slot.
    pub open spec fn after_poll(self, waker: u64) -> ChannelView {
        if self.bytes.len() > 0 {
            ChannelView { bytes: self.bytes.drop_first(), ..self }
        } else {
            ChannelView { waiter: Some(waker), ..self }
        }
    }
}

/// The channel state after the producer pushes every value of `vs` in order.
pub open spec fn after_push_seq(c: ChannelView, vs: Seq<u8>) -> ChannelView
    decreases vs.len(),
{
    if vs.len() == 0 {
        c
    } else {
        after_push_seq(c.after_push(vs[0]), vs.drop_first())
    }
}

/// The values a consumer receives from `n` successive polls, in order.
pub open spec fn polled_values(c: ChannelView, n: nat, waker: u64) -> Seq<u8>
    decreases n,
{
    if n == 0 {
        Seq::empty()
    } else if c.bytes.len() > 0 {
        seq![c.bytes[0]] + polled_values(c.after_poll(waker), (n - 1) as nat, waker)
    } else {
        polled_values(c.after_poll(waker), (n - 1) as nat, waker)
    }
}

/// What a run of pushes does: values are appended in order up to capacity,
/// and every value past capacity is dropped and counted, never queued.
pub proof fn lemma_push_seq(c: ChannelView, vs: Seq<u8>)
    requires
        c.bytes.len() <= c.bound,
    ensures
        after_push_seq(c, vs).bound == c.bound,
        after_push_seq(c, vs).bytes == c.bytes + vs.take(
            if c.bytes.len() + vs.len() <= c.bound {
                vs.len() as int
            } else {
                c.bound - c.bytes.len()
            },
        ),
        after_push_seq(c, vs).dropped == c.dropped + (if c.bytes.len() + vs.len() <= c.bound {
            0int
        } else {
            c.bytes.len() + vs.len() - c.bound
        }),
        after_push_seq(c, vs).bytes.len() <= c.bound,
    decreases vs.len(),
{
    if vs.len() == 0 {
        assert(after_push_seq(c, vs).bytes =~= c.bytes + vs.take(0));
    } else {
        let c1 = c.after_push(vs[0]);
        lemma_push_seq(c1, vs.drop_first());
        if c.bytes.len() < c.bound {
            if c.bytes.len() + vs.len() <= c.bound {
                assert(c1.bytes + vs.drop_first().take(vs.len() - 1) =~= c.bytes + vs.take(
                    vs.len() as int,
                ));
            } else {
                assert(c1.bytes + vs.drop_first().take(c.bound - c.bytes.len() - 1) =~= c.bytes
                    + vs.take(c.bound - c.bytes.len()));
            }
        } else {
            assert(c1.bytes + vs.drop_first().take(0) =~= c.bytes + vs.take(0));
        }
    }
}

/// What a run of polls does: polling exactly as many times as there are
/// queued values returns those values, front first.
pub proof fn lemma_polled_values_drain(c: ChannelView, waker: u64)
    ensures
        polled_values(c, c.bytes.len(), waker) == c.bytes,
    decreases c.bytes.len(),
{
    if c.bytes.len() == 0 {
        assert(polled_values(c, 0, waker) =~= c.bytes);
    } else {
        lemma_polled_values_drain(c.after_poll(waker), waker);
        assert(seq![c.bytes[0]] + c.bytes.drop_first() =~= c.bytes);
    }
}

/// Channel FIFO round trip: pushing `v1..vn` (n at most the capacity) into a
/// fresh channel with no consumer polling, then polling n times, yields
/// exactly `v1..vn` in that order, with nothing dropped.
pub proof fn lemma_channel_fifo_round_trip(cap: nat, vs: Seq<u8>, waker: u64)
    requires
        1 <= cap,
        vs.len() <= cap,
    ensures
        after_push_seq(ChannelView::empty(cap), vs).bytes == vs,
        after_push_seq(ChannelView::empty(cap), vs).dropped == 0,
        polled_values(after_push_seq(ChannelView::empty(cap), vs), vs.len(), waker) == vs,
{
    let c0 = ChannelView::empty(cap);
    lemma_push_seq(c0, vs);
    assert(c0.bytes + vs.take(vs.len() as int) =~= vs);
    lemma_polled_values_drain(after_push_seq(c0, vs), waker);
}

/// Overflow policy: pushing `capacity + k` values without ever consuming
/// leaves exactly the first `capacity` values observable, and reports the
/// last `k` pushes through the loss counter rather than swallowing them.
pub proof fn lemma_channel_overflow(cap: nat, vs: Seq<u8>)
    requires
        1 <= cap,
        vs.len() > cap,
    ensures
        after_push_seq(ChannelView::empty(cap), vs).bytes == vs.take(cap as int),
        after_push_seq(ChannelView::empty(cap), vs).dropped == vs.len() - cap,
{
    let c0 = ChannelView::empty(cap);
    lemma_push_seq(c0, vs);
    assert(c0.bytes + vs.take(cap as int) =~= vs.take(cap as int));
}

/// What the producer observed: the event was queued (and any waiter woken),
/// or the queue was full and the event was dropped.
#[derive(Debug, Clone, Copy, PartialEq, Eq, Structural)]
pub enum PushOutcome {
    Delivered,
    Dropped,
}

/// What one consumer poll returned.
#[derive(Debug, Clone, Copy, PartialEq, Eq, Structural)]
pub enum BytePoll {
    Ready(u8),
    Pending,
}

/// A bounded event channel. Created once, before its producing interrupt is
/// unmasked; it lives for the kernel's lifetime.
pub struct EventChannel {
    queue: crossbeam_queue::ArrayQueue<u8>,
    waker: Option<WakeHandle>,
    dropped: u64,
}

impl View for EventChannel {
    type V = ChannelView;

    closed spec fn view(&self) -> ChannelView {
        ChannelView {
            bytes: byte_queue_bytes(self.queue),
            waiter: match self.waker {
                Some(h) => Some(h@),
                None => None,
            },
            dropped: self.dropped as nat,
            bound: byte_queue_bound(self.queue),
        }
    }
}

impl EventChannel {
    /// The queue never exceeds its capacity, and the capacity is positive.
    pub open spec fn wf(&self) -> bool {
        self@.bytes.len() <= self@.bound && 1 <= self@.bound
    }

    /// A fresh channel with the given fixed capacity. Called exactly once
    /// per event source, before the producing interrupt can fire.
    pub fn new(capacity: usize) -> (c: EventChannel)
        requires
            1 <= capacity <= 0x1000_0000,
        ensures
            c.wf(),
            c@ == ChannelView::empty(capacity as nat),
    {
        let c = EventChannel { queue: byte_queue_new(capacity), waker: None, dropped: 0 };
        proof {
            assert(c@ =~= ChannelView::empty(capacity as nat));
        }
        c
    }

    /// Producer side, called from interrupt context: non-blocking. Queues the
    /// byte and invokes the cached wake handle, if any — the only path that
    /// makes a suspended consumer runnable again. A full queue drops the byte
    /// and counts the loss; a lost low-rate event must not take the kernel
    /// down, so this is not an error. Waking into a full ready queue would be
    /// fatal, so room is required whenever a wake can happen.
    pub fn try_push(&mut self, value: u8, ready: &mut ReadyQueue) -> (r: PushOutcome)
        requires
            old(self).wf(),
            old(ready).wf(),
            old(self)@.dropped < u64::MAX,
            (old(self)@.bytes.len() < old(self)@.bound && old(self)@.waiter is Some)
                ==> old(ready)@.len() < old(ready).bound(),
        ensures
            final(self).wf(),
            final(ready).wf(),
            final(ready).bound() == old(ready).bound(),
            final(self)@ == old(self)@.after_push(value),
            r == (if old(self)@.bytes.len() < old(self)@.bound {
                PushOutcome::Delivered
            } else {
                PushOutcome::Dropped
            }),
            final(ready)@ == (match old(self)@.waiter {
                Some(id) if old(self)@.bytes.len() < old(self)@.bound => old(ready)@.push(id),
                _ => old(ready)@,
            }),
    {
        let pushed = byte_queue_push(&mut self.queue, value);
        match pushed {
            Ok(()) => {
                match &self.waker {
                    Some(h) => {
                        let handle = *h;
                        handle.wake(ready);
                        self.waker = None;
                    },
                    None => {
                        self.waker = None;
                    },
                }
                PushOutcome::Delivered
            },
            Err(_) => {
                self.dropped = self.dropped + 1;
                PushOutcome::Dropped
            },
        }
    }

    /// Consumer fast path: a non-blocking dequeue that does not touch the
    /// cached resumption slot.
    pub fn try_recv(&mut self) -> (r: Option<u8>)
        requires
            old(self).wf(),
        ensures
            final(self).wf(),
            final(self)@.waiter == old(self)@.waiter,
            final(self)@.dropped == old(self)@.dropped,
            final(self)@.bound == old(self)@.bound,
            match r {
                Some(b) => old(self)@.bytes.len() > 0 && b == old(self)@.bytes[0]
                    && final(self)@.bytes == old(self)@.bytes.drop_first(),
                None => old(self)@.bytes.len() == 0 && final(self)@.bytes == old(self)@.bytes,
            },
    {
        byte_queue_pop(&mut self.queue)
    }

    /// Consumer registration: caches the caller's wake handle in the
    /// resumption slot, replacing whatever was there.
    pub fn register(&mut self, cx: &WakeHandle)
        requires
            old(self).wf(),
        ensures
            final(self).wf(),
            final(self)@ == (ChannelView { waiter: Some(cx@), ..old(self)@ }),
    {
        self.waker = Some(*cx);
        proof {
            assert(final(self)@ =~= (ChannelView { waiter: Some(cx@), ..old(self)@ }));
        }
    }

    /// Consumer re-check, run after registering: if a value arrived between
    /// the first check and the registration, take it and clear the slot —
    /// consuming the registration instead of waiting for another wake.
    pub fn recheck(&mut self) -> (r: Option<u8>)
        requires
            old(self).wf(),
        ensures
            final(self).wf(),
            final(self)@.dropped == old(self)@.dropped,
            final(self)@.bound == old(self)@.bound,
            match r {
                Some(b) => old(self)@.bytes.len() > 0 && b == old(self)@.bytes[0]
                    && final(self)@.bytes == old(self)@.bytes.drop_first()
                    && (final(self)@.waiter is None),
                None => old(self)@.bytes.len() == 0 && final(self)@.bytes == old(self)@.bytes
                    && final(self)@.waiter == old(self)@.waiter,
            },
    {
        let r = byte_queue_pop(&mut self.queue);
        match r {
            Some(b) => {
                self.waker = None;
                Some(b)
            },
            None => None,
        }
    }

    /// One full consumer poll: try a non-blocking dequeue; only if the queue
    /// is empty, register the caller's handle and re-check. Checking first
    /// and registering second would leave a window in which a producer's
    /// push-and-wake could be lost for good; the re-check closes it.
    pub fn poll_byte(&mut self, cx: &WakeHandle) -> (r: BytePoll)
        requires
            old(self).wf(),
        ensures
            final(self).wf(),
            final(self)@ == old(self)@.after_poll(cx@),
            r == (if old(self)@.bytes.len() > 0 {
                BytePoll::Ready(old(self)@.bytes[0])
            } else {
                BytePoll::Pending
            }),
    {
        if let Some(b) = self.try_recv() {
            return BytePoll::Ready(b);
        }
        self.register(cx);
        match self.recheck() {
            Some(b) => BytePoll::Ready(b),
            None => BytePoll::Pending,
        }
    }

    /// Whether a consumer's wake handle is cached in the resumption slot.
    pub fn has_waiter(&self) -> (r: bool)
        ensures
            r == (self@.waiter is Some),
    {
        match &self.waker {
            Some(_) => true,
            None => false,
        }
    }

    /// How many events the producer has dropped against a full queue.
    pub fn dropped_count(&self) -> (r: u64)
        ensures
            r == self@.dropped,
    {
        self.dropped
    }

    /// How many events are queued right now.
    pub fn len(&self) -> (r: usize)
        ensures
            r == self@.bytes.len(),
    {
        byte_queue_len(&self.queue)
    }
}

} // verus!
