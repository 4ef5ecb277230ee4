//! The keyboard instantiation of the event channel: the bridge from the
//! keyboard interrupt handler to the task that consumes scancodes.
//!
//! One process-wide scancode queue cell exists, initialized exactly once
//! before the keyboard interrupt is unmasked; interrupt vectors are raw
//! function pointers with no context, so the producer must find the queue in
//! that cell. The cell is an explicit value kernel startup owns and threads
//! to the producer and the consumer.

use vstd::prelude::*;

use crate::channel::{BytePoll, ChannelView, EventChannel, PushOutcome};
use crate::queue::ReadyQueue;
use crate::task::WakeHandle;

verus! {

/// How many scancodes the queue buffers before dropping input.
pub const SCANCODE_QUEUE_CAPACITY: usize = 100;

/// What became of one scancode the interrupt handler delivered.
#[derive(Debug, Clone, Copy, PartialEq, Eq, Structural)]
pub enum ScancodeDelivery {
    /// Queued, and any waiting consumer was woken.
    Delivered,
    /// The queue was full; the scancode was dropped and the loss counted.
    Dropped,
    /// The queue was never initialized; the scancode was discarded.
    Uninitialized,
}

/// The process-wide scancode queue cell: empty until `ScancodeStream::new`
/// initializes it, then an event channel for the kernel's lifetime.
pub struct ScancodeQueue {
    inner: Option<EventChannel>,
}

impl View for ScancodeQueue {
    type V = Option<ChannelView>;

    closed spec fn view(&self) -> Option<ChannelView> {
        match self.inner {
            Some(c) => Some(c@),
            None => None,
        }
    }
}

impl ScancodeQueue {
    /// The channel, once initialized, is well formed.
    pub open spec fn wf(&self) -> bool {
        match self@ {
            Some(c) => c.bytes.len() <= c.bound && 1 <= c.bound,
            None => true,
        }
    }

    /// The cell as kernel startup first sees it: uninitialized.
    pub fn new() -> (q: ScancodeQueue)
        ensures
            q@ is None,
            q.wf(),
    {
        ScancodeQueue { inner: None }
    }

    /// How many scancodes have been dropped against a full queue.
    pub fn dropped_count(&self) -> (r: u64)
        requires
            self@ is Some,
        ensures
            r == self@->Some_0.dropped,
    {
        match &self.inner {
            Some(c) => c.dropped_count(),
            None => {
                // unreachable: the queue is initialized by precondition
                proof {
                    assert(false);
                }
                0
            },
        }
    }
}

/// Called by the keyboard interrupt handler for every scancode byte read
/// from the device port. Must not block and must not allocate: it queues the
/// byte and wakes the waiting consumer, drops the byte when the queue is
/// full, and reports an uninitialized queue instead of crashing — the
/// handler only logs these conditions.
pub fn add_scancode(queue: &mut ScancodeQueue, ready: &mut ReadyQueue, scancode: u8) -> (r:
    ScancodeDelivery)
    requires
        old(queue).wf(),
        old(ready).wf(),
        match old(queue)@ {
            Some(c) => c.dropped < u64::MAX && ((c.bytes.len() < c.bound && c.waiter is Some)
                ==> old(ready)@.len() < old(ready).bound()),
            None => true,
        },
    ensures
        final(queue).wf(),
        final(ready).wf(),
        final(ready).bound() == old(ready).bound(),
        match old(queue)@ {
            Some(c) => {
                &&& final(queue)@ == Some(c.after_push(scancode))
                &&& r == (if c.bytes.len() < c.bound {
                    ScancodeDelivery::Delivered
                } else {
                    ScancodeDelivery::Dropped
                })
                &&& final(ready)@ == (match c.waiter {
                    Some(id) if c.bytes.len() < c.bound => old(ready)@.push(id),
                    _ => old(ready)@,
                })
            },
            None => {
                &&& final(queue)@ is None
                &&& r == ScancodeDelivery::Uninitialized
                &&& final(ready)@ == old(ready)@
            },
        },
{
    match &mut queue.inner {
        Some(chan) => {
            match chan.try_push(scancode, ready) {
                PushOutcome::Delivered => ScancodeDelivery::Delivered,
                PushOutcome::Dropped => ScancodeDelivery::Dropped,
            }
        },
        None => ScancodeDelivery::Uninitialized,
    }
}

/// The consumer's handle on the scancode queue. Creating it initializes the
/// queue; polling it runs the race-free check / register / re-check
/// protocol against the channel.
pub struct ScancodeStream {
    _private: (),
}

impl ScancodeStream {
    /// Initializes the scancode queue. Calling this twice would silently
    /// drop queued input, so it is a fatal programming error; the queue must
    /// still be uninitialized.
    pub fn new(queue: &mut ScancodeQueue) -> (s: ScancodeStream)
        requires
            old(queue)@ is None,
        ensures
            final(queue)@ == Some(ChannelView::empty(SCANCODE_QUEUE_CAPACITY as nat)),
            final(queue).wf(),
    {
        queue.inner = Some(EventChannel::new(SCANCODE_QUEUE_CAPACITY));
        ScancodeStream { _private: () }
    }

    /// One consumer poll: the next scancode if one is queued, else leaves
    /// the caller's wake handle in the channel's resumption slot and reports
    /// pending. The queue must have been initialized.
    pub fn poll_next(&mut self, queue: &mut ScancodeQueue, cx: &WakeHandle) -> (r: BytePoll)
        requires
            old(queue).wf(),
            old(queue)@ is Some,
        ensures
            final(queue).wf(),
            final(queue)@ == Some(old(queue)@->Some_0.after_poll(cx@)),
            r == (if old(queue)@->Some_0.bytes.len() > 0 {
                BytePoll::Ready(old(queue)@->Some_0.bytes[0])
            } else {
                BytePoll::Pending
            }),
    {
        match &mut queue.inner {
            Some(chan) => chan.poll_byte(cx),
            None => {
                // unreachable: the queue is initialized by precondition
                proof {
                    assert(false);
                }
                BytePoll::Pending
            },
        }
    }
}

} // verus!
