//! Task identities and the suspendable unit of work the executor runs.
//!
//! A `Task` pairs a `TaskId` with a deferred computation: something that can
//! be polled for progress and reports a done/not-done status. The only way a
//! suspended task becomes runnable again is through its `WakeHandle`, which
//! pushes the task's id back onto the ready queue.

use vstd::prelude::*;

use crate::channel::{ChannelView, EventChannel};
use crate::queue::ReadyQueue;

verus! {

/// An opaque, totally ordered task identity. Every id handed to the executor
/// is generated by a monotonically increasing counter and is unique for the
/// lifetime of the kernel.
#[derive(Debug, Clone, Copy, PartialEq, Eq, Structural, PartialOrd, Ord)]
pub struct TaskId {
    raw: u64,
}

/// The id counter shared across the kernel's lifetime. Kernel startup owns
/// it and threads it to every `TaskId::new` call.
pub struct TaskIdGen {
    next: u64,
}

impl View for TaskId {
    type V = u64;

    closed spec fn view(&self) -> u64 {
        self.raw
    }
}

impl View for TaskIdGen {
    type V = u64;

    closed spec fn view(&self) -> u64 {
        self.next
    }
}

impl TaskIdGen {
    /// A fresh counter; the first id it hands out is 0.
    pub fn new() -> (g: TaskIdGen)
        ensures
            g@ == 0,
    {
        TaskIdGen { next: 0 }
    }
}

impl TaskId {
    /// Generates the next id: one higher than every id generated before it.
    /// The counter never resets; exhausting a 64-bit counter is treated as a
    /// fatal sizing error rather than a wrap-around, so it is required away.
    pub fn new(gen: &mut TaskIdGen) -> (id: TaskId)
        requires
            old(gen)@ < u64::MAX,
        ensures
            id@ == old(gen)@,
            final(gen)@ == old(gen)@ + 1,
    {
        let raw = gen.next;
        gen.next = gen.next + 1;
        TaskId { raw }
    }

    /// The raw counter value behind this id.
    pub fn raw(&self) -> (r: u64)
        ensures
            r == self@,
    {
        self.raw
    }

    /// Rebuilds an id from its raw value; the executor uses this to bind a
    /// wake handle to an id it popped from the ready queue.
    pub(crate) fn from_raw(raw: u64) -> (id: TaskId)
        ensures
            id@ == raw,
    {
        TaskId { raw }
    }
}

/// The ids produced by `n` consecutive generator steps starting at `start`.
pub open spec fn generated_ids(start: int, n: nat) -> Seq<int> {
    Seq::new(n, |i: int| start + i)
}

/// Task id uniqueness: generating any number of ids in sequence yields
/// pairwise distinct, strictly increasing values. Each `TaskId::new` call
/// returns the counter and advances it by one, so `n` calls starting from
/// counter value `start` return exactly `generated_ids(start, n)`.
pub proof fn lemma_task_id_uniqueness(start: int, n: nat)
    requires
        n >= 1,
    ensures
        forall|i: int, j: int|
            0 <= i < j < n ==> generated_ids(start, n)[i] < generated_ids(start, n)[j],
        forall|i: int, j: int|
            0 <= i < n && 0 <= j < n && i != j ==> generated_ids(start, n)[i] != generated_ids(
                start,
                n,
            )[j],
{
}

/// A shareable handle bound to one task's identity. Invoking `wake` is the
/// only way a suspended task re-enters the ready queue; the queue is passed
/// in at the wake site rather than held through a shared pointer.
#[derive(Debug, Clone, Copy)]
pub struct WakeHandle {
    id: TaskId,
}

impl View for WakeHandle {
    type V = u64;

    closed spec fn view(&self) -> u64 {
        self.id@
    }
}

impl WakeHandle {
    /// A handle that will wake the task with the given id.
    pub fn new(id: TaskId) -> (h: WakeHandle)
        ensures
            h@ == id@,
    {
        WakeHandle { id }
    }

    /// Pushes this handle's task id onto the ready queue. A full ready queue
    /// here is a capacity-planning error and fatal in the kernel — silently
    /// dropping a wake would strand the task — so room is required.
    pub fn wake(&self, ready: &mut ReadyQueue)
        requires
            old(ready).wf(),
            old(ready)@.len() < old(ready).bound(),
        ensures
            final(ready).wf(),
            final(ready)@ == old(ready)@.push(self@),
            final(ready).bound() == old(ready).bound(),
    {
        ready.push(self.id.raw);
    }
}

/// What a poll of a computation reports: final completion, or not yet.
#[derive(Debug, Clone, Copy, PartialEq, Eq, Structural)]
pub enum PollStatus {
    Done,
    Pending,
}

/// A deferred, suspendable computation. The executor sees nothing of a
/// computation beyond this interface: poll it with a wake handle, learn
/// whether it finished. The three spec functions form the computation's
/// model: whether a poll completes now, the state it leaves behind, and what
/// it does to the event channel it may consume from.
pub trait Pollable: Sized {
    /// Whether a poll against a channel in state `chan` reports completion.
    spec fn completes_on(&self, chan: ChannelView) -> bool;

    /// The computation state after one poll against `chan`.
    spec fn state_after(&self, chan: ChannelView) -> Self;

    /// The channel state after one poll by the task with id `waker`.
    spec fn chan_after(&self, chan: ChannelView, waker: u64) -> ChannelView;

    /// Polls the computation once. `cx` is the handle the computation may
    /// register with an event channel so a later producer can resume it.
    fn poll(&mut self, cx: &WakeHandle, chan: &mut EventChannel) -> (r: PollStatus)
        requires
            old(chan).wf(),
        ensures
            final(chan).wf(),
            (r is Done) == old(self).completes_on(old(chan)@),
            *final(self) == old(self).state_after(old(chan)@),
            final(chan)@ == old(self).chan_after(old(chan)@, cx@),
    ;
}

/// The two shapes of kernel work the executor is exercised with: a
/// computation that finishes on its very first poll (a greeting, a one-shot
/// report), and one that awaits a single byte from an event channel before
/// finishing (the front of a keyboard consumer).
#[derive(Debug, Clone, Copy, PartialEq, Eq, Structural)]
pub enum Workload {
    Immediate,
    AwaitByte { received: Option<u8> },
}

impl Pollable for Workload {
    open spec fn completes_on(&self, chan: ChannelView) -> bool {
        match *self {
            Workload::Immediate => true,
            Workload::AwaitByte { received } => received is Some || chan.bytes.len() > 0,
        }
    }

    open spec fn state_after(&self, chan: ChannelView) -> Workload {
        match *self {
            Workload::Immediate => Workload::Immediate,
            Workload::AwaitByte { received } => match received {
                Some(b) => Workload::AwaitByte { received: Some(b) },
                None => if chan.bytes.len() > 0 {
                    Workload::AwaitByte { received: Some(chan.bytes[0]) }
                } else {
                    Workload::AwaitByte { received: None }
                },
            },
        }
    }

    open spec fn chan_after(&self, chan: ChannelView, waker: u64) -> ChannelView {
        match *self {
            Workload::Immediate => chan,
            Workload::AwaitByte { received } => match received {
                Some(_) => chan,
                None => chan.after_poll(waker),
            },
        }
    }

    fn poll(&mut self, cx: &WakeHandle, chan: &mut EventChannel) -> (r: PollStatus) {
        match *self {
            Workload::Immediate => PollStatus::Done,
            Workload::AwaitByte { received } => match received {
                Some(_) => PollStatus::Done,
                None => match chan.poll_byte(cx) {
                    crate::channel::BytePoll::Ready(b) => {
                        *self = Workload::AwaitByte { received: Some(b) };
                        PollStatus::Done
                    },
                    crate::channel::BytePoll::Pending => PollStatus::Pending,
                },
            },
        }
    }
}

/// A task: one identity plus one owned deferred computation. Ownership moves
/// to the executor at spawn time; the executor destroys the task the moment
/// its computation reports completion.
pub struct Task<F> {
    id: TaskId,
    future: F,
}

impl<F: Pollable> Task<F> {
    /// Wraps a computation with a freshly generated id.
    pub fn new(future: F, gen: &mut TaskIdGen) -> (t: Task<F>)
        requires
            old(gen)@ < u64::MAX,
        ensures
            t.spec_id() == old(gen)@,
            final(gen)@ == old(gen)@ + 1,
            t.spec_future() == future,
    {
        Task { id: TaskId::new(gen), future }
    }

    /// The identity of the task.
    pub fn id(&self) -> (id: TaskId)
        ensures
            id@ == self.spec_id(),
    {
        self.id
    }

    /// The identity as a spec value.
    pub closed spec fn spec_id(&self) -> u64 {
        self.id@
    }

    /// The owned computation as a spec value.
    pub closed spec fn spec_future(&self) -> F {
        self.future
    }

    /// Takes the task apart; the executor stores the computation keyed by id.
    pub fn into_parts(self) -> (r: (TaskId, F))
        ensures
            r.0@ == self.spec_id(),
            r.1 == self.spec_future(),
    {
        (self.id, self.future)
    }
}

} // verus!
