//! The cooperative executor: owner of every live task, of the ready queue of
//! runnable task ids, and of the cache of wake handles.
//!
//! The scheduling loop drains the ready queue in FIFO order, polls each
//! runnable task, retires the ones that report completion, and then idles the
//! core behind a disable / check / enable-and-halt window so that a wake
//! racing the emptiness check cannot be lost. One iteration of that loop is
//! `scheduler_step`; the kernel runs it forever.

use vstd::prelude::*;

use std::collections::BTreeMap;

use crate::channel::{ChannelView, EventChannel};
use crate::queue::ReadyQueue;
use crate::task::{Pollable, PollStatus, Task, TaskId, WakeHandle};

verus! {

broadcast use vstd::laws_cmp::group_laws_cmp;

/// The ready queue is sized generously: it must hold one id per wake of any
/// concurrently live task, and filling it is a capacity-planning failure.
pub const READY_QUEUE_CAPACITY: usize = 100;

/// The executor state a drain cycle computes: what is left of the task map,
/// the wake-handle cache, and the event channel.
pub struct DrainOutcome<F> {
    pub tasks: Map<u64, F>,
    pub cache: Set<u64>,
    pub chan: ChannelView,
}

/// One drain cycle over the ready ids, front first: a stale id (no task any
/// more) is skipped silently; a live task is polled, retired from both maps
/// on completion, and left in place otherwise.
pub open spec fn drain_model<F: Pollable>(
    tasks: Map<u64, F>,
    cache: Set<u64>,
    ready: Seq<u64>,
    chan: ChannelView,
) -> DrainOutcome<F>
    decreases ready.len(),
{
    if ready.len() == 0 {
        DrainOutcome { tasks, cache, chan }
    } else {
        let id = ready[0];
        let rest = ready.drop_first();
        if !tasks.dom().contains(id) {
            drain_model(tasks, cache, rest, chan)
        } else {
            let f = tasks[id];
            if f.completes_on(chan) {
                drain_model(tasks.remove(id), cache.remove(id), rest, f.chan_after(chan, id))
            } else {
                drain_model(
                    tasks.insert(id, f.state_after(chan)),
                    cache.insert(id),
                    rest,
                    f.chan_after(chan, id),
                )
            }
        }
    }
}

/// Stale-id tolerance: an id whose task has already been retired is skipped
/// without any effect on the rest of the drain cycle.
pub proof fn lemma_stale_id_skipped<F: Pollable>(
    tasks: Map<u64, F>,
    cache: Set<u64>,
    ready: Seq<u64>,
    chan: ChannelView,
)
    requires
        ready.len() > 0,
        !tasks.dom().contains(ready[0]),
    ensures
        drain_model(tasks, cache, ready, chan) == drain_model(
            tasks,
            cache,
            ready.drop_first(),
            chan,
        ),
{
}

/// Liveness, one cycle at a time: a task whose computation completes on the
/// poll it is about to receive is removed from the task map and from the
/// wake-handle cache, and the rest of the cycle proceeds on the remainder.
pub proof fn lemma_completed_task_retired<F: Pollable>(
    tasks: Map<u64, F>,
    cache: Set<u64>,
    ready: Seq<u64>,
    chan: ChannelView,
)
    requires
        ready.len() > 0,
        tasks.dom().contains(ready[0]),
        tasks[ready[0]].completes_on(chan),
    ensures
        drain_model(tasks, cache, ready, chan) == drain_model(
            tasks.remove(ready[0]),
            cache.remove(ready[0]),
            ready.drop_first(),
            tasks[ready[0]].chan_after(chan, ready[0]),
        ),
{
}

/// Liveness for the channel consumer: a task awaiting a byte, woken into a
/// drain cycle while the channel holds one, finishes on that cycle and is
/// removed from the task map and the wake-handle cache, with the byte
/// consumed from the channel.
pub proof fn lemma_await_byte_completion(
    tasks: Map<u64, crate::task::Workload>,
    cache: Set<u64>,
    chan: ChannelView,
    id: u64,
)
    requires
        tasks.dom().contains(id),
        tasks[id] == (crate::task::Workload::AwaitByte { received: Option::<u8>::None }),
        chan.bytes.len() > 0,
    ensures
        ({
            let out = drain_model(tasks, cache, seq![id], chan);
            &&& !out.tasks.dom().contains(id)
            &&& !out.cache.contains(id)
            &&& out.chan == chan.after_poll(id)
        }),
{
    let ready = seq![id];
    let rest = ready.drop_first();
    assert(ready.len() == 1 && ready[0] == id);
    assert(rest =~= Seq::<u64>::empty());
    let f = tasks[id];
    assert(f.completes_on(chan));
    assert(drain_model(tasks, cache, ready, chan) == drain_model(
        tasks.remove(id),
        cache.remove(id),
        rest,
        f.chan_after(chan, id),
    ));
    assert(drain_model(tasks.remove(id), cache.remove(id), rest, f.chan_after(chan, id))
        == (DrainOutcome {
        tasks: tasks.remove(id),
        cache: cache.remove(id),
        chan: f.chan_after(chan, id),
    }));
}

/// Liveness across cycles: a task awaiting a byte when none is queued
/// survives its first drain cycle with its wake handle registered at the
/// channel; one producer push then re-queues it, and the next drain cycle
/// retires it. Every required wake signal is a single push.
pub proof fn lemma_await_byte_two_cycle_liveness(
    tasks: Map<u64, crate::task::Workload>,
    cache: Set<u64>,
    chan: ChannelView,
    id: u64,
    value: u8,
)
    requires
        tasks.dom().contains(id),
        tasks[id] == (crate::task::Workload::AwaitByte { received: Option::<u8>::None }),
        chan.bytes.len() == 0,
        chan.bound >= 1,
    ensures
        ({
            let first = drain_model(tasks, cache, seq![id], chan);
            &&& first.tasks.dom().contains(id)
            &&& first.tasks[id] == (crate::task::Workload::AwaitByte {
                received: Option::<u8>::None,
            })
            &&& first.chan.waiter == Some(id)
            &&& ({
                let second = drain_model(
                    first.tasks,
                    first.cache,
                    seq![id],
                    first.chan.after_push(value),
                );
                !second.tasks.dom().contains(id) && !second.cache.contains(id)
            })
        }),
{
    let ready = seq![id];
    let rest = ready.drop_first();
    assert(ready.len() == 1 && ready[0] == id);
    assert(rest =~= Seq::<u64>::empty());
    let f = tasks[id];
    assert(!f.completes_on(chan));
    let tasks1 = tasks.insert(id, f.state_after(chan));
    let cache1 = cache.insert(id);
    let chan1 = f.chan_after(chan, id);
    assert(drain_model(tasks, cache, ready, chan) == drain_model(tasks1, cache1, rest, chan1));
    assert(drain_model(tasks1, cache1, rest, chan1) == (DrainOutcome {
        tasks: tasks1,
        cache: cache1,
        chan: chan1,
    }));
    let first = drain_model(tasks, cache, ready, chan);
    assert(first.tasks[id] == f.state_after(chan));
    assert(first.chan.waiter == Some(id));
    let chan2 = first.chan.after_push(value);
    assert(chan2.bytes.len() == 1);
    lemma_completed_task_retired(first.tasks, first.cache, ready, chan2);
    assert(drain_model(
        first.tasks.remove(id),
        first.cache.remove(id),
        rest,
        first.tasks[id].chan_after(chan2, id),
    ) == (DrainOutcome {
        tasks: first.tasks.remove(id),
        cache: first.cache.remove(id),
        chan: first.tasks[id].chan_after(chan2, id),
    }));
}

/// A model of the core's interrupt-masking and halt controls. In the kernel
/// these are the privileged disable / enable / enable-and-halt instructions;
/// a hosted harness observes the counter instead of stopping a CPU. Halting
/// is only possible from inside a disabled window, so the race-free idle
/// protocol is enforced by contract.
pub struct IdleControl {
    enabled: bool,
    halts: u64,
}

impl IdleControl {
    /// Whether interrupt delivery is currently enabled.
    pub closed spec fn interrupts_enabled(&self) -> bool {
        self.enabled
    }

    /// How many times the core has halted.
    pub closed spec fn halt_count(&self) -> u64 {
        self.halts
    }

    /// The halt count, as the hosted harness reads it.
    pub fn halts(&self) -> (r: u64)
        ensures
            r == self.halt_count(),
    {
        self.halts
    }

    /// Whether interrupts are enabled, as the hosted harness reads it.
    pub fn is_enabled(&self) -> (r: bool)
        ensures
            r == self.interrupts_enabled(),
    {
        self.enabled
    }

    /// Fresh controls: interrupts enabled, no halts yet.
    pub fn new() -> (c: IdleControl)
        ensures
            c.interrupts_enabled(),
            c.halt_count() == 0,
    {
        IdleControl { enabled: true, halts: 0 }
    }

    /// Masks interrupt delivery.
    pub fn disable(&mut self)
        ensures
            !final(self).interrupts_enabled(),
            final(self).halt_count() == old(self).halt_count(),
    {
        self.enabled = false;
    }

    /// Unmasks interrupt delivery without halting.
    pub fn enable(&mut self)
        ensures
            final(self).interrupts_enabled(),
            final(self).halt_count() == old(self).halt_count(),
    {
        self.enabled = true;
    }

    /// Atomically re-enables interrupts and halts until the next one: the
    /// single uninterruptible step that closes the idle race. It may only be
    /// taken from inside a disabled window, after the emptiness check.
    pub fn enable_and_halt(&mut self)
        requires
            !old(self).interrupts_enabled(),
            old(self).halt_count() < u64::MAX,
        ensures
            final(self).interrupts_enabled(),
            final(self).halt_count() == old(self).halt_count() + 1,
    {
        self.enabled = true;
        self.halts = self.halts + 1;
    }
}

/// The executor. It exclusively owns the task map and the wake-handle cache;
/// only the ready queue is ever shared with interrupt context.
pub struct Executor<F> {
    tasks: BTreeMap<u64, F>,
    task_queue: ReadyQueue,
    waker_cache: BTreeMap<u64, WakeHandle>,
}

impl<F: Pollable> Executor<F> {
    /// The owned tasks, keyed by raw task id.
    pub closed spec fn tasks_view(&self) -> Map<u64, F> {
        self.tasks@
    }

    /// The ids that currently have a cached wake handle.
    pub closed spec fn cache_ids(&self) -> Set<u64> {
        self.waker_cache@.dom()
    }

    /// The ready queue's ids, front first.
    pub closed spec fn ready_view(&self) -> Seq<u64> {
        self.task_queue@
    }

    /// The ready queue's fixed capacity.
    pub closed spec fn ready_bound(&self) -> nat {
        self.task_queue.bound()
    }

    /// Structural invariant: the queue respects its bound, every cached
    /// handle wakes the id it is cached under, and handles are only cached
    /// for live tasks.
    pub closed spec fn wf(&self) -> bool {
        &&& self.task_queue.wf()
        &&& self.waker_cache@.dom().subset_of(self.tasks@.dom())
        &&& forall|id: u64|
            self.waker_cache@.dom().contains(id) ==> #[trigger] self.waker_cache@[id]@ == id
    }

    /// An empty executor.
    pub fn new() -> (e: Executor<F>)
        ensures
            e.wf(),
            e.tasks_view() == Map::<u64, F>::empty(),
            e.cache_ids() == Set::<u64>::empty(),
            e.ready_view() == Seq::<u64>::empty(),
            e.ready_bound() == READY_QUEUE_CAPACITY as nat,
    {
        let e = Executor {
            tasks: BTreeMap::new(),
            task_queue: ReadyQueue::new(READY_QUEUE_CAPACITY),
            waker_cache: BTreeMap::new(),
        };
        proof {
            assert(e.cache_ids() =~= Set::<u64>::empty());
        }
        e
    }

    /// Takes ownership of a task: inserts it into the task map and marks it
    /// ready. A task id already present in the map means id generation is
    /// broken, which is fatal; so is spawning into a full ready queue.
    pub fn spawn(&mut self, task: Task<F>)
        requires
            old(self).wf(),
            !old(self).tasks_view().dom().contains(task.spec_id()),
            old(self).ready_view().len() < old(self).ready_bound(),
        ensures
            final(self).wf(),
            final(self).tasks_view() == old(self).tasks_view().insert(
                task.spec_id(),
                task.spec_future(),
            ),
            final(self).cache_ids() == old(self).cache_ids(),
            final(self).ready_view() == old(self).ready_view().push(task.spec_id()),
            final(self).ready_bound() == old(self).ready_bound(),
    {
        let (id, future) = task.into_parts();
        let raw = id.raw();
        let previous = self.tasks.insert(raw, future);
        match previous {
            None => (),
            Some(_) => {
                // unreachable: the task's id is fresh by precondition
                proof {
                    assert(false);
                }
            },
        }
        self.task_queue.push(raw);
    }

    /// Pushes the handle's task id onto the ready queue, as an interrupt
    /// handler or another task would. Stale ids are fine; a full queue is
    /// the fatal sizing error, so room is required.
    pub fn wake(&mut self, handle: &WakeHandle)
        requires
            old(self).wf(),
            old(self).ready_view().len() < old(self).ready_bound(),
        ensures
            final(self).wf(),
            final(self).tasks_view() == old(self).tasks_view(),
            final(self).cache_ids() == old(self).cache_ids(),
            final(self).ready_view() == old(self).ready_view().push(handle@),
            final(self).ready_bound() == old(self).ready_bound(),
    {
        handle.wake(&mut self.task_queue);
    }

    /// Lends out the ready queue, the one piece of executor state the
    /// interrupt side may touch: an event channel's producer pushes wakes
    /// into it while the executor is between drain cycles.
    pub fn ready_queue(&mut self) -> (q: &mut ReadyQueue)
        ensures
            (*q)@ == old(self).ready_view(),
            (*q).bound() == old(self).ready_bound(),
            old(self).wf() ==> (*q).wf(),
            final(self).tasks_view() == old(self).tasks_view(),
            final(self).cache_ids() == old(self).cache_ids(),
            final(self).ready_view() == final(q)@,
            final(self).ready_bound() == final(q).bound(),
            (old(self).wf() && final(q).wf()) ==> final(self).wf(),
    {
        &mut self.task_queue
    }

    /// How many live tasks the executor owns.
    pub fn task_count(&self) -> (r: usize)
        ensures
            r == self.tasks_view().dom().len(),
    {
        self.tasks.len()
    }

    /// Whether a task with this raw id is live.
    pub fn has_task(&self, id: u64) -> (r: bool)
        requires
            self.wf(),
        ensures
            r == self.tasks_view().dom().contains(id),
    {
        self.tasks.contains_key(&id)
    }

    /// How many wake handles are cached.
    pub fn waker_count(&self) -> (r: usize)
        ensures
            r == self.cache_ids().len(),
    {
        self.waker_cache.len()
    }

    /// How many ids sit in the ready queue.
    pub fn ready_len(&self) -> (r: usize)
        ensures
            r == self.ready_view().len(),
    {
        self.task_queue.len()
    }

    /// One drain cycle: pop ready ids in FIFO order until the queue is
    /// empty; skip ids whose task already finished; poll every other task
    /// with its cached (or freshly cached) wake handle, and retire the ones
    /// that report completion from the task map and the wake-handle cache.
    pub fn run_ready_tasks(&mut self, chan: &mut EventChannel)
        requires
            old(self).wf(),
            old(chan).wf(),
        ensures
            final(self).wf(),
            final(chan).wf(),
            final(self).ready_view() == Seq::<u64>::empty(),
            final(self).ready_bound() == old(self).ready_bound(),
            ({
                let out = drain_model(
                    old(self).tasks_view(),
                    old(self).cache_ids(),
                    old(self).ready_view(),
                    old(chan)@,
                );
                &&& final(self).tasks_view() == out.tasks
                &&& final(self).cache_ids() == out.cache
                &&& final(chan)@ == out.chan
            }),
    {
        let ghost g_tasks = self.tasks_view();
        let ghost g_cache = self.cache_ids();
        let ghost g_ready = self.ready_view();
        let ghost g_chan = chan@;
        loop
            invariant
                self.wf(),
                chan.wf(),
                self.ready_bound() == old(self).ready_bound(),
                drain_model(self.tasks_view(), self.cache_ids(), self.ready_view(), chan@)
                    == drain_model(g_tasks, g_cache, g_ready, g_chan),
            ensures
                self.ready_view().len() == 0,
            decreases self.ready_view().len(),
        {
            let ghost iter_tasks = self.tasks_view();
            let ghost iter_cache = self.cache_ids();
            let ghost iter_ready = self.ready_view();
            let ghost iter_chan = chan@;
            let popped = self.task_queue.pop();
            let id = match popped {
                Some(id) => id,
                None => { break ; },
            };
            let taken = self.tasks.remove(&id);
            match taken {
                None => {
                    // a stale id: the task finished since it was queued
                    proof {
                        assert(self.tasks_view() =~= iter_tasks);
                    }
                },
                Some(mut future) => {
                    let waker = WakeHandle::new(TaskId::from_raw(id));
                    if !self.waker_cache.contains_key(&id) {
                        self.waker_cache.insert(id, waker);
                    }
                    let status = future.poll(&waker, chan);
                    match status {
                        PollStatus::Done => {
                            self.waker_cache.remove(&id);
                            proof {
                                assert(self.tasks_view() =~= iter_tasks.remove(id));
                                assert(self.cache_ids() =~= iter_cache.remove(id));
                            }
                        },
                        PollStatus::Pending => {
                            self.tasks.insert(id, future);
                            proof {
                                assert(self.tasks_view() =~= iter_tasks.insert(
                                    id,
                                    iter_tasks[id].state_after(iter_chan),
                                ));
                                assert(self.cache_ids() =~= iter_cache.insert(id));
                            }
                        },
                    }
                },
            }
        }
    }

    /// The idle step: mask interrupts, re-check that the ready queue is
    /// still empty, and only then re-enable and halt in one uninterruptible
    /// step; otherwise just re-enable and carry on. The core halts exactly
    /// when the queue was observed empty inside the disabled window.
    pub fn sleep_if_idle(&self, cpu: &mut IdleControl)
        requires
            old(cpu).interrupts_enabled(),
            old(cpu).halt_count() < u64::MAX,
        ensures
            final(cpu).interrupts_enabled(),
            final(cpu).halt_count() == old(cpu).halt_count() + (if self.ready_view().len() == 0 {
                1int
            } else {
                0int
            }),
    {
        cpu.disable();
        if self.task_queue.is_empty() {
            cpu.enable_and_halt();
        } else {
            cpu.enable();
        }
    }

    /// One iteration of the scheduling loop the kernel runs forever: drain
    /// every ready task, then idle the core until the next interrupt.
    pub fn scheduler_step(&mut self, chan: &mut EventChannel, cpu: &mut IdleControl)
        requires
            old(self).wf(),
            old(chan).wf(),
            old(cpu).interrupts_enabled(),
            old(cpu).halt_count() < u64::MAX,
        ensures
            final(self).wf(),
            final(chan).wf(),
            final(self).ready_view() == Seq::<u64>::empty(),
            final(cpu).interrupts_enabled(),
            final(cpu).halt_count() == old(cpu).halt_count() + 1,
            ({
                let out = drain_model(
                    old(self).tasks_view(),
                    old(self).cache_ids(),
                    old(self).ready_view(),
                    old(chan)@,
                );
                &&& final(self).tasks_view() == out.tasks
                &&& final(self).cache_ids() == out.cache
                &&& final(chan)@ == out.chan
            }),
    {
        self.run_ready_tasks(chan);
        self.sleep_if_idle(cpu);
    }
}

} // verus!
