//! The bounded, non-blocking queues at the heart of the scheduler: the ready
//! queue of task ids and the raw byte queue inside an event channel. Both are
//! `crossbeam_queue::ArrayQueue`s; the handful of methods the scheduler calls
//! are taken on trust with contracts that state plain FIFO behaviour, and the
//! `ReadyQueue` wrapper below gives the rest of the crate a verified API.
//! Each trusted call takes the queue exclusively, so the concurrent queue
//! behaves as its sequential first-in first-out reading.

use vstd::prelude::*;

verus! {

#[verifier::external_type_specification]
#[verifier::external_body]
#[verifier::reject_recursive_types(T)]
pub struct ExArrayQueue<T>(crossbeam_queue::ArrayQueue<T>);

/// The task ids held by a ready queue, front first.
pub uninterp spec fn id_queue_ids(q: crossbeam_queue::ArrayQueue<u64>) -> Seq<u64>;

/// The capacity a ready queue was created with.
pub uninterp spec fn id_queue_bound(q: crossbeam_queue::ArrayQueue<u64>) -> nat;

/// The bytes held by an event queue, front first.
pub uninterp spec fn byte_queue_bytes(q: crossbeam_queue::ArrayQueue<u8>) -> Seq<u8>;

/// The capacity an event queue was created with.
pub uninterp spec fn byte_queue_bound(q: crossbeam_queue::ArrayQueue<u8>) -> nat;

/// Relies on crossbeam_queue::ArrayQueue::new: a fresh, empty queue with the
/// given capacity. The call panics on a zero capacity, so that is required
/// away here.
#[verifier::external_body]
fn id_queue_new(cap: usize) -> (q: crossbeam_queue::ArrayQueue<u64>)
    requires
        1 <= cap <= 0x1000_0000,
    ensures
        id_queue_ids(q) == Seq::<u64>::empty(),
        id_queue_bound(q) == cap as nat,
{
    crossbeam_queue::ArrayQueue::new(cap)
}

/// Relies on crossbeam_queue::ArrayQueue::push: appends at the back when the
/// queue is below capacity, and returns the value in `Err` when it is full.
#[verifier::external_body]
fn id_queue_push(q: &mut crossbeam_queue::ArrayQueue<u64>, v: u64) -> (r: Result<(), u64>)
    ensures
        id_queue_bound(*final(q)) == id_queue_bound(*old(q)),
        if id_queue_ids(*old(q)).len() < id_queue_bound(*old(q)) {
            r is Ok && id_queue_ids(*final(q)) == id_queue_ids(*old(q)).push(v)
        } else {
            r == Result::<(), u64>::Err(v) && id_queue_ids(*final(q)) == id_queue_ids(*old(q))
        },
{
    q.push(v)
}

/// Relies on crossbeam_queue::ArrayQueue::pop: removes and returns the front
/// element, or returns `None` on an empty queue.
#[verifier::external_body]
fn id_queue_pop(q: &mut crossbeam_queue::ArrayQueue<u64>) -> (r: Option<u64>)
    ensures
        id_queue_bound(*final(q)) == id_queue_bound(*old(q)),
        if id_queue_ids(*old(q)).len() > 0 {
            r == Some(id_queue_ids(*old(q))[0]) && id_queue_ids(*final(q)) == id_queue_ids(
                *old(q),
            ).drop_first()
        } else {
            r is None && id_queue_ids(*final(q)) == id_queue_ids(*old(q))
        },
{
    q.pop()
}

/// Relies on crossbeam_queue::ArrayQueue::is_empty.
#[verifier::external_body]
fn id_queue_is_empty(q: &crossbeam_queue::ArrayQueue<u64>) -> (r: bool)
    ensures
        r == (id_queue_ids(*q).len() == 0),
{
    q.is_empty()
}

/// Relies on crossbeam_queue::ArrayQueue::len.
#[verifier::external_body]
fn id_queue_len(q: &crossbeam_queue::ArrayQueue<u64>) -> (r: usize)
    ensures
        r == id_queue_ids(*q).len(),
{
    q.len()
}

/// Relies on crossbeam_queue::ArrayQueue::capacity.
#[verifier::external_body]
fn id_queue_capacity(q: &crossbeam_queue::ArrayQueue<u64>) -> (r: usize)
    ensures
        r == id_queue_bound(*q),
{
    q.capacity()
}

/// Relies on crossbeam_queue::ArrayQueue::new, as `id_queue_new` does.
#[verifier::external_body]
pub(crate) fn byte_queue_new(cap: usize) -> (q: crossbeam_queue::ArrayQueue<u8>)
    requires
        1 <= cap <= 0x1000_0000,
    ensures
        byte_queue_bytes(q) == Seq::<u8>::empty(),
        byte_queue_bound(q) == cap as nat,
{
    crossbeam_queue::ArrayQueue::new(cap)
}

/// Relies on crossbeam_queue::ArrayQueue::push, as `id_queue_push` does.
#[verifier::external_body]
pub(crate) fn byte_queue_push(q: &mut crossbeam_queue::ArrayQueue<u8>, v: u8) -> (r: Result<
    (),
    u8,
>)
    ensures
        byte_queue_bound(*final(q)) == byte_queue_bound(*old(q)),
        if byte_queue_bytes(*old(q)).len() < byte_queue_bound(*old(q)) {
            r is Ok && byte_queue_bytes(*final(q)) == byte_queue_bytes(*old(q)).push(v)
        } else {
            r == Result::<(), u8>::Err(v) && byte_queue_bytes(*final(q)) == byte_queue_bytes(
                *old(q),
            )
        },
{
    q.push(v)
}

/// Relies on crossbeam_queue::ArrayQueue::pop, as `id_queue_pop` does.
#[verifier::external_body]
pub(crate) fn byte_queue_pop(q: &mut crossbeam_queue::ArrayQueue<u8>) -> (r: Option<u8>)
    ensures
        byte_queue_bound(*final(q)) == byte_queue_bound(*old(q)),
        if byte_queue_bytes(*old(q)).len() > 0 {
            r == Some(byte_queue_bytes(*old(q))[0]) && byte_queue_bytes(*final(q))
                == byte_queue_bytes(*old(q)).drop_first()
        } else {
            r is None && byte_queue_bytes(*final(q)) == byte_queue_bytes(*old(q))
        },
{
    q.pop()
}

/// Relies on crossbeam_queue::ArrayQueue::len.
#[verifier::external_body]
pub(crate) fn byte_queue_len(q: &crossbeam_queue::ArrayQueue<u8>) -> (r: usize)
    ensures
        r == byte_queue_bytes(*q).len(),
{
    q.len()
}

/// The executor's ready queue: a bounded FIFO of raw task ids, safe to push
/// into from interrupt context. A task id may sit in the queue after its
/// task has finished; consumers must skip such ids.
pub struct ReadyQueue {
    queue: crossbeam_queue::ArrayQueue<u64>,
}

impl View for ReadyQueue {
    type V = Seq<u64>;

    closed spec fn view(&self) -> Seq<u64> {
        id_queue_ids(self.queue)
    }
}

impl ReadyQueue {
    /// The fixed capacity this queue was created with.
    pub closed spec fn bound(&self) -> nat {
        id_queue_bound(self.queue)
    }

    /// The queue never holds more ids than its capacity.
    pub closed spec fn wf(&self) -> bool {
        self@.len() <= self.bound() && 1 <= self.bound()
    }

    /// An empty ready queue with the given capacity.
    pub fn new(capacity: usize) -> (q: ReadyQueue)
        requires
            1 <= capacity <= 0x1000_0000,
        ensures
            q.wf(),
            q@ == Seq::<u64>::empty(),
            q.bound() == capacity as nat,
    {
        ReadyQueue { queue: id_queue_new(capacity) }
    }

    /// Appends a task id at the back. Waking a task with a full ready queue
    /// is fatal in the kernel, so a caller must show there is room.
    pub fn push(&mut self, id: u64)
        requires
            old(self).wf(),
            old(self)@.len() < old(self).bound(),
        ensures
            final(self).wf(),
            final(self)@ == old(self)@.push(id),
            final(self).bound() == old(self).bound(),
    {
        let r = id_queue_push(&mut self.queue, id);
        match r {
            Ok(()) => (),
            Err(_) => {
                // unreachable: the precondition leaves room in the queue
                proof {
                    assert(false);
                }
            },
        }
    }

    /// Removes and returns the front id, or `None` when the queue is empty.
    pub fn pop(&mut self) -> (r: Option<u64>)
        requires
            old(self).wf(),
        ensures
            final(self).wf(),
            final(self).bound() == old(self).bound(),
            match r {
                Some(id) => old(self)@.len() > 0 && id == old(self)@[0] && final(self)@ == old(
                    self,
                )@.drop_first(),
                None => old(self)@.len() == 0 && final(self)@ == old(self)@,
            },
    {
        id_queue_pop(&mut self.queue)
    }

    /// Whether the queue currently holds no ids.
    pub fn is_empty(&self) -> (r: bool)
        ensures
            r == (self@.len() == 0),
    {
        id_queue_is_empty(&self.queue)
    }

    /// How many ids the queue currently holds.
    pub fn len(&self) -> (r: usize)
        ensures
            r == self@.len(),
    {
        id_queue_len(&self.queue)
    }

    /// The fixed capacity, as a plain integer.
    pub fn capacity(&self) -> (r: usize)
        ensures
            r == self.bound(),
    {
        id_queue_capacity(&self.queue)
    }
}

} // verus!
