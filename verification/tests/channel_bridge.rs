//! The bounded event channel: FIFO order, overflow accounting, the
//! check / register / re-check race protocol, and the scancode bridge.

use flario::channel::{BytePoll, EventChannel, PushOutcome};
use flario::keyboard::{add_scancode, ScancodeDelivery, ScancodeQueue, ScancodeStream};
use flario::queue::ReadyQueue;
use flario::task::{TaskId, TaskIdGen, WakeHandle};

fn handle_for(raw_seed: u64) -> WakeHandle {
    let mut gen = TaskIdGen::new();
    let mut id = TaskId::new(&mut gen);
    for _ in 0..raw_seed {
        id = TaskId::new(&mut gen);
    }
    WakeHandle::new(id)
}

#[test]
fn fifo_round_trip() {
    let mut chan = EventChannel::new(8);
    let mut ready = ReadyQueue::new(8);
    let cx = handle_for(0);
    for v in [10u8, 20, 30, 40, 50] {
        assert_eq!(chan.try_push(v, &mut ready), PushOutcome::Delivered);
    }
    let mut seen: Vec<u8> = Vec::new();
    for _ in 0..5 {
        match chan.poll_byte(&cx) {
            BytePoll::Ready(b) => seen.push(b),
            BytePoll::Pending => panic!("value missing"),
        }
    }
    assert_eq!(seen, vec![10, 20, 30, 40, 50]);
    assert_eq!(chan.dropped_count(), 0);
}

#[test]
fn overflow_drops_and_counts() {
    let mut chan = EventChannel::new(3);
    let mut ready = ReadyQueue::new(8);
    let cx = handle_for(0);
    for v in [1u8, 2, 3] {
        assert_eq!(chan.try_push(v, &mut ready), PushOutcome::Delivered);
    }
    // capacity + 2 pushes: the last two are dropped, visibly
    assert_eq!(chan.try_push(4, &mut ready), PushOutcome::Dropped);
    assert_eq!(chan.try_push(5, &mut ready), PushOutcome::Dropped);
    assert_eq!(chan.dropped_count(), 2);
    assert_eq!(chan.len(), 3);
    for expected in [1u8, 2, 3] {
        match chan.poll_byte(&cx) {
            BytePoll::Ready(b) => assert_eq!(b, expected),
            BytePoll::Pending => panic!("value missing"),
        }
    }
    assert!(matches!(chan.poll_byte(&cx), BytePoll::Pending));
}

#[test]
fn wake_race_recheck_finds_the_value() {
    // interleaving A: the consumer observes an empty queue, and is about to
    // register its handle
    let mut chan = EventChannel::new(1);
    let mut ready = ReadyQueue::new(8);
    let cx = handle_for(7);
    assert_eq!(chan.try_recv(), None);

    // interleaving B: the producer pushes and would invoke any cached
    // handle; none is cached yet, so no wake happens
    assert_eq!(chan.try_push(0x42, &mut ready), PushOutcome::Delivered);
    assert_eq!(ready.len(), 0);

    // A resumes: register, then the mandatory re-check, which must find the
    // value on this same poll, with no second external wake
    chan.register(&cx);
    assert_eq!(chan.recheck(), Some(0x42));
    assert!(!chan.has_waiter());
}

#[test]
fn empty_poll_registers_the_caller() {
    let mut chan = EventChannel::new(4);
    let mut ready = ReadyQueue::new(8);
    let cx = handle_for(3);
    assert!(matches!(chan.poll_byte(&cx), BytePoll::Pending));
    assert!(chan.has_waiter());

    // the next push hands the cached wake to the ready queue
    assert_eq!(chan.try_push(9, &mut ready), PushOutcome::Delivered);
    assert_eq!(ready.len(), 1);
    assert_eq!(ready.pop(), Some(3));
    assert!(!chan.has_waiter());
}

#[test]
fn fast_path_leaves_registration_alone() {
    let mut chan = EventChannel::new(4);
    let mut ready = ReadyQueue::new(8);
    let consumer = handle_for(1);
    // a waiter is registered, then a value arrives and wakes it
    assert!(matches!(chan.poll_byte(&consumer), BytePoll::Pending));
    chan.try_push(7, &mut ready);
    // the woken consumer takes the value on the fast path
    match chan.poll_byte(&consumer) {
        BytePoll::Ready(b) => assert_eq!(b, 7),
        BytePoll::Pending => panic!("value missing"),
    }
}

#[test]
fn ready_queue_is_fifo() {
    let mut q = ReadyQueue::new(4);
    q.push(11);
    q.push(22);
    q.push(33);
    assert_eq!(q.len(), 3);
    assert_eq!(q.pop(), Some(11));
    assert_eq!(q.pop(), Some(22));
    assert_eq!(q.pop(), Some(33));
    assert_eq!(q.pop(), None);
    assert!(q.is_empty());
    assert_eq!(q.capacity(), 4);
}

#[test]
fn scancode_overflow_is_counted() {
    let mut cell = ScancodeQueue::new();
    let _stream = ScancodeStream::new(&mut cell);
    let mut ready = ReadyQueue::new(8);
    for i in 0..100u32 {
        assert_eq!(add_scancode(&mut cell, &mut ready, i as u8), ScancodeDelivery::Delivered);
    }
    assert_eq!(add_scancode(&mut cell, &mut ready, 0xff), ScancodeDelivery::Dropped);
    assert_eq!(add_scancode(&mut cell, &mut ready, 0xfe), ScancodeDelivery::Dropped);
    assert_eq!(cell.dropped_count(), 2);
}

#[test]
fn scancode_queue_initializes_once_and_delivers() {
    let mut cell = ScancodeQueue::new();
    let mut ready = ReadyQueue::new(8);

    // before initialization the handler reports and discards
    assert_eq!(add_scancode(&mut cell, &mut ready, 0x1e), ScancodeDelivery::Uninitialized);

    let mut stream = ScancodeStream::new(&mut cell);
    assert_eq!(add_scancode(&mut cell, &mut ready, 0x1e), ScancodeDelivery::Delivered);
    let cx = handle_for(0);
    match stream.poll_next(&mut cell, &cx) {
        BytePoll::Ready(b) => assert_eq!(b, 0x1e),
        BytePoll::Pending => panic!("scancode missing"),
    }
    assert!(matches!(stream.poll_next(&mut cell, &cx), BytePoll::Pending));
    assert_eq!(cell.dropped_count(), 0);
}
