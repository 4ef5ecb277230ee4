//! The executor's scheduling behaviour: id generation, spawn, drain cycles,
//! stale wakes and the idle-halt protocol, all on a hosted harness.

use flario::channel::EventChannel;
use flario::executor::{Executor, IdleControl, READY_QUEUE_CAPACITY};
use flario::task::{Task, TaskId, TaskIdGen, WakeHandle, Workload};

#[test]
fn task_ids_strictly_increase() {
    let mut gen = TaskIdGen::new();
    let mut last: Option<u64> = None;
    for _ in 0..16 {
        let id = TaskId::new(&mut gen);
        if let Some(prev) = last {
            assert!(prev < id.raw());
        }
        last = Some(id.raw());
    }
}

#[test]
fn task_ids_are_pairwise_distinct() {
    let mut gen = TaskIdGen::new();
    let mut seen: Vec<u64> = Vec::new();
    for _ in 0..8 {
        let id = TaskId::new(&mut gen).raw();
        assert!(!seen.contains(&id));
        seen.push(id);
    }
}

#[test]
fn spawn_makes_a_task_ready() {
    let mut gen = TaskIdGen::new();
    let mut exe: Executor<Workload> = Executor::new();
    let task = Task::new(Workload::Immediate, &mut gen);
    let id = task.id().raw();
    exe.spawn(task);
    assert_eq!(exe.task_count(), 1);
    assert!(exe.has_task(id));
    assert_eq!(exe.ready_len(), 1);
}

#[test]
fn immediate_task_retires_in_one_cycle() {
    let mut gen = TaskIdGen::new();
    let mut exe: Executor<Workload> = Executor::new();
    let mut chan = EventChannel::new(8);
    exe.spawn(Task::new(Workload::Immediate, &mut gen));
    exe.run_ready_tasks(&mut chan);
    assert_eq!(exe.task_count(), 0);
    assert_eq!(exe.waker_count(), 0);
    assert_eq!(exe.ready_len(), 0);
}

#[test]
fn stale_id_is_skipped_silently() {
    let mut gen = TaskIdGen::new();
    let mut exe: Executor<Workload> = Executor::new();
    let mut chan = EventChannel::new(8);
    let task = Task::new(Workload::Immediate, &mut gen);
    let handle = WakeHandle::new(task.id());
    exe.spawn(task);
    exe.run_ready_tasks(&mut chan);
    assert_eq!(exe.task_count(), 0);

    // the task is gone; a late wake must be absorbed without any effect
    exe.wake(&handle);
    assert_eq!(exe.ready_len(), 1);
    exe.run_ready_tasks(&mut chan);
    assert_eq!(exe.task_count(), 0);
    assert_eq!(exe.waker_count(), 0);
    assert_eq!(exe.ready_len(), 0);
}

#[test]
fn pending_task_stays_until_woken() {
    let mut gen = TaskIdGen::new();
    let mut exe: Executor<Workload> = Executor::new();
    let mut chan = EventChannel::new(8);
    let task = Task::new(Workload::AwaitByte { received: None }, &mut gen);
    let id = task.id().raw();
    exe.spawn(task);
    exe.run_ready_tasks(&mut chan);

    // nothing arrived: the task stays, with its wake handle cached both in
    // the executor and in the channel's resumption slot
    assert!(exe.has_task(id));
    assert_eq!(exe.waker_count(), 1);
    assert!(chan.has_waiter());
    assert_eq!(exe.ready_len(), 0);

    // a second cycle without a wake must not touch it
    exe.run_ready_tasks(&mut chan);
    assert!(exe.has_task(id));
}

#[test]
fn liveness_wake_drives_consumer_to_completion() {
    let mut gen = TaskIdGen::new();
    let mut exe: Executor<Workload> = Executor::new();
    let mut chan = EventChannel::new(8);
    let task = Task::new(Workload::AwaitByte { received: None }, &mut gen);
    let id = task.id().raw();
    exe.spawn(task);
    exe.run_ready_tasks(&mut chan);
    assert!(exe.has_task(id));

    // the interrupt side pushes a byte; the cached handle re-queues the task
    chan.try_push(0x42, exe.ready_queue());
    assert_eq!(exe.ready_len(), 1);
    exe.run_ready_tasks(&mut chan);
    assert!(!exe.has_task(id));
    assert_eq!(exe.waker_count(), 0);
}

#[test]
fn end_to_end_two_tasks() {
    let mut gen = TaskIdGen::new();
    let mut exe: Executor<Workload> = Executor::new();
    let mut chan = EventChannel::new(8);

    // task A completes on its very first poll; task B awaits one byte
    let a = Task::new(Workload::Immediate, &mut gen);
    let b = Task::new(Workload::AwaitByte { received: None }, &mut gen);
    let a_id = a.id().raw();
    let b_id = b.id().raw();
    exe.spawn(a);
    exe.spawn(b);

    exe.run_ready_tasks(&mut chan);
    assert!(!exe.has_task(a_id));
    assert!(exe.has_task(b_id));

    chan.try_push(0x42, exe.ready_queue());
    exe.run_ready_tasks(&mut chan);
    assert!(!exe.has_task(b_id));
    assert_eq!(exe.task_count(), 0);
    assert_eq!(exe.waker_count(), 0);
}

// The hosted harness has no halt instruction: `IdleControl` counts halts
// instead of stopping a core, and its contracts keep the disable / check /
// enable-and-halt order of the real idle path.
#[test]
fn idle_halts_only_on_a_verified_empty_queue() {
    let mut gen = TaskIdGen::new();
    let mut exe: Executor<Workload> = Executor::new();
    let mut cpu = IdleControl::new();

    // empty queue: the idle step must disable, observe emptiness, and halt
    exe.sleep_if_idle(&mut cpu);
    assert_eq!(cpu.halts(), 1);
    assert!(cpu.is_enabled());

    // with work ready the idle step must not halt
    exe.spawn(Task::new(Workload::Immediate, &mut gen));
    exe.sleep_if_idle(&mut cpu);
    assert_eq!(cpu.halts(), 1);
    assert!(cpu.is_enabled());
}

#[test]
fn scheduler_step_drains_then_halts() {
    let mut gen = TaskIdGen::new();
    let mut exe: Executor<Workload> = Executor::new();
    let mut chan = EventChannel::new(8);
    let mut cpu = IdleControl::new();
    exe.spawn(Task::new(Workload::Immediate, &mut gen));
    exe.scheduler_step(&mut chan, &mut cpu);
    assert_eq!(exe.task_count(), 0);
    assert_eq!(exe.ready_len(), 0);
    assert_eq!(cpu.halts(), 1);
}

#[test]
fn ready_queue_capacity_is_generous() {
    let exe: Executor<Workload> = Executor::new();
    let _ = exe;
    assert_eq!(READY_QUEUE_CAPACITY, 100);
}
