//! The executor's run loop, spawn discipline and completion bookkeeping.
use asm_os::executor::{Executor, ExecutorError, TaskRunOutcome};
use asm_os::keyboard::{add_scancode, DeliverOutcome, EchoTask, ScancodeStream};
use asm_os::task::{Task, TaskIdCounter};
use asm_os::wake::WakeOutcome;

fn one_stream_world(capacity: usize) -> Vec<ScancodeStream> {
    vec![ScancodeStream::with_capacity(capacity)]
}

#[test]
fn task_suspends_then_observes_event_and_completes() {
    let mut ids = TaskIdCounter::new();
    let mut executor: Executor<EchoTask> = Executor::new();
    let mut world = one_stream_world(8);

    // one task that waits for its single expected event
    let task = Task::new(EchoTask::with_budget(0, 1), &mut ids);
    let task_id = task.id().as_u64();
    executor.spawn(task).unwrap();
    assert!(executor.has_task(task_id));

    // first round: the stream is dry, the task suspends with a cached waker
    executor.run_ready_tasks(&mut world);
    assert!(executor.idle());
    assert!(executor.has_task(task_id));
    assert!(executor.has_cached_waker(task_id));

    // a simulated interrupt pushes 0x1E and notifies
    let outcome = add_scancode(&mut world[0], &mut executor.task_queue, 0x1E);
    assert_eq!(outcome, DeliverOutcome::Delivered(WakeOutcome::Woke(task_id)));
    assert!(!executor.idle());

    // second round: the task resumes, observes 0x1E, and completes
    executor.run_ready_tasks(&mut world);
    assert!(executor.idle());
    assert!(!executor.has_task(task_id));
    assert!(!executor.has_cached_waker(task_id));
    assert_eq!(executor.task_count(), 0);
}

#[test]
fn completed_task_is_not_resurrected_by_duplicate_wakes() {
    let mut ids = TaskIdCounter::new();
    let mut executor: Executor<EchoTask> = Executor::new();
    let mut world = one_stream_world(8);

    // a task that completes without suspending
    let task = Task::new(EchoTask::with_budget(0, 0), &mut ids);
    let task_id = task.id().as_u64();
    executor.spawn(task).unwrap();
    executor.run_ready_tasks(&mut world);
    assert!(!executor.has_task(task_id));
    assert!(!executor.has_cached_waker(task_id));

    // duplicate wakes aimed at the completed task are silently skipped
    assert!(executor.task_queue.push(task_id));
    assert!(executor.task_queue.push(task_id));
    let outcome = executor.run_task(&mut world, task_id);
    assert_eq!(outcome, TaskRunOutcome::Skipped);
    executor.run_ready_tasks(&mut world);
    assert!(executor.idle());
    assert!(!executor.has_task(task_id));
    assert!(!executor.has_cached_waker(task_id));
}

#[test]
fn three_tasks_only_observe_their_own_sources() {
    let mut ids = TaskIdCounter::new();
    let mut executor: Executor<EchoTask> = Executor::new();
    let mut world = vec![
        ScancodeStream::with_capacity(8),
        ScancodeStream::with_capacity(8),
        ScancodeStream::with_capacity(8),
    ];

    // three unbounded tasks, one per source
    let mut task_ids = Vec::new();
    for source in 0..3 {
        let task = Task::new(EchoTask::new(source), &mut ids);
        task_ids.push(task.id().as_u64());
        executor.spawn(task).unwrap();
    }
    executor.run_ready_tasks(&mut world);
    assert!(executor.idle());

    // interleave events across the three sources
    let deliveries = [(0, 10u8), (1, 20), (0, 11), (2, 30), (1, 21), (0, 12), (2, 31)];
    for (source, byte) in deliveries {
        let _ = add_scancode(&mut world[source], &mut executor.task_queue, byte);
    }
    executor.run_ready_tasks(&mut world);

    // each task only ever observed events from its own source
    let expected: [Vec<u8>; 3] = [vec![10, 11, 12], vec![20, 21], vec![30, 31]];
    for source in 0..3 {
        let task = executor.get_task(task_ids[source]).unwrap();
        assert_eq!(task.computation().observed(), &expected[source]);
    }
}

#[test]
fn spawn_beyond_ready_queue_capacity_is_fatal() {
    let mut ids = TaskIdCounter::new();
    let capacity = 4;
    let mut executor: Executor<EchoTask> = Executor::with_queue_capacity(capacity);
    let mut world = one_stream_world(8);

    // capacity C: C tasks that never suspend spawn fine
    for _ in 0..capacity {
        let task = Task::new(EchoTask::with_budget(0, 0), &mut ids);
        assert_eq!(executor.spawn(task), Ok(()));
    }
    // the (C+1)-th spawn is refused as fatal, not silently dropped
    let extra = Task::new(EchoTask::with_budget(0, 0), &mut ids);
    let extra_id = extra.id().as_u64();
    assert_eq!(executor.spawn(extra), Err(ExecutorError::ReadyQueueFull(extra_id)));

    // the refused task never entered the bookkeeping
    assert!(!executor.has_task(extra_id));
    executor.run_ready_tasks(&mut world);
    assert_eq!(executor.task_count(), 0);
}

#[test]
fn unbounded_task_stays_suspended_between_events() {
    let mut ids = TaskIdCounter::new();
    let mut executor: Executor<EchoTask> = Executor::new();
    let mut world = one_stream_world(8);
    let task = Task::new(EchoTask::new(0), &mut ids);
    let task_id = task.id().as_u64();
    executor.spawn(task).unwrap();

    for round in 0..3 {
        executor.run_ready_tasks(&mut world);
        assert!(executor.idle());
        assert!(executor.has_task(task_id));
        let outcome = add_scancode(&mut world[0], &mut executor.task_queue, round as u8);
        assert_eq!(outcome, DeliverOutcome::Delivered(WakeOutcome::Woke(task_id)));
    }
    executor.run_ready_tasks(&mut world);
    assert!(executor.has_task(task_id));
}

#[test]
fn task_identifiers_increase_and_are_never_reused() {
    let mut ids = TaskIdCounter::new();
    let first = Task::new(EchoTask::new(0), &mut ids);
    let second = Task::new(EchoTask::new(0), &mut ids);
    let third = Task::new(EchoTask::new(1), &mut ids);
    assert_eq!(first.id().as_u64(), 0);
    assert_eq!(second.id().as_u64(), 1);
    assert_eq!(third.id().as_u64(), 2);
}
