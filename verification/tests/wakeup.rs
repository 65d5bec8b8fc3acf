//! The wake signal and the lost-wakeup protocol, in every relative order of
//! delivery and registration.
use asm_os::keyboard::{add_scancode, DeliverOutcome, Polled, ScancodeStream};
use asm_os::queue::ReadyQueue;
use asm_os::task::{TaskID, TaskIdCounter};
use asm_os::wake::{WakeOutcome, WakeSignal, WakerWrapper};

fn waker_with_id(ids: &mut TaskIdCounter) -> WakerWrapper {
    WakerWrapper::new(TaskID::new(ids))
}

#[test]
fn register_then_deliver_wakes_and_event_is_observed() {
    let mut ids = TaskIdCounter::new();
    let mut stream = ScancodeStream::with_capacity(4);
    let mut ready = ReadyQueue::new(4);
    let waker = waker_with_id(&mut ids);

    // the consumer polls an empty stream: it registers and suspends
    assert_eq!(stream.poll_next(&waker), Polled::Pending);

    // a simulated interrupt delivers an event: the consumer is woken
    let outcome = add_scancode(&mut stream, &mut ready, 0x1E);
    assert_eq!(outcome, DeliverOutcome::Delivered(WakeOutcome::Woke(0)));
    assert_eq!(ready.pop(), Some(0));

    // the next poll observes exactly that event
    assert_eq!(stream.poll_next(&waker), Polled::Ready(0x1E));
}

#[test]
fn deliver_before_register_needs_no_wakeup() {
    let mut ids = TaskIdCounter::new();
    let mut stream = ScancodeStream::with_capacity(4);
    let mut ready = ReadyQueue::new(4);
    let waker = waker_with_id(&mut ids);

    // the event arrives before anyone registered: nobody to wake
    let outcome = add_scancode(&mut stream, &mut ready, 0x2A);
    assert_eq!(outcome, DeliverOutcome::Delivered(WakeOutcome::Idle));
    assert_eq!(ready.pop(), None);

    // the consumer's first check already finds it: no suspension
    assert_eq!(stream.poll_next(&waker), Polled::Ready(0x2A));
}

#[test]
fn wakeup_arrives_for_every_interleaving_of_two_events() {
    let mut ids = TaskIdCounter::new();
    let mut stream = ScancodeStream::with_capacity(4);
    let mut ready = ReadyQueue::new(4);
    let waker = waker_with_id(&mut ids);

    assert_eq!(stream.poll_next(&waker), Polled::Pending);
    // two deliveries in a row: the first wakes, the second finds the
    // registration already consumed and is a no-op beyond buffering
    assert_eq!(
        add_scancode(&mut stream, &mut ready, 1),
        DeliverOutcome::Delivered(WakeOutcome::Woke(0))
    );
    assert_eq!(
        add_scancode(&mut stream, &mut ready, 2),
        DeliverOutcome::Delivered(WakeOutcome::Idle)
    );
    assert_eq!(ready.len(), 1);
    // both events are observed, in order
    assert_eq!(stream.poll_next(&waker), Polled::Ready(1));
    assert_eq!(stream.poll_next(&waker), Polled::Ready(2));
    assert_eq!(stream.poll_next(&waker), Polled::Pending);
}

#[test]
fn delivery_into_full_queue_is_dropped_and_wakes_nobody() {
    let mut ids = TaskIdCounter::new();
    let mut stream = ScancodeStream::with_capacity(1);
    let mut ready = ReadyQueue::new(4);
    let waker = waker_with_id(&mut ids);

    assert_eq!(
        add_scancode(&mut stream, &mut ready, 1),
        DeliverOutcome::Delivered(WakeOutcome::Idle)
    );
    assert_eq!(add_scancode(&mut stream, &mut ready, 2), DeliverOutcome::Dropped);
    assert_eq!(stream.poll_next(&waker), Polled::Ready(1));
    assert_eq!(stream.poll_next(&waker), Polled::Pending);
}

#[test]
fn second_registration_replaces_the_first() {
    let mut ids = TaskIdCounter::new();
    let mut signal = WakeSignal::new();
    let mut ready = ReadyQueue::new(4);
    let first = waker_with_id(&mut ids);
    let second = waker_with_id(&mut ids);

    signal.register(first);
    signal.register(second);
    // only the second handle is invoked by the next notification
    assert_eq!(signal.wake(&mut ready), WakeOutcome::Woke(1));
    assert_eq!(ready.pop(), Some(1));
    assert_eq!(ready.pop(), None);
    // at most one delivery per registration: the slot is now empty
    assert_eq!(signal.wake(&mut ready), WakeOutcome::Idle);
}

#[test]
fn wake_into_full_ready_queue_is_fatal() {
    let mut ids = TaskIdCounter::new();
    let mut signal = WakeSignal::new();
    let mut ready = ReadyQueue::new(1);
    assert!(ready.push(7));
    let handle = waker_with_id(&mut ids);
    signal.register(handle);
    assert_eq!(signal.wake(&mut ready), WakeOutcome::ReadyQueueFull(0));
    // the queue itself is uncorrupted
    assert_eq!(ready.pop(), Some(7));
}

#[test]
fn wake_task_pushes_the_identifier() {
    let mut ids = TaskIdCounter::new();
    let mut ready = ReadyQueue::new(2);
    let _ = TaskID::new(&mut ids);
    let handle = waker_with_id(&mut ids);
    assert!(handle.wake_task(&mut ready));
    assert!(handle.wake_by_ref(&mut ready));
    assert!(!handle.wake(&mut ready));
    assert_eq!(ready.pop(), Some(1));
    assert_eq!(ready.pop(), Some(1));
    assert_eq!(ready.pop(), None);
}
