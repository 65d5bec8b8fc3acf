//! The bounded event queue: order and overflow behaviour.
use asm_os::queue::{EventQueue, ReadyQueue};

#[test]
fn fifo_order_is_kept() {
    let mut queue = EventQueue::new(8);
    for byte in [0x1E, 0x30, 0x2E, 0x20] {
        assert!(queue.push(byte));
    }
    assert_eq!(queue.len(), 4);
    assert_eq!(queue.pop(), Some(0x1E));
    assert_eq!(queue.pop(), Some(0x30));
    assert_eq!(queue.pop(), Some(0x2E));
    assert_eq!(queue.pop(), Some(0x20));
    assert_eq!(queue.pop(), None);
}

#[test]
fn overflow_drops_and_keeps_retained_events() {
    let mut queue = EventQueue::new(4);
    assert!(queue.push(1));
    assert!(queue.push(2));
    assert!(queue.push(3));
    assert!(queue.push(4));
    // the queue is full: further pushes never block and are dropped
    assert!(!queue.push(5));
    assert!(!queue.push(6));
    assert_eq!(queue.len(), 4);
    // the retained events come out uncorrupted, in order
    assert_eq!(queue.pop(), Some(1));
    assert_eq!(queue.pop(), Some(2));
    assert_eq!(queue.pop(), Some(3));
    assert_eq!(queue.pop(), Some(4));
    assert_eq!(queue.pop(), None);
    // room opens up again afterwards
    assert!(queue.push(7));
    assert_eq!(queue.pop(), Some(7));
}

#[test]
fn capacity_is_fixed_at_creation() {
    let queue = EventQueue::new(128);
    assert_eq!(queue.capacity(), 128);
    assert!(queue.is_empty());
}

#[test]
fn ready_queue_is_fifo_and_bounded() {
    let mut ready = ReadyQueue::new(2);
    assert!(ready.push(11));
    assert!(ready.push(22));
    assert!(!ready.push(33));
    assert_eq!(ready.len(), 2);
    assert_eq!(ready.pop(), Some(11));
    assert_eq!(ready.pop(), Some(22));
    assert_eq!(ready.pop(), None);
    assert!(ready.is_empty());
    assert_eq!(ready.capacity(), 2);
}
