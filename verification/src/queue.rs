//! Bounded, overwrite-free queues used by the scheduler: the event queue of
//! raw event bytes filled from interrupt context, and the ready queue of task
//! identifiers.  Both are backed by `crossbeam_queue::ArrayQueue`, a bounded
//! FIFO queue; its contents are modelled as a sequence, oldest element first.
use vstd::prelude::*;

use crossbeam_queue::ArrayQueue;

verus! {

#[verifier::external_type_specification]
#[verifier::external_body]
#[verifier::reject_recursive_types(T)]
pub struct ExArrayQueue<T>(ArrayQueue<T>);

/// The event bytes a queue holds, oldest first.
pub uninterp spec fn byte_queue_contents(q: &ArrayQueue<u8>) -> Seq<u8>;

/// The capacity an event byte queue was created with.
pub uninterp spec fn byte_queue_bound(q: &ArrayQueue<u8>) -> nat;

/// The task identifiers a queue holds, oldest first.
pub uninterp spec fn id_queue_contents(q: &ArrayQueue<u64>) -> Seq<u64>;

/// The capacity a task identifier queue was created with.
pub uninterp spec fn id_queue_bound(q: &ArrayQueue<u64>) -> nat;

/// Relies on `crossbeam_queue::ArrayQueue::new`: a queue with the given
/// capacity, holding nothing.  `new` panics on a zero capacity and on
/// capacities near the index domain's top; the ceiling required here is this
/// library's own, comfortably inside what the outside queue accepts.
#[verifier::external_body]
fn byte_queue_new(capacity: usize) -> (q: ArrayQueue<u8>)
    requires
        1 <= capacity <= 0x10000,
    ensures
        byte_queue_contents(&q) == Seq::<u8>::empty(),
        byte_queue_bound(&q) == capacity as nat,
{
    ArrayQueue::new(capacity)
}

/// Relies on `crossbeam_queue::ArrayQueue::push`: appends at the tail and
/// returns `Ok`, unless the queue is full, in which case the value is handed
/// back and the queue is untouched.
#[verifier::external_body]
fn byte_queue_push(q: &mut ArrayQueue<u8>, value: u8) -> (accepted: bool)
    ensures
        byte_queue_bound(final(q)) == byte_queue_bound(old(q)),
        accepted == (byte_queue_contents(old(q)).len() < byte_queue_bound(old(q))),
        accepted ==> byte_queue_contents(final(q)) == byte_queue_contents(old(q)).push(value),
        !accepted ==> byte_queue_contents(final(q)) == byte_queue_contents(old(q)),
{
    q.push(value).is_ok()
}

/// Relies on `crossbeam_queue::ArrayQueue::pop`: removes and returns the
/// oldest element, or `None` when the queue is empty.
#[verifier::external_body]
fn byte_queue_pop(q: &mut ArrayQueue<u8>) -> (popped: Option<u8>)
    ensures
        byte_queue_bound(final(q)) == byte_queue_bound(old(q)),
        match popped {
            Some(value) => byte_queue_contents(old(q)).len() > 0
                && value == byte_queue_contents(old(q)).first()
                && byte_queue_contents(final(q)) == byte_queue_contents(old(q)).drop_first(),
            None => byte_queue_contents(old(q)).len() == 0
                && byte_queue_contents(final(q)) == byte_queue_contents(old(q)),
        },
{
    q.pop()
}

/// Relies on `crossbeam_queue::ArrayQueue::len`: the number of elements held.
#[verifier::external_body]
fn byte_queue_len(q: &ArrayQueue<u8>) -> (n: usize)
    ensures
        n == byte_queue_contents(q).len(),
{
    q.len()
}

/// Relies on `crossbeam_queue::ArrayQueue::capacity`: the capacity the queue
/// was created with.
#[verifier::external_body]
fn byte_queue_capacity(q: &ArrayQueue<u8>) -> (n: usize)
    ensures
        n == byte_queue_bound(q),
{
    q.capacity()
}

/// Relies on `crossbeam_queue::ArrayQueue::new`: a queue with the given
/// capacity, holding nothing.  `new` panics on a zero capacity and on
/// capacities near the index domain's top; the ceiling required here is this
/// library's own, comfortably inside what the outside queue accepts.
#[verifier::external_body]
fn id_queue_new(capacity: usize) -> (q: ArrayQueue<u64>)
    requires
        1 <= capacity <= 0x10000,
    ensures
        id_queue_contents(&q) == Seq::<u64>::empty(),
        id_queue_bound(&q) == capacity as nat,
{
    ArrayQueue::new(capacity)
}

/// Relies on `crossbeam_queue::ArrayQueue::push`: appends at the tail and
/// returns `Ok`, unless the queue is full, in which case the value is handed
/// back and the queue is untouched.
#[verifier::external_body]
fn id_queue_push(q: &mut ArrayQueue<u64>, value: u64) -> (accepted: bool)
    ensures
        id_queue_bound(final(q)) == id_queue_bound(old(q)),
        accepted == (id_queue_contents(old(q)).len() < id_queue_bound(old(q))),
        accepted ==> id_queue_contents(final(q)) == id_queue_contents(old(q)).push(value),
        !accepted ==> id_queue_contents(final(q)) == id_queue_contents(old(q)),
{
    q.push(value).is_ok()
}

/// Relies on `crossbeam_queue::ArrayQueue::pop`: removes and returns the
/// oldest element, or `None` when the queue is empty.
#[verifier::external_body]
fn id_queue_pop(q: &mut ArrayQueue<u64>) -> (popped: Option<u64>)
    ensures
        id_queue_bound(final(q)) == id_queue_bound(old(q)),
        match popped {
            Some(value) => id_queue_contents(old(q)).len() > 0
                && value == id_queue_contents(old(q)).first()
                && id_queue_contents(final(q)) == id_queue_contents(old(q)).drop_first(),
            None => id_queue_contents(old(q)).len() == 0
                && id_queue_contents(final(q)) == id_queue_contents(old(q)),
        },
{
    q.pop()
}

/// Relies on `crossbeam_queue::ArrayQueue::len`: the number of elements held.
#[verifier::external_body]
fn id_queue_len(q: &ArrayQueue<u64>) -> (n: usize)
    ensures
        n == id_queue_contents(q).len(),
{
    q.len()
}

/// Relies on `crossbeam_queue::ArrayQueue::capacity`: the capacity the queue
/// was created with.
#[verifier::external_body]
fn id_queue_capacity(q: &ArrayQueue<u64>) -> (n: usize)
    ensures
        n == id_queue_bound(q),
{
    q.capacity()
}

/// The bounded event queue: raw event bytes pushed from interrupt context,
/// popped from task context.  A push into a full queue drops the event rather
/// than blocking: a blocking push inside interrupt context would deadlock the
/// kernel.
pub struct EventQueue {
    inner: ArrayQueue<u8>,
}

impl View for EventQueue {
    type V = Seq<u8>;

    closed spec fn view(&self) -> Seq<u8> {
        byte_queue_contents(&self.inner)
    }
}

impl EventQueue {
    /// The capacity fixed at creation.
    pub closed spec fn bound(&self) -> nat {
        byte_queue_bound(&self.inner)
    }

    /// Creates an empty queue of the given capacity.
    pub fn new(capacity: usize) -> (q: EventQueue)
        requires
            1 <= capacity <= 0x10000,
        ensures
            q@ == Seq::<u8>::empty(),
            q.bound() == capacity as nat,
    {
        EventQueue { inner: byte_queue_new(capacity) }
    }

    /// Appends an event unless the queue is full; a rejected event is dropped,
    /// never blocked on.  Returns whether the event was retained.
    pub fn push(&mut self, value: u8) -> (accepted: bool)
        ensures
            final(self).bound() == old(self).bound(),
            accepted == (old(self)@.len() < old(self).bound()),
            final(self)@ == push_retained(old(self)@, value, old(self).bound()),
    {
        byte_queue_push(&mut self.inner, value)
    }

    /// Removes and returns the oldest event, or `None` when none is buffered.
    pub fn pop(&mut self) -> (popped: Option<u8>)
        ensures
            final(self).bound() == old(self).bound(),
            match popped {
                Some(value) => old(self)@.len() > 0 && value == old(self)@.first()
                    && final(self)@ == old(self)@.drop_first(),
                None => old(self)@.len() == 0 && final(self)@ == old(self)@,
            },
    {
        byte_queue_pop(&mut self.inner)
    }

    /// The number of buffered events.
    pub fn len(&self) -> (n: usize)
        ensures
            n == self@.len(),
    {
        byte_queue_len(&self.inner)
    }

    /// Whether no event is buffered.
    pub fn is_empty(&self) -> (empty: bool)
        ensures
            empty == (self@.len() == 0),
    {
        self.len() == 0
    }

    /// The capacity fixed at creation.
    pub fn capacity(&self) -> (n: usize)
        ensures
            n == self.bound(),
    {
        byte_queue_capacity(&self.inner)
    }
}

/// What one push leaves in a bounded queue: the value is appended when there
/// is room and dropped otherwise.
pub open spec fn push_retained(s: Seq<u8>, value: u8, bound: nat) -> Seq<u8> {
    if s.len() < bound {
        s.push(value)
    } else {
        s
    }
}

/// What a sequence of pushes leaves in a bounded queue, applied oldest first.
pub open spec fn pushed_all(s: Seq<u8>, values: Seq<u8>, bound: nat) -> Seq<u8>
    decreases values.len(),
{
    if values.len() == 0 {
        s
    } else {
        pushed_all(push_retained(s, values.first(), bound), values.drop_first(), bound)
    }
}

/// FIFO order: as long as nothing overflows, a queue holds exactly what was
/// pushed into it, in push order, behind what it already held; the pops that
/// `EventQueue::pop` performs then yield those events front to back.
pub proof fn lemma_event_queue_fifo(s: Seq<u8>, values: Seq<u8>, bound: nat)
    requires
        s.len() + values.len() <= bound,
    ensures
        pushed_all(s, values, bound) == s + values,
    decreases values.len(),
{
    if values.len() == 0 {
        assert(s + values =~= s);
    } else {
        assert(push_retained(s, values.first(), bound) == s.push(values.first()));
        lemma_event_queue_fifo(s.push(values.first()), values.drop_first(), bound);
        assert(s.push(values.first()) + values.drop_first() =~= s + values);
    }
}

/// Overflow safety: pushing any burst of events never corrupts what the queue
/// already holds; the queue retains the events that arrived while there was
/// room, in order, and drops the rest.
pub proof fn lemma_event_queue_overflow_safe(s: Seq<u8>, values: Seq<u8>, bound: nat)
    requires
        s.len() <= bound,
    ensures
        pushed_all(s, values, bound).len() <= bound,
        pushed_all(s, values, bound).take(s.len() as int) == s,
        s.len() + values.len() <= bound ==> pushed_all(s, values, bound) == s + values,
        s.len() + values.len() > bound ==> pushed_all(s, values, bound) == s + values.take(
            bound - s.len(),
        ),
    decreases values.len(),
{
    if values.len() == 0 {
        assert(s + values =~= s);
        assert(s.take(s.len() as int) =~= s);
    } else if s.len() < bound {
        let s1 = s.push(values.first());
        assert(push_retained(s, values.first(), bound) == s1);
        lemma_event_queue_overflow_safe(s1, values.drop_first(), bound);
        if s.len() + values.len() <= bound {
            assert(s1 + values.drop_first() =~= s + values);
            assert((s + values).take(s.len() as int) =~= s);
        } else {
            assert(s1 + values.drop_first().take(bound - s1.len()) =~= s + values.take(
                bound - s.len(),
            ));
            assert((s + values.take(bound - s.len())).take(s.len() as int) =~= s);
        }
    } else {
        assert(push_retained(s, values.first(), bound) == s);
        lemma_event_queue_overflow_safe(s, values.drop_first(), bound);
        if s.len() + values.drop_first().len() <= bound {
            assert(values.drop_first() =~= Seq::<u8>::empty());
            assert(s + values.take(bound - s.len()) =~= s);
        } else {
            assert(s + values.drop_first().take(bound - s.len()) =~= s + values.take(
                bound - s.len(),
            ));
        }
        assert(s.take(s.len() as int) =~= s);
    }
}

/// The ready queue: task identifiers waiting to be resumed, capacity fixed at
/// creation.  Identifiers are pushed both at spawn time and by wake handles,
/// and popped only by the executor's run loop.
pub struct ReadyQueue {
    inner: ArrayQueue<u64>,
}

impl View for ReadyQueue {
    type V = Seq<u64>;

    closed spec fn view(&self) -> Seq<u64> {
        id_queue_contents(&self.inner)
    }
}

impl ReadyQueue {
    /// The capacity fixed at creation.
    pub closed spec fn bound(&self) -> nat {
        id_queue_bound(&self.inner)
    }

    /// Creates an empty queue of the given capacity.
    pub fn new(capacity: usize) -> (q: ReadyQueue)
        requires
            1 <= capacity <= 0x10000,
        ensures
            q@ == Seq::<u64>::empty(),
            q.bound() == capacity as nat,
    {
        ReadyQueue { inner: id_queue_new(capacity) }
    }

    /// Appends a task identifier unless the queue is full.  A full ready queue
    /// is a capacity-planning error; the caller treats a rejection as fatal.
    pub fn push(&mut self, value: u64) -> (accepted: bool)
        ensures
            final(self).bound() == old(self).bound(),
            accepted == (old(self)@.len() < old(self).bound()),
            accepted ==> final(self)@ == old(self)@.push(value),
            !accepted ==> final(self)@ == old(self)@,
    {
        id_queue_push(&mut self.inner, value)
    }

    /// Removes and returns the oldest identifier, or `None` when none waits.
    pub fn pop(&mut self) -> (popped: Option<u64>)
        ensures
            final(self).bound() == old(self).bound(),
            match popped {
                Some(value) => old(self)@.len() > 0 && value == old(self)@.first()
                    && final(self)@ == old(self)@.drop_first(),
                None => old(self)@.len() == 0 && final(self)@ == old(self)@,
            },
    {
        id_queue_pop(&mut self.inner)
    }

    /// The number of waiting identifiers.
    pub fn len(&self) -> (n: usize)
        ensures
            n == self@.len(),
    {
        id_queue_len(&self.inner)
    }

    /// Whether no identifier waits.
    pub fn is_empty(&self) -> (empty: bool)
        ensures
            empty == (self@.len() == 0),
    {
        self.len() == 0
    }

    /// The capacity fixed at creation.
    pub fn capacity(&self) -> (n: usize)
        ensures
            n == self.bound(),
    {
        id_queue_capacity(&self.inner)
    }
}

} // verus!
