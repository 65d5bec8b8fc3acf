//! Tasks: uniquely identified, owned resumable computations.
//!
//! A task owns one resumable computation — an explicit state machine with a
//! single `resume` operation that either completes or suspends.  Identity is
//! the task identifier: an opaque, monotonically increasing integer allocated
//! once per task and never reused while the kernel runs.
use vstd::prelude::*;

use crate::wake::WakerWrapper;

verus! {

/// An opaque task identifier, unique for the lifetime of the kernel.
#[derive(Debug, Clone, Copy, PartialEq, Eq, Structural)]
pub struct TaskID {
    id: u64,
}

impl TaskID {
    /// The identifier as a mathematical value.
    pub closed spec fn value(&self) -> u64 {
        self.id
    }

    /// Allocates the next identifier from the given counter.
    pub fn new(ids: &mut TaskIdCounter) -> (task_id: TaskID)
        requires
            old(ids).next() < u64::MAX,
        ensures
            task_id.value() == old(ids).next(),
            final(ids).next() == old(ids).next() + 1,
    {
        TaskID { id: ids.fetch_add() }
    }

    /// The identifier as an integer.
    pub fn as_u64(&self) -> (id: u64)
        ensures
            id == self.value(),
    {
        self.id
    }
}

/// The counter that task identifiers are allocated from.  The boot sequence
/// creates one and threads it through task creation; identifiers therefore
/// increase monotonically and are never reused (wraparound is a non-goal given
/// practical uptimes).
pub struct TaskIdCounter {
    next_id: u64,
}

impl TaskIdCounter {
    /// The identifier the next allocation returns.
    pub closed spec fn next(&self) -> u64 {
        self.next_id
    }

    /// Creates a counter starting at zero.
    pub fn new() -> (ids: TaskIdCounter)
        ensures
            ids.next() == 0,
    {
        TaskIdCounter { next_id: 0 }
    }

    /// Returns the identifier the next allocation will take, without
    /// advancing the counter.
    pub fn peek_next(&self) -> (id: u64)
        ensures
            id == self.next(),
    {
        self.next_id
    }

    /// Returns the current value and advances the counter.
    pub fn fetch_add(&mut self) -> (id: u64)
        requires
            old(self).next() < u64::MAX,
        ensures
            id == old(self).next(),
            final(self).next() == old(self).next() + 1,
    {
        let id = self.next_id;
        self.next_id = self.next_id + 1;
        id
    }
}

/// What one resumption of a task reports: the computation either ran to
/// completion (terminal) or suspended at a well-defined point, to be resumed
/// only after its wake handle is invoked.
#[derive(Debug, Clone, Copy, PartialEq, Eq, Structural)]
pub enum Step {
    /// The computation finished; the task is destroyed.
    Completed,
    /// The computation paused; its wake handle was registered with whatever it
    /// waits on.
    Suspended,
}

/// A resumable computation: an explicit state machine over a world of event
/// sources `W`, driven by the executor.  `resume` runs the computation until
/// it either completes or suspends; before reporting `Suspended` it registers
/// the given wake handle with the event source it waits on.
pub trait Resumable<W>: Sized {
    /// What one resumption guarantees: how the computation and the world it
    /// ran against changed, under the given wake handle, and which step it
    /// reported.  Each implementation states its own relation; the executor
    /// promises this relation for every task it resumes.
    spec fn resumption(pre: Self, pre_world: W, post: Self, post_world: W, waker: WakerWrapper, step: Step) -> bool;

    /// Runs the computation until it completes or suspends.
    fn resume(&mut self, world: &mut W, waker: &WakerWrapper) -> (step: Step)
        ensures
            Self::resumption(*old(self), *old(world), *final(self), *final(world), *waker, step),
    ;
}

/// A task: one resumable computation together with its identifier.  The
/// executor exclusively owns the mapping from identifier to task; no other
/// component holds a reference to a task's internals.
pub struct Task<T> {
    id: TaskID,
    body: T,
}

impl<T> Task<T> {
    /// The task's identifier as a mathematical value.
    pub closed spec fn task_id(&self) -> u64 {
        self.id.value()
    }

    /// The computation the task owns.
    pub closed spec fn body(&self) -> T {
        self.body
    }

    /// Creates a task owning the given computation, with a fresh identifier.
    pub fn new(body: T, ids: &mut TaskIdCounter) -> (task: Task<T>)
        requires
            old(ids).next() < u64::MAX,
        ensures
            task.task_id() == old(ids).next(),
            task.body() == body,
            final(ids).next() == old(ids).next() + 1,
    {
        Task { id: TaskID::new(ids), body }
    }

    /// The computation the task owns.
    pub fn computation(&self) -> (body: &T)
        ensures
            *body == self.body(),
    {
        &self.body
    }

    /// The task's identifier.
    pub fn id(&self) -> (task_id: TaskID)
        ensures
            task_id.value() == self.task_id(),
    {
        self.id
    }

    /// Resumes the inner computation with the given wake handle.
    pub fn poll<W>(&mut self, world: &mut W, waker: &WakerWrapper) -> (step: Step) where
        T: Resumable<W>,

        ensures
            final(self).task_id() == old(self).task_id(),
            T::resumption(
                old(self).body(),
                *old(world),
                final(self).body(),
                *final(world),
                *waker,
                step,
            ),
    {
        self.body.resume(world, waker)
    }
}

} // verus!
