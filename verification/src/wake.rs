//! Wake handles and the wake signal.
//!
//! A wake handle is the capability, one per live suspended task, that
//! re-admits that task's identifier to the ready queue.  The wake signal is a
//! single-slot, overwrite-safe notification cell: a producer asks "please
//! resume checking the queue" without knowing which task registered.
use vstd::prelude::*;

use crate::queue::ReadyQueue;
use crate::task::TaskID;

verus! {

/// A wake handle: holds the identifier of the task it re-admits.  Invoking it
/// pushes that identifier back into the ready queue it is handed.
#[derive(Debug, Clone, Copy, PartialEq, Eq, Structural)]
pub struct WakerWrapper {
    task_id: u64,
}

impl WakerWrapper {
    /// The identifier of the task this handle wakes.
    pub closed spec fn id(&self) -> u64 {
        self.task_id
    }

    /// Creates the wake handle for the given task.
    pub fn new(task_id: TaskID) -> (waker: WakerWrapper)
        ensures
            waker.id() == task_id.value(),
    {
        WakerWrapper { task_id: task_id.as_u64() }
    }

    /// Re-admits the task's identifier to the ready queue.  A full ready queue
    /// is a capacity-planning error, reported to the caller as fatal.
    pub fn wake_task(&self, task_queue: &mut ReadyQueue) -> (accepted: bool)
        ensures
            final(task_queue).bound() == old(task_queue).bound(),
            accepted == (old(task_queue)@.len() < old(task_queue).bound()),
            accepted ==> final(task_queue)@ == old(task_queue)@.push(self.id()),
            !accepted ==> final(task_queue)@ == old(task_queue)@,
    {
        task_queue.push(self.task_id)
    }

    /// Wakes by consuming the handle; same effect as `wake_task`.
    pub fn wake(self, task_queue: &mut ReadyQueue) -> (accepted: bool)
        ensures
            final(task_queue).bound() == old(task_queue).bound(),
            accepted == (old(task_queue)@.len() < old(task_queue).bound()),
            accepted ==> final(task_queue)@ == old(task_queue)@.push(self.id()),
            !accepted ==> final(task_queue)@ == old(task_queue)@,
    {
        self.wake_task(task_queue)
    }

    /// Wakes without consuming the handle; same effect as `wake_task`.
    pub fn wake_by_ref(&self, task_queue: &mut ReadyQueue) -> (accepted: bool)
        ensures
            final(task_queue).bound() == old(task_queue).bound(),
            accepted == (old(task_queue)@.len() < old(task_queue).bound()),
            accepted ==> final(task_queue)@ == old(task_queue)@.push(self.id()),
            !accepted ==> final(task_queue)@ == old(task_queue)@,
    {
        self.wake_task(task_queue)
    }
}

/// What one notification does to the ready queue: the registered handle, if
/// any, pushes its task identifier, unless the queue is full.
pub open spec fn wake_pushed(ready: Seq<u64>, ready_bound: nat, slot: Option<WakerWrapper>) -> Seq<
    u64,
> {
    match slot {
        Option::None => ready,
        Option::Some(handle) => if ready.len() < ready_bound {
            ready.push(handle.id())
        } else {
            ready
        },
    }
}

/// The outcome of one notification.
#[derive(Debug, Clone, Copy, PartialEq, Eq, Structural)]
pub enum WakeOutcome {
    /// No handle was registered; the notification is a harmless no-op.
    Idle,
    /// The registered handle re-admitted its task's identifier.
    Woke(u64),
    /// The registered handle found the ready queue full: a capacity-planning
    /// error that the kernel treats as fatal.
    ReadyQueueFull(u64),
}

/// The wake signal: at most one pending notification target.  Registering
/// overwrites any previous registration — only the most recent waiting party
/// matters — so at most one handle is ever invoked by the next notification.
pub struct WakeSignal {
    slot: Option<WakerWrapper>,
}

impl WakeSignal {
    /// The currently registered wake handle, if any.
    pub closed spec fn registered(&self) -> Option<WakerWrapper> {
        self.slot
    }

    /// Creates a signal with no registration.
    pub fn new() -> (signal: WakeSignal)
        ensures
            signal.registered() == Option::<WakerWrapper>::None,
    {
        WakeSignal { slot: None }
    }

    /// Stores the given wake handle, replacing any previous one: after two
    /// registrations with no notification between them, only the second handle
    /// is ever invoked.
    pub fn register(&mut self, waker: WakerWrapper)
        ensures
            final(self).registered() == Option::Some(waker),
    {
        self.slot = Some(waker);
    }

    /// Removes and returns the current registration without invoking it.
    pub fn take(&mut self) -> (taken: Option<WakerWrapper>)
        ensures
            taken == old(self).registered(),
            final(self).registered() == Option::<WakerWrapper>::None,
    {
        let taken = self.slot;
        self.slot = None;
        taken
    }

    /// Invokes the currently stored handle, if any, then clears it: at most
    /// one delivery per registration, so one event never wakes a task twice.
    pub fn wake(&mut self, task_queue: &mut ReadyQueue) -> (outcome: WakeOutcome)
        ensures
            final(self).registered() == Option::<WakerWrapper>::None,
            final(task_queue).bound() == old(task_queue).bound(),
            final(task_queue)@ == wake_pushed(
                old(task_queue)@,
                old(task_queue).bound(),
                old(self).registered(),
            ),
            outcome == match old(self).registered() {
                Option::None => WakeOutcome::Idle,
                Option::Some(handle) => if old(task_queue)@.len() < old(task_queue).bound() {
                    WakeOutcome::Woke(handle.id())
                } else {
                    WakeOutcome::ReadyQueueFull(handle.id())
                },
            },
    {
        match self.take() {
            None => WakeOutcome::Idle,
            Some(handle) => {
                if handle.wake_task(task_queue) {
                    WakeOutcome::Woke(handle.task_id)
                } else {
                    WakeOutcome::ReadyQueueFull(handle.task_id)
                }
            },
        }
    }
}

} // verus!
