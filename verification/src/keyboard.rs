//! The event stream that bridges the interrupt layer to tasks.
//!
//! The interrupt handler delivers raw event bytes (keyboard scancodes) with
//! `add_scancode`; a task pulls them with `ScancodeStream::poll_next`.  When
//! no event is ready, `poll_next` registers the task's wake handle, re-checks
//! the queue once more to close the race between the first check and the
//! registration, and only then reports itself suspended.  That double check is
//! the core mechanism preventing a lost wakeup.
use vstd::prelude::*;

use crate::queue::{push_retained, EventQueue, ReadyQueue};
use crate::task::{Resumable, Step};
use crate::wake::{wake_pushed, WakeOutcome, WakeSignal, WakerWrapper};

verus! {

/// Capacity of the scancode waiting queue.
pub const SCANCODE_QUEUE_CAPACITY: usize = 128;

/// What one poll of the stream reports.
#[derive(Debug, Clone, Copy, PartialEq, Eq, Structural)]
pub enum Polled {
    /// The oldest buffered event, consumed from the queue.
    Ready(u8),
    /// No event is buffered; the caller's wake handle is registered and the
    /// calling task must suspend until it is invoked.
    Pending,
}

/// Scancode Stream: the bounded event queue together with the wake signal
/// that resumes whichever task waits on it.
pub struct ScancodeStream {
    queue: EventQueue,
    waker: WakeSignal,
}

impl ScancodeStream {
    /// The buffered event bytes, oldest first.
    pub closed spec fn events(&self) -> Seq<u8> {
        self.queue@
    }

    /// The wake handle registered by a suspended consumer, if any.
    pub closed spec fn registered(&self) -> Option<WakerWrapper> {
        self.waker.registered()
    }

    /// The event queue's capacity.
    pub closed spec fn bound(&self) -> nat {
        self.queue.bound()
    }

    /// Creates an empty stream with the standard scancode queue capacity.
    pub fn new() -> (stream: ScancodeStream)
        ensures
            stream.events() == Seq::<u8>::empty(),
            stream.registered() == Option::<WakerWrapper>::None,
            stream.bound() == SCANCODE_QUEUE_CAPACITY as nat,
    {
        ScancodeStream { queue: EventQueue::new(SCANCODE_QUEUE_CAPACITY), waker: WakeSignal::new() }
    }

    /// Creates an empty stream with the given queue capacity.
    pub fn with_capacity(capacity: usize) -> (stream: ScancodeStream)
        requires
            1 <= capacity <= 0x10000,
        ensures
            stream.events() == Seq::<u8>::empty(),
            stream.registered() == Option::<WakerWrapper>::None,
            stream.bound() == capacity as nat,
    {
        ScancodeStream { queue: EventQueue::new(capacity), waker: WakeSignal::new() }
    }

    /// Pulls the next event: the oldest buffered event when one is ready;
    /// otherwise registers the caller's wake handle, re-checks the queue once
    /// more to close the race with a concurrent delivery, and reports the
    /// caller suspended.  A superseded registration may still fire, harmlessly.
    pub fn poll_next(&mut self, waker: &WakerWrapper) -> (polled: Polled)
        ensures
            final(self).bound() == old(self).bound(),
            old(self).events().len() > 0 ==> {
                &&& polled == Polled::Ready(old(self).events().first())
                &&& final(self).events() == old(self).events().drop_first()
                &&& final(self).registered() == old(self).registered()
            },
            old(self).events().len() == 0 ==> {
                &&& polled == Polled::Pending
                &&& final(self).events() == old(self).events()
                &&& final(self).registered() == Option::Some(*waker)
            },
    {
        if let Some(scancode) = self.queue.pop() {
            return Polled::Ready(scancode);
        }
        self.waker.register(*waker);
        match self.queue.pop() {
            Some(scancode) => {
                let _ = self.waker.take();
                Polled::Ready(scancode)
            },
            None => Polled::Pending,
        }
    }

    /// The number of buffered events.
    pub fn len(&self) -> (n: usize)
        ensures
            n == self.events().len(),
    {
        self.queue.len()
    }
}

/// The outcome of one event delivery.
#[derive(Debug, Clone, Copy, PartialEq, Eq, Structural)]
pub enum DeliverOutcome {
    /// The event was buffered and the wake signal notified.
    Delivered(WakeOutcome),
    /// The event queue was full: the event was dropped — never blocked on —
    /// and nobody was woken.  A recoverable data-loss condition worth a
    /// diagnostic, not an error the kernel propagates.
    Dropped,
}

/// Delivers one raw event byte from interrupt context: buffers it in the
/// stream's queue and, if that succeeded, invokes the registered wake handle,
/// which re-admits the waiting task's identifier to the ready queue.  On a
/// full queue the event is dropped rather than blocked on.
pub fn add_scancode(stream: &mut ScancodeStream, task_queue: &mut ReadyQueue, scancode: u8) -> (outcome:
    DeliverOutcome)
    ensures
        final(stream).bound() == old(stream).bound(),
        final(task_queue).bound() == old(task_queue).bound(),
        final(stream).events() == push_retained(
            old(stream).events(),
            scancode,
            old(stream).bound(),
        ),
        old(stream).events().len() < old(stream).bound() ==> {
            &&& final(stream).registered() == Option::<WakerWrapper>::None
            &&& final(task_queue)@ == wake_pushed(
                old(task_queue)@,
                old(task_queue).bound(),
                old(stream).registered(),
            )
            &&& outcome == DeliverOutcome::Delivered(
                match old(stream).registered() {
                    Option::None => WakeOutcome::Idle,
                    Option::Some(handle) => if old(task_queue)@.len() < old(task_queue).bound() {
                        WakeOutcome::Woke(handle.id())
                    } else {
                        WakeOutcome::ReadyQueueFull(handle.id())
                    },
                },
            )
        },
        old(stream).events().len() >= old(stream).bound() ==> {
            &&& final(stream).registered() == old(stream).registered()
            &&& final(task_queue)@ == old(task_queue)@
            &&& outcome == DeliverOutcome::Dropped
        },
{
    if stream.queue.push(scancode) {
        DeliverOutcome::Delivered(stream.waker.wake(task_queue))
    } else {
        DeliverOutcome::Dropped
    }
}

/// No lost wakeup.  A task suspended by `poll_next` left the queue empty and
/// its wake handle registered.  Delivering an event in that state always
/// retains the event and re-admits exactly that task's identifier, and the
/// retained event is the one the task's next poll returns.  In the other
/// relative order — the event arrives before the task re-checks — `poll_next`
/// returns the event immediately and no wakeup is needed, by its contract.
pub proof fn lemma_no_lost_wakeup(
    events: Seq<u8>,
    bound: nat,
    slot: Option<WakerWrapper>,
    ready: Seq<u64>,
    ready_bound: nat,
    handle: WakerWrapper,
    scancode: u8,
)
    requires
        slot == Option::Some(handle),
        events.len() == 0,
        bound >= 1,
        ready.len() < ready_bound,
    ensures
        push_retained(events, scancode, bound) == seq![scancode],
        push_retained(events, scancode, bound).first() == scancode,
        wake_pushed(ready, ready_bound, slot) == ready.push(handle.id()),
{
    assert(events.push(scancode) =~= seq![scancode]);
}

/// The keyboard echo task: an explicit state machine that pulls each raw
/// event byte from its own stream and appends it to the output it owes the
/// display collaborator.  With a budget it completes after observing that many
/// events; without one it runs forever, suspending whenever its stream is dry.
pub struct EchoTask {
    source: usize,
    observed: Vec<u8>,
    budget: Option<u64>,
}

impl EchoTask {
    /// The index of the stream the task consumes.
    pub closed spec fn source_index(&self) -> int {
        self.source as int
    }

    /// Every event byte the task has observed, oldest first.
    pub closed spec fn observed_events(&self) -> Seq<u8> {
        self.observed@
    }

    /// How many more events the task expects before completing, if bounded.
    pub closed spec fn remaining_budget(&self) -> Option<u64> {
        self.budget
    }

    /// A task that echoes events from the given stream forever.
    pub fn new(source: usize) -> (task: EchoTask)
        ensures
            task.source_index() == source as int,
            task.observed_events() == Seq::<u8>::empty(),
            task.remaining_budget() == Option::<u64>::None,
    {
        EchoTask { source, observed: Vec::new(), budget: None }
    }

    /// A task that completes after observing `expected` events.
    pub fn with_budget(source: usize, expected: u64) -> (task: EchoTask)
        ensures
            task.source_index() == source as int,
            task.observed_events() == Seq::<u8>::empty(),
            task.remaining_budget() == Option::Some(expected),
    {
        EchoTask { source, observed: Vec::new(), budget: Some(expected) }
    }

    /// The events observed so far.
    pub fn observed(&self) -> (observed: &Vec<u8>)
        ensures
            observed@ == self.observed_events(),
    {
        &self.observed
    }

    /// Pulls events from the stream until the budget is spent (completing) or
    /// the stream is dry (suspending, wake handle registered).
    #[verifier::loop_isolation(false)]
    pub fn drain(&mut self, stream: &mut ScancodeStream, waker: &WakerWrapper) -> (step: Step)
        ensures
            drained(*old(self), *old(stream), *final(self), *final(stream), *waker, step),
    {
        let ghost initial_events = stream.events();
        let ghost initial_observed = self.observed@;
        let ghost initial_budget = self.budget;
        let ghost initial_registered = stream.registered();
        let ghost consumed: int = 0;
        loop
            invariant
                0 <= consumed <= initial_events.len(),
                stream.events() == initial_events.skip(consumed),
                stream.bound() == old(stream).bound(),
                stream.registered() == initial_registered,
                self.observed@ == initial_observed + initial_events.take(consumed),
                self.source == old(self).source,
                match initial_budget {
                    Option::None => self.budget == Option::<u64>::None,
                    Option::Some(expected) => consumed <= expected && self.budget == Option::Some(
                        (expected - consumed) as u64,
                    ),
                },
            decreases initial_events.len() - consumed,
        {
            if let Some(expected_left) = self.budget {
                if expected_left == 0 {
                    proof {
                        let expected = initial_budget->Some_0;
                        assert(consumed == expected as int);
                    }
                    return Step::Completed;
                }
            }
            match stream.poll_next(waker) {
                Polled::Ready(event) => {
                    self.observed.push(event);
                    if let Some(expected_left) = self.budget {
                        self.budget = Some(expected_left - 1);
                    }
                    proof {
                        consumed = consumed + 1;
                        assert(initial_events.skip(consumed) =~= initial_events.skip(
                            consumed - 1,
                        ).drop_first());
                        assert(initial_events.take(consumed) =~= initial_events.take(
                            consumed - 1,
                        ).push(initial_events.skip(consumed - 1).first()));
                    }
                },
                Polled::Pending => {
                    proof {
                        assert(initial_events.take(consumed) =~= initial_events);
                        assert(self.observed@ =~= initial_observed + initial_events);
                        assert(stream.events() =~= Seq::<u8>::empty());
                    }
                    return Step::Suspended;
                },
            }
        }
    }
}

/// What one `drain` of an echo task does: with no budget it consumes the whole
/// stream and suspends with the wake handle registered; with one it completes
/// as soon as the budget is spent, and otherwise consumes everything, keeps
/// the rest of the budget, and suspends registered.
pub open spec fn drained(
    pre: EchoTask,
    pre_stream: ScancodeStream,
    post: EchoTask,
    post_stream: ScancodeStream,
    waker: WakerWrapper,
    step: Step,
) -> bool {
    &&& post_stream.bound() == pre_stream.bound()
    &&& post.source_index() == pre.source_index()
    &&& match pre.remaining_budget() {
        Option::None => {
            &&& step == Step::Suspended
            &&& post.observed_events() == pre.observed_events() + pre_stream.events()
            &&& post.remaining_budget() == Option::<u64>::None
            &&& post_stream.events() == Seq::<u8>::empty()
            &&& post_stream.registered() == Option::Some(waker)
        },
        Option::Some(expected) => if expected <= pre_stream.events().len() {
            &&& step == Step::Completed
            &&& post.observed_events() == pre.observed_events() + pre_stream.events().take(
                expected as int,
            )
            &&& post.remaining_budget() == Option::Some(0u64)
            &&& post_stream.events() == pre_stream.events().skip(expected as int)
            &&& post_stream.registered() == pre_stream.registered()
        } else {
            &&& step == Step::Suspended
            &&& post.observed_events() == pre.observed_events() + pre_stream.events()
            &&& post.remaining_budget() == Option::Some(
                (expected - pre_stream.events().len()) as u64,
            )
            &&& post_stream.events() == Seq::<u8>::empty()
            &&& post_stream.registered() == Option::Some(waker)
        },
    }
}

impl Resumable<Vec<ScancodeStream>> for EchoTask {
    /// What resuming an echo task guarantees: it drains exactly its own
    /// stream, as `drained` states, and leaves every other stream untouched;
    /// a task whose stream is gone completes with nothing changed.
    open spec fn resumption(
        pre: EchoTask,
        pre_world: Vec<ScancodeStream>,
        post: EchoTask,
        post_world: Vec<ScancodeStream>,
        waker: WakerWrapper,
        step: Step,
    ) -> bool {
        if 0 <= pre.source_index() < pre_world@.len() {
            &&& post_world@.len() == pre_world@.len()
            &&& (forall|i: int|
                0 <= i < pre_world@.len() && i != pre.source_index()
                    ==> post_world@[i] == #[trigger] pre_world@[i])
            &&& drained(
                pre,
                pre_world@[pre.source_index()],
                post,
                post_world@[pre.source_index()],
                waker,
                step,
            )
        } else {
            &&& step == Step::Completed
            &&& post == pre
            &&& post_world == pre_world
        }
    }

    /// Resumes the echo task: drains its own stream, suspending or completing
    /// as `drain` decides.  A task whose stream is gone has nothing left to
    /// observe and completes.
    fn resume(&mut self, world: &mut Vec<ScancodeStream>, waker: &WakerWrapper) -> (step: Step) {
        let source = self.source;
        if source >= world.len() {
            return Step::Completed;
        }
        let stream = &mut world[source];
        self.drain(stream, waker)
    }
}

} // verus!
