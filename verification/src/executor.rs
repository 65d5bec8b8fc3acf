//! The executor: the cooperative scheduler.
//!
//! It exclusively owns the set of live tasks, the ready queue of task
//! identifiers, and the wake handle cache.  Each round it drains the ready
//! queue, resuming every popped task until it suspends or completes; a
//! completed task is removed from both the task map and the cache, and a stale
//! identifier — its task already completed — is silently skipped, since a
//! duplicate wake racing against completion is expected and harmless.
use vstd::prelude::*;

use std::collections::BTreeMap;

use crate::queue::ReadyQueue;
use crate::task::{Resumable, Step, Task};
use crate::wake::WakerWrapper;

verus! {

broadcast use
    vstd::std_specs::btree::group_btree_axioms,
    vstd::laws_cmp::group_laws_cmp,
;

/// Size of the waiting queue for tasks.
pub const QUEUE_SIZE: usize = 128;

/// The conditions under which a spawn is refused.  Both are treated as fatal
/// by the kernel: they are build-time sizing or programming mistakes, not
/// runtime conditions any caller can meaningfully handle.
#[derive(Debug, Clone, Copy, PartialEq, Eq, Structural)]
pub enum ExecutorError {
    /// A task with the same identifier already exists.  With identifiers
    /// allocated from one counter this cannot happen; it indicates a
    /// programming error.
    DuplicateTaskId(u64),
    /// The ready queue is full: the kernel has more concurrent work ready than
    /// its fixed capacity allows, a capacity-planning error.
    ReadyQueueFull(u64),
}

/// What resuming one identifier popped from the ready queue led to.
#[derive(Debug, Clone, Copy, PartialEq, Eq, Structural)]
pub enum TaskRunOutcome {
    /// No live task carries the identifier: a duplicate or stale wake raced
    /// against completion.  Silently skipped.
    Skipped,
    /// The task ran to completion and was removed from the task map and the
    /// wake handle cache.
    Completed,
    /// The task suspended; it stays in the task map and its wake handle stays
    /// cached for the next notification.
    Suspended,
}

/// One resumed identifier of a round: the identifier popped from the ready
/// queue, what resuming it led to, and the executor and world states around
/// that resumption (the identifier already popped in `pre`).
pub struct RoundStep<W, T> {
    pub task_id: u64,
    pub outcome: TaskRunOutcome,
    pub pre: Executor<T>,
    pub pre_world: W,
    pub post: Executor<T>,
    pub post_world: W,
}

/// Exactly `run_task`'s contract, as a relation around one resumption: a
/// stale identifier changes nothing; a live one has its task resumed — its
/// `resumption` relation holds of the world, under a wake handle carrying the
/// task's identifier — and the bookkeeping follows the step it reported.
pub open spec fn task_run_rel<W, T: Resumable<W>>(round: RoundStep<W, T>) -> bool {
    &&& round.pre.well_formed()
    &&& round.post.well_formed()
    &&& round.post.queued() == round.pre.queued()
    &&& round.post.queue_bound() == round.pre.queue_bound()
    &&& match round.outcome {
        TaskRunOutcome::Skipped => {
            &&& !round.pre.task_ids().contains(round.task_id)
            &&& round.post.task_ids() == round.pre.task_ids()
            &&& round.post.tasks_view() == round.pre.tasks_view()
            &&& round.post.cached_ids() == round.pre.cached_ids()
            &&& round.post_world == round.pre_world
        },
        TaskRunOutcome::Completed => {
            &&& round.pre.task_ids().contains(round.task_id)
            &&& round.post.task_ids() == round.pre.task_ids().remove(round.task_id)
            &&& round.post.tasks_view() == round.pre.tasks_view().remove(round.task_id)
            &&& round.post.cached_ids() == round.pre.cached_ids().remove(round.task_id)
            &&& exists|waker: WakerWrapper, stopped: T|
                waker.id() == round.task_id && #[trigger] T::resumption(
                    round.pre.tasks_view()[round.task_id].body(),
                    round.pre_world,
                    stopped,
                    round.post_world,
                    waker,
                    Step::Completed,
                )
        },
        TaskRunOutcome::Suspended => {
            &&& round.pre.task_ids().contains(round.task_id)
            &&& round.post.task_ids() == round.pre.task_ids()
            &&& round.post.tasks_view().remove(round.task_id) == round.pre.tasks_view().remove(
                round.task_id,
            )
            &&& round.post.tasks_view().dom().contains(round.task_id)
            &&& round.post.tasks_view()[round.task_id].task_id() == round.task_id
            &&& round.post.cached_ids() == round.pre.cached_ids().insert(round.task_id)
            &&& exists|waker: WakerWrapper|
                waker.id() == round.task_id && #[trigger] T::resumption(
                    round.pre.tasks_view()[round.task_id].body(),
                    round.pre_world,
                    round.post.tasks_view()[round.task_id].body(),
                    round.post_world,
                    waker,
                    Step::Suspended,
                )
        },
    }
}

/// The executor.
pub struct Executor<T> {
    tasks: BTreeMap<u64, Task<T>>,
    /// The ready queue.  Wake handles and event delivery push identifiers into
    /// it from outside the executor, so the boot sequence wires it up where
    /// the interrupt path can reach it.
    pub task_queue: ReadyQueue,
    waker_cache: BTreeMap<u64, WakerWrapper>,
}

impl<T> Executor<T> {
    /// The identifiers of the live tasks.
    pub closed spec fn task_ids(&self) -> Set<u64> {
        self.tasks@.dom()
    }

    /// The live tasks by identifier.
    pub closed spec fn tasks_view(&self) -> Map<u64, Task<T>> {
        self.tasks@
    }

    /// The identifiers with a cached wake handle.
    pub closed spec fn cached_ids(&self) -> Set<u64> {
        self.waker_cache@.dom()
    }

    /// The identifiers waiting in the ready queue, oldest first.
    pub closed spec fn queued(&self) -> Seq<u64> {
        self.task_queue@
    }

    /// The ready queue's capacity.
    pub closed spec fn queue_bound(&self) -> nat {
        self.task_queue.bound()
    }

    /// The executor's internal consistency: a wake handle is cached only for a
    /// live task, every cached handle wakes the identifier it is cached under,
    /// and every task sits in the map under its own identifier.
    pub closed spec fn well_formed(&self) -> bool {
        &&& self.task_queue@.len() <= self.task_queue.bound()
        &&& self.waker_cache@.dom().subset_of(self.tasks@.dom())
        &&& forall|id: u64|
            self.waker_cache@.dom().contains(id) ==> #[trigger] self.waker_cache@[id].id() == id
        &&& forall|id: u64|
            self.tasks@.dom().contains(id) ==> #[trigger] self.tasks@[id].task_id() == id
    }

    /// Creates an executor with no tasks and the standard ready queue size.
    pub fn new() -> (executor: Executor<T>)
        ensures
            executor.well_formed(),
            executor.task_ids() == Set::<u64>::empty(),
            executor.cached_ids() == Set::<u64>::empty(),
            executor.queued() == Seq::<u64>::empty(),
            executor.queue_bound() == QUEUE_SIZE as nat,
    {
        Executor {
            tasks: BTreeMap::new(),
            task_queue: ReadyQueue::new(QUEUE_SIZE),
            waker_cache: BTreeMap::new(),
        }
    }

    /// Creates an executor with no tasks and the given ready queue capacity.
    pub fn with_queue_capacity(capacity: usize) -> (executor: Executor<T>)
        requires
            1 <= capacity <= 0x10000,
        ensures
            executor.well_formed(),
            executor.task_ids() == Set::<u64>::empty(),
            executor.cached_ids() == Set::<u64>::empty(),
            executor.queued() == Seq::<u64>::empty(),
            executor.queue_bound() == capacity as nat,
    {
        Executor {
            tasks: BTreeMap::new(),
            task_queue: ReadyQueue::new(capacity),
            waker_cache: BTreeMap::new(),
        }
    }

    /// Spawns the given task: stores it under its identifier and pushes the
    /// identifier into the ready queue.  A duplicate identifier or a full
    /// ready queue refuses the spawn and leaves the executor untouched; the
    /// kernel treats either as fatal.
    pub fn spawn(&mut self, task: Task<T>) -> (result: Result<(), ExecutorError>)
        requires
            old(self).well_formed(),
        ensures
            final(self).well_formed(),
            final(self).queue_bound() == old(self).queue_bound(),
            match result {
                Result::Ok(()) => {
                    &&& !old(self).task_ids().contains(task.task_id())
                    &&& old(self).queued().len() < old(self).queue_bound()
                    &&& final(self).task_ids() == old(self).task_ids().insert(task.task_id())
                    &&& final(self).tasks_view() == old(self).tasks_view().insert(
                        task.task_id(),
                        task,
                    )
                    &&& final(self).queued() == old(self).queued().push(task.task_id())
                    &&& final(self).cached_ids() == old(self).cached_ids()
                },
                Result::Err(ExecutorError::DuplicateTaskId(id)) => {
                    &&& id == task.task_id()
                    &&& old(self).task_ids().contains(id)
                    &&& final(self).task_ids() == old(self).task_ids()
                    &&& final(self).tasks_view() == old(self).tasks_view()
                    &&& final(self).queued() == old(self).queued()
                    &&& final(self).cached_ids() == old(self).cached_ids()
                },
                Result::Err(ExecutorError::ReadyQueueFull(id)) => {
                    &&& id == task.task_id()
                    &&& !old(self).task_ids().contains(id)
                    &&& old(self).queued().len() >= old(self).queue_bound()
                    &&& final(self).task_ids() == old(self).task_ids()
                    &&& final(self).tasks_view() == old(self).tasks_view()
                    &&& final(self).queued() == old(self).queued()
                    &&& final(self).cached_ids() == old(self).cached_ids()
                },
            },
    {
        let task_id = task.id().as_u64();
        if self.tasks.contains_key(&task_id) {
            return Err(ExecutorError::DuplicateTaskId(task_id));
        }
        if self.task_queue.len() == self.task_queue.capacity() {
            return Err(ExecutorError::ReadyQueueFull(task_id));
        }
        self.tasks.insert(task_id, task);
        let accepted = self.task_queue.push(task_id);
        assert(accepted);
        Ok(())
    }

    /// The executor's shape while one task is out being resumed: the ready
    /// queue within bounds, the task map missing exactly that identifier, and
    /// its wake handle already cached under it.
    pub closed spec fn resuming(&self, task_id: u64) -> bool {
        &&& self.task_queue@.len() <= self.task_queue.bound()
        &&& !self.tasks@.dom().contains(task_id)
        &&& self.waker_cache@.dom().contains(task_id)
        &&& self.waker_cache@.dom().subset_of(self.tasks@.dom().insert(task_id))
        &&& forall|id: u64|
            self.waker_cache@.dom().contains(id) ==> #[trigger] self.waker_cache@[id].id() == id
        &&& forall|id: u64|
            self.tasks@.dom().contains(id) ==> #[trigger] self.tasks@[id].task_id() == id
    }

    /// Applies the bookkeeping the step returned by a resumption demands: a
    /// completed task stays removed and loses its cached wake handle; a
    /// suspended one goes back into the task map with its handle kept cached.
    fn settle(&mut self, task_id: u64, task: Task<T>, step: Step) -> (outcome: TaskRunOutcome)
        requires
            old(self).resuming(task_id),
            task.task_id() == task_id,
        ensures
            final(self).well_formed(),
            final(self).queued() == old(self).queued(),
            final(self).queue_bound() == old(self).queue_bound(),
            step == Step::Completed ==> {
                &&& final(self).tasks_view() == old(self).tasks_view()
                &&& final(self).task_ids() == old(self).task_ids()
                &&& final(self).cached_ids() == old(self).cached_ids().remove(task_id)
                &&& outcome == TaskRunOutcome::Completed
            },
            step == Step::Suspended ==> {
                &&& final(self).tasks_view() == old(self).tasks_view().insert(task_id, task)
                &&& final(self).task_ids() == old(self).task_ids().insert(task_id)
                &&& final(self).cached_ids() == old(self).cached_ids().insert(task_id)
                &&& outcome == TaskRunOutcome::Suspended
            },
    {
        match step {
            Step::Completed => {
                self.waker_cache.remove(&task_id);
                proof {
                    assert(final(self).cached_ids() =~= old(self).cached_ids().remove(task_id));
                }
                TaskRunOutcome::Completed
            },
            Step::Suspended => {
                self.tasks.insert(task_id, task);
                proof {
                    assert(final(self).task_ids() =~= old(self).task_ids().insert(task_id));
                    assert(final(self).cached_ids() =~= old(self).cached_ids().insert(task_id));
                }
                TaskRunOutcome::Suspended
            },
        }
    }

    /// Resumes the task carrying the given identifier: looks it up (skipping a
    /// stale identifier), obtains or lazily constructs its cached wake handle,
    /// resumes it once, and settles the bookkeeping the returned step demands.
    /// A live task really is resumed: its `resumption` relation ties the new
    /// world and task state to the old ones, under a handle that wakes exactly
    /// this identifier.  Once a task completes, its identifier is absent from
    /// both the task map and the wake handle cache, and stays so.
    pub fn run_task<W>(&mut self, world: &mut W, task_id: u64) -> (outcome: TaskRunOutcome) where
        T: Resumable<W>,

        requires
            old(self).well_formed(),
        ensures
            final(self).well_formed(),
            final(self).queued() == old(self).queued(),
            final(self).queue_bound() == old(self).queue_bound(),
            match outcome {
                TaskRunOutcome::Skipped => {
                    &&& !old(self).task_ids().contains(task_id)
                    &&& final(self).task_ids() == old(self).task_ids()
                    &&& final(self).tasks_view() == old(self).tasks_view()
                    &&& final(self).cached_ids() == old(self).cached_ids()
                    &&& *final(world) == *old(world)
                },
                TaskRunOutcome::Completed => {
                    &&& old(self).task_ids().contains(task_id)
                    &&& final(self).task_ids() == old(self).task_ids().remove(task_id)
                    &&& final(self).tasks_view() == old(self).tasks_view().remove(task_id)
                    &&& final(self).cached_ids() == old(self).cached_ids().remove(task_id)
                    &&& exists|waker: WakerWrapper, stopped: T|
                        waker.id() == task_id && #[trigger] T::resumption(
                            old(self).tasks_view()[task_id].body(),
                            *old(world),
                            stopped,
                            *final(world),
                            waker,
                            Step::Completed,
                        )
                },
                TaskRunOutcome::Suspended => {
                    &&& old(self).task_ids().contains(task_id)
                    &&& final(self).task_ids() == old(self).task_ids()
                    &&& final(self).tasks_view().remove(task_id) == old(self).tasks_view().remove(
                        task_id,
                    )
                    &&& final(self).tasks_view().dom().contains(task_id)
                    &&& final(self).tasks_view()[task_id].task_id() == task_id
                    &&& final(self).cached_ids() == old(self).cached_ids().insert(task_id)
                    &&& exists|waker: WakerWrapper|
                        waker.id() == task_id && #[trigger] T::resumption(
                            old(self).tasks_view()[task_id].body(),
                            *old(world),
                            final(self).tasks_view()[task_id].body(),
                            *final(world),
                            waker,
                            Step::Suspended,
                        )
                },
            },
    {
        let mut task = match self.tasks.remove(&task_id) {
            None => {
                return TaskRunOutcome::Skipped;
            },
            Some(task) => task,
        };
        let waker = match self.waker_cache.get(&task_id) {
            Some(cached) => *cached,
            None => {
                let fresh = WakerWrapper::new(task.id());
                self.waker_cache.insert(task_id, fresh);
                fresh
            },
        };
        proof {
            assert(self.resuming(task_id));
            assert(waker.id() == task_id);
        }
        let ghost body_before = task.body();
        let step = task.poll(world, &waker);
        let ghost body_after = task.body();
        let outcome = self.settle(task_id, task, step);
        proof {
            assert(body_before == old(self).tasks_view()[task_id].body());
            if step == Step::Completed {
                assert(final(self).tasks_view() =~= old(self).tasks_view().remove(task_id));
                assert(final(self).task_ids() =~= old(self).task_ids().remove(task_id));
                assert(final(self).cached_ids() =~= old(self).cached_ids().remove(task_id));
                assert(T::resumption(
                    old(self).tasks_view()[task_id].body(),
                    *old(world),
                    body_after,
                    *world,
                    waker,
                    Step::Completed,
                ));
            } else {
                assert(final(self).task_ids() =~= old(self).task_ids());
                assert(final(self).tasks_view().remove(task_id) =~= old(self).tasks_view().remove(
                    task_id,
                ));
                assert(final(self).cached_ids() =~= old(self).cached_ids().insert(task_id));
                assert(final(self).tasks_view()[task_id].body() == body_after);
                assert(T::resumption(
                    old(self).tasks_view()[task_id].body(),
                    *old(world),
                    final(self).tasks_view()[task_id].body(),
                    *world,
                    waker,
                    Step::Suspended,
                ));
            }
        }
        outcome
    }

    /// Drains the ready queue, resuming every popped task.  The returned ghost
    /// trace records each round: the identifier popped, the states around its
    /// resumption and what it led to — each entry satisfying `run_task`'s
    /// relation, chained from the entry state to the final one.  No task
    /// appears out of nowhere, and a round whose queued identifiers are all
    /// stale — duplicate wakes aimed at completed tasks — changes nothing at
    /// all: a completed task cannot be resurrected.
    #[verifier::loop_isolation(false)]
    pub fn run_ready_tasks<W>(&mut self, world: &mut W) -> (trace: Ghost<
        Seq<RoundStep<W, T>>,
    >) where T: Resumable<W>
        requires
            old(self).well_formed(),
        ensures
            final(self).well_formed(),
            final(self).queued().len() == 0,
            final(self).queue_bound() == old(self).queue_bound(),
            final(self).task_ids().subset_of(old(self).task_ids()),
            trace@.len() == old(self).queued().len(),
            forall|k: int|
                0 <= k < trace@.len() ==> (#[trigger] trace@[k]).task_id == old(self).queued()[k],
            forall|k: int| 0 <= k < trace@.len() ==> task_run_rel(#[trigger] trace@[k]),
            forall|k: int|
                0 <= k < trace@.len() ==> (#[trigger] trace@[k]).pre.queued() == old(
                    self,
                ).queued().skip(k + 1),
            trace@.len() > 0 ==> {
                &&& trace@[0].pre.tasks_view() == old(self).tasks_view()
                &&& trace@[0].pre.cached_ids() == old(self).cached_ids()
                &&& trace@[0].pre_world == *old(world)
            },
            forall|k: int|
                0 <= k < trace@.len() - 1 ==> {
                    &&& (#[trigger] trace@[k + 1]).pre.tasks_view() == trace@[k].post.tasks_view()
                    &&& trace@[k + 1].pre.cached_ids() == trace@[k].post.cached_ids()
                    &&& trace@[k + 1].pre_world == trace@[k].post_world
                },
            trace@.len() > 0 ==> {
                &&& final(self).tasks_view() == trace@.last().post.tasks_view()
                &&& final(self).cached_ids() == trace@.last().post.cached_ids()
                &&& *final(world) == trace@.last().post_world
            },
            trace@.len() == 0 ==> {
                &&& final(self).tasks_view() == old(self).tasks_view()
                &&& final(self).cached_ids() == old(self).cached_ids()
                &&& *final(world) == *old(world)
            },
            (forall|i: int|
                0 <= i < old(self).queued().len() ==> !old(self).task_ids().contains(
                    #[trigger] old(self).queued()[i],
                )) ==> {
                &&& final(self).task_ids() == old(self).task_ids()
                &&& final(self).tasks_view() == old(self).tasks_view()
                &&& final(self).cached_ids() == old(self).cached_ids()
            },
    {
        let ghost mut processed: int = 0;
        let ghost mut trace: Seq<RoundStep<W, T>> = Seq::empty();
        loop
            invariant
                self.well_formed(),
                self.queue_bound() == old(self).queue_bound(),
                self.task_ids().subset_of(old(self).task_ids()),
                0 <= processed <= old(self).queued().len(),
                self.queued() == old(self).queued().skip(processed),
                trace.len() == processed,
                forall|k: int|
                    0 <= k < processed ==> (#[trigger] trace[k]).task_id == old(self).queued()[k],
                forall|k: int| 0 <= k < processed ==> task_run_rel(#[trigger] trace[k]),
                forall|k: int|
                    0 <= k < processed ==> (#[trigger] trace[k]).pre.queued() == old(
                        self,
                    ).queued().skip(k + 1),
                processed > 0 ==> {
                    &&& trace[0].pre.tasks_view() == old(self).tasks_view()
                    &&& trace[0].pre.cached_ids() == old(self).cached_ids()
                    &&& trace[0].pre_world == *old(world)
                },
                forall|k: int|
                    0 <= k < processed - 1 ==> {
                        &&& (#[trigger] trace[k + 1]).pre.tasks_view() == trace[k].post.tasks_view()
                        &&& trace[k + 1].pre.cached_ids() == trace[k].post.cached_ids()
                        &&& trace[k + 1].pre_world == trace[k].post_world
                    },
                processed > 0 ==> {
                    &&& self.tasks_view() == trace.last().post.tasks_view()
                    &&& self.cached_ids() == trace.last().post.cached_ids()
                    &&& *world == trace.last().post_world
                },
                processed == 0 ==> {
                    &&& self.tasks_view() == old(self).tasks_view()
                    &&& self.cached_ids() == old(self).cached_ids()
                    &&& *world == *old(world)
                },
                (forall|i: int|
                    0 <= i < old(self).queued().len() ==> !old(self).task_ids().contains(
                        #[trigger] old(self).queued()[i],
                    )) ==> {
                    &&& self.task_ids() == old(self).task_ids()
                    &&& self.tasks_view() == old(self).tasks_view()
                    &&& self.cached_ids() == old(self).cached_ids()
                },
            decreases old(self).queued().len() - processed,
        {
            let popped = self.task_queue.pop();
            match popped {
                None => {
                    return Ghost(trace);
                },
                Some(task_id) => {
                    proof {
                        assert(old(self).queued()[processed] == task_id);
                        if forall|i: int|
                            0 <= i < old(self).queued().len() ==> !old(self).task_ids().contains(
                                #[trigger] old(self).queued()[i],
                            ) {
                            assert(!old(self).task_ids().contains(task_id));
                        }
                        assert(old(self).queued().skip(processed + 1) =~= old(self).queued().skip(
                            processed,
                        ).drop_first());
                    }
                    let ghost pre_exec = *self;
                    let ghost pre_world = *world;
                    let outcome = self.run_task(world, task_id);
                    proof {
                        let entry = RoundStep {
                            task_id,
                            outcome,
                            pre: pre_exec,
                            pre_world,
                            post: *self,
                            post_world: *world,
                        };
                        if outcome == TaskRunOutcome::Completed {
                            let (w, stopped) = choose|w: WakerWrapper, stopped: T|
                                w.id() == task_id && #[trigger] T::resumption(
                                    pre_exec.tasks_view()[task_id].body(),
                                    pre_world,
                                    stopped,
                                    *world,
                                    w,
                                    Step::Completed,
                                );
                            assert(w.id() == entry.task_id && T::resumption(
                                entry.pre.tasks_view()[entry.task_id].body(),
                                entry.pre_world,
                                stopped,
                                entry.post_world,
                                w,
                                Step::Completed,
                            ));
                        }
                        if outcome == TaskRunOutcome::Suspended {
                            let w = choose|w: WakerWrapper|
                                w.id() == task_id && #[trigger] T::resumption(
                                    pre_exec.tasks_view()[task_id].body(),
                                    pre_world,
                                    self.tasks_view()[task_id].body(),
                                    *world,
                                    w,
                                    Step::Suspended,
                                );
                            assert(w.id() == entry.task_id && T::resumption(
                                entry.pre.tasks_view()[entry.task_id].body(),
                                entry.pre_world,
                                entry.post.tasks_view()[entry.task_id].body(),
                                entry.post_world,
                                w,
                                Step::Suspended,
                            ));
                        }
                        assert(task_run_rel(entry));
                        trace = trace.push(entry);
                        processed = processed + 1;
                    }
                },
            }
        }
    }

    /// The idle check at the heart of `sleep_if_idle`: whether no task waits
    /// in the ready queue.  When this holds, the kernel may halt the CPU —
    /// with interrupts disabled across the check and re-enabled atomically
    /// with the halt, so a wakeup arriving in between is never missed.
    pub fn idle(&self) -> (idle: bool)
        ensures
            idle == (self.queued().len() == 0),
    {
        self.task_queue.is_empty()
    }

    /// The number of live tasks.
    pub fn task_count(&self) -> (count: usize)
        ensures
            count == self.tasks_view().len(),
    {
        self.tasks.len()
    }

    /// Whether a live task carries the given identifier.
    pub fn has_task(&self, task_id: u64) -> (present: bool)
        ensures
            present == self.task_ids().contains(task_id),
    {
        self.tasks.contains_key(&task_id)
    }

    /// The live task carrying the given identifier, if any.
    pub fn get_task(&self, task_id: u64) -> (task: Option<&Task<T>>)
        ensures
            match task {
                Option::Some(t) => self.task_ids().contains(task_id) && *t
                    == self.tasks_view()[task_id],
                Option::None => !self.task_ids().contains(task_id),
            },
    {
        self.tasks.get(&task_id)
    }

    /// Whether a wake handle is cached for the given identifier.
    pub fn has_cached_waker(&self, task_id: u64) -> (present: bool)
        ensures
            present == self.cached_ids().contains(task_id),
    {
        self.waker_cache.contains_key(&task_id)
    }
}

} // verus!
