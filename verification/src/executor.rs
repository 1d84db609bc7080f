//! The executor of a runtime: the queue of its unfinished tasks.

use vstd::prelude::*;
use crate::context::{Context, Layer};
use crate::error::RtError;

verus! {

/// A cooperative scheduler that runs its tasks on the thread that drives it,
/// parked on the timer of its runtime.
///
/// The scheduler is a `tokio_current_thread::CurrentThread`. Its type is
/// bounded by a trait of its own crate, so it is held behind this struct, and
/// everything that is known of it is stated over [`tasks`].
#[verifier::external_body]
pub struct Executor {
    inner: tokio_current_thread::CurrentThread<
        tokio_timer::Timer<tokio_reactor::Reactor, tokio_timer::clock::Clock>,
    >,
}

/// A unit of work for an executor: a future that is polled on the thread of
/// the executor until it completes or fails. The future is a trait object of
/// the `futures` crate, so it is held behind this struct, and nothing is known
/// of what a task does when it is polled.
#[verifier::external_body]
pub struct Task {
    /// The future that the executor polls.
    pub future: Box<dyn futures::Future<Item = (), Error = ()>>,
}

/// The tasks that were spawned on `executor` and have not yet come to an end,
/// be it by completing or by failing. A task that is spawned goes to the back.
pub uninterp spec fn tasks(executor: Executor) -> Seq<Task>;

/// The task that comes to its end at its first poll, with `outcome`.
pub uninterp spec fn ready_task(outcome: Result<(), ()>) -> Task;

/// The task is one that comes to its end at its first poll.
pub open spec fn is_ready(task: Task) -> bool {
    task == ready_task(Ok(())) || task == ready_task(Err(()))
}

/// Every task of the list comes to its end at its first poll.
pub open spec fn all_ready(list: Seq<Task>) -> bool {
    forall|i: int| 0 <= i < list.len() ==> is_ready(#[trigger] list[i])
}

/// How a drain that finds the executor as `before` can end: well once no task
/// is left, and badly only with tasks left. It ends well where every task
/// comes to its end at its first poll, and so where there is none.
pub open spec fn drains(before: Executor, after: Executor, ended_well: bool) -> bool {
    &&& all_ready(tasks(before)) ==> ended_well
    &&& ended_well ==> tasks(after) == Seq::<Task>::empty()
    &&& !ended_well ==> tasks(after).len() > 0
}

impl Executor {
    /// `CurrentThread::new_with_park`: an executor that parks on `timer`. It
    /// starts with an empty list of tasks.
    #[verifier::external_body]
    pub(crate) fn parked_on(
        timer: tokio_timer::Timer<tokio_reactor::Reactor, tokio_timer::clock::Clock>,
    ) -> (executor: Executor)
        ensures
            tasks(executor) == Seq::<Task>::empty(),
    {
        Executor { inner: tokio_current_thread::CurrentThread::new_with_park(timer) }
    }

    /// `CurrentThread::is_idle`: whether the count of unfinished tasks is
    /// zero. No handle to the executor is ever given to another thread, so the
    /// count is read without a race.
    #[verifier::external_body]
    fn idle(&self) -> (idle: bool)
        ensures
            idle == (tasks(*self).len() == 0),
    {
        self.inner.is_idle()
    }

    /// `CurrentThread::spawn`: appends the future of `task` to the list of
    /// tasks and marks it as ready to be polled. It is not polled here.
    #[verifier::external_body]
    fn enqueue(&mut self, task: Task)
        ensures
            tasks(*final(self)) == tasks(*old(self)).push(task),
    {
        self.inner.spawn(task.future);
    }

    /// `CurrentThread::enter`, which pairs the executor with the permit, and
    /// `Entered::run` on the pair. The call returns `Ok` at once where no task
    /// is left. Otherwise it polls every task that is ready to be polled, and
    /// returns `Ok` as soon as none is left; only with tasks left does it park
    /// the thread, and only where parking fails does it return `Err`. A task
    /// that was spawned before the call is polled in the first pass, so a list
    /// of tasks that all end at their first poll is empty before the thread is
    /// ever parked. The call lasts as long as a task is waiting to be woken,
    /// and a panic of a task passes through it.
    #[verifier::external_body]
    pub(crate) fn drain(&mut self, enter: &mut tokio_executor::Enter) -> (outcome: Result<
        (),
        tokio_current_thread::RunError,
    >)
        ensures
            drains(*old(self), *final(self), outcome is Ok),
    {
        self.inner.enter(enter).run()
    }

    /// Whether no task of this executor is unfinished.
    pub fn is_idle(&self) -> (idle: bool)
        ensures
            idle == (tasks(*self).len() == 0),
    {
        self.idle()
    }

    /// Spawns `task` on this executor, which is ambient only inside its scope.
    ///
    /// Where the context holds the executor layer, the task goes to the back of
    /// the list, to be polled first when the executor is drained. Where it
    /// does not, the call fails with `NoActiveExecutor`, the task is dropped
    /// and the executor is left as it was.
    pub fn spawn(&mut self, ctx: &Context, task: Task) -> (outcome: Result<(), RtError>)
        ensures
            ctx.has(Layer::Executor) ==> {
                &&& outcome is Ok
                &&& tasks(*final(self)) == tasks(*old(self)).push(task)
            },
            !ctx.has(Layer::Executor) ==> {
                &&& outcome == Err::<(), RtError>(RtError::NoActiveExecutor)
                &&& *final(self) == *old(self)
            },
    {
        if ctx.has_layer(Layer::Executor) {
            self.enqueue(task);
            Ok(())
        } else {
            Err(RtError::NoActiveExecutor)
        }
    }

    /// Spawns a task that comes to its end at its first poll: it completes
    /// where `outcome` is `Ok` and fails where it is `Err`. The task is taken
    /// or refused as `spawn` takes or refuses one.
    pub fn spawn_ready(&mut self, ctx: &Context, outcome: Result<(), ()>) -> (spawned: Result<
        (),
        RtError,
    >)
        ensures
            ctx.has(Layer::Executor) ==> {
                &&& spawned is Ok
                &&& tasks(*final(self)) == tasks(*old(self)).push(ready_task(outcome))
            },
            !ctx.has(Layer::Executor) ==> {
                &&& spawned == Err::<(), RtError>(RtError::NoActiveExecutor)
                &&& *final(self) == *old(self)
            },
    {
        if ctx.has_layer(Layer::Executor) {
            self.enqueue(Task::ready(outcome));
            Ok(())
        } else {
            Err(RtError::NoActiveExecutor)
        }
    }
}

impl Task {
    /// `futures::future::result`: a future that holds `outcome` and resolves
    /// to it at its first poll, boxed.
    #[verifier::external_body]
    pub(crate) fn ready(outcome: Result<(), ()>) -> (task: Task)
        ensures
            task == ready_task(outcome),
    {
        Task { future: Box::new(futures::future::result(outcome)) }
    }
}

} // verus!
