//! Spawning on the executor that is ambient.

use vstd::prelude::*;
use crate::context::{Context, Layer};
use crate::error::RtError;
use crate::executor::{ready_task, tasks, Executor};

verus! {

/// Spawns a task that is complete from the start on `executor`, which is
/// ambient only inside its scope.
///
/// Inside a scope the call succeeds: the task goes to the back of the
/// executor's list and is not polled before the executor is drained. Outside
/// of a scope no executor is ambient: the call fails with `NoActiveExecutor`
/// and leaves the executor as it was.
pub fn spawn_with_default(ctx: &Context, executor: &mut Executor) -> (outcome: Result<(), RtError>)
    ensures
        ctx.has(Layer::Executor) ==> {
            &&& outcome is Ok
            &&& tasks(*final(executor)) == tasks(*old(executor)).push(ready_task(Ok(())))
        },
        !ctx.has(Layer::Executor) ==> {
            &&& outcome == Err::<(), RtError>(RtError::NoActiveExecutor)
            &&& *final(executor) == *old(executor)
        },
{
    executor.spawn_ready(ctx, Ok(()))
}

} // verus!
