//! The runtime: one clock, one reactor behind a timer, and one executor parked
//! on that timer, with the scope that makes them the thread's defaults.

use vstd::prelude::*;
use crate::bindings::{acquire, current_sink, fresh_clock, open_reactor, reactor_handle, share_clock, timer_handle, wheel};
use crate::context::{
    lemma_full_is_through_executor,
    lemma_no_permit_is_idle,
    lemma_through_is_ready,
    Context,
    Layer,
};
use crate::error::RtError;
use crate::executor::{drains, tasks, Executor, Task};

verus! {

/// A single-threaded runtime: it owns one clock, one timer on top of one
/// reactor, and one executor that parks on the timer. It is built with handles
/// that refer to the reactor and the timer which its executor holds.
pub struct Rt {
    clock: tokio_timer::clock::Clock,
    reactor_handle: tokio_reactor::Handle,
    timer_handle: tokio_timer::timer::Handle,
    executor: Executor,
}

/// A setup can be called wherever every layer of a scope is installed.
pub open spec fn accepts<F: FnOnce(&mut Executor, &mut Context)>(setup: F) -> bool {
    forall|executor: &mut Executor, ctx: &mut Context|
        ctx.full() ==> #[trigger] setup.requires((executor, ctx))
}

/// What a scope did between finding the executor as `start` and leaving it as
/// `end`: the setup was called with the executor as it stood at `start` and a
/// context with every layer installed, it returned and left the executor as
/// `left`, and the drain went on from there.
#[verifier::inline]
pub open spec fn scoped<F: FnOnce(&mut Executor, &mut Context)>(
    setup: F,
    start: Executor,
    given: &mut Executor,
    full: &mut Context,
    left: Executor,
    end: Executor,
    ended_well: bool,
) -> bool {
    &&& setup.ensures((given, full), ())
    &&& *given == start
    &&& full.full()
    &&& drains(left, end, ended_well)
}

/// What holds once a scope has been left: the context is what it was before,
/// and the only failure is that of the drain.
pub open spec fn settled(before: Context, after: Context, outcome: Result<(), RtError>) -> bool {
    &&& after == before
    &&& outcome is Err ==> outcome == Err::<(), RtError>(RtError::Run)
}

/// `tokio_reactor::with_default`: makes `reactor` the thread's default reactor,
/// calls the closure once with the permit, takes the default off again and
/// returns what the closure returned. The closure is `inside_reactor`, whose
/// contract is repeated here. The call panics where a default reactor is
/// already set, or where the handle refers to no reactor. The handle of a
/// runtime comes from its own reactor. Of the thread the library knows what
/// the context records, and `requires` asks that it holds no reactor layer.
#[verifier::external_body]
fn with_reactor<F>(
    reactor: &tokio_reactor::Handle,
    clock: &tokio_timer::clock::Clock,
    timer: &tokio_timer::timer::Handle,
    executor: &mut Executor,
    ctx: &mut Context,
    enter: &mut tokio_executor::Enter,
    setup: F,
) -> (outcome: Result<(), RtError>) where F: FnOnce(&mut Executor, &mut Context)
    requires
        old(ctx).ready_for(Layer::Reactor),
        accepts(setup),
    ensures
        settled(*old(ctx), *final(ctx), outcome),
        (exists|given: &mut Executor, full: &mut Context|
            scoped(
                setup,
                *old(executor),
                given,
                full,
                *final(given),
                *final(executor),
                outcome is Ok,
            )),
{
    tokio_reactor::with_default(
        reactor,
        enter,
        |enter| inside_reactor(clock, timer, executor, ctx, enter, setup),
    )
}

/// `tokio_timer::clock::with_default`: makes `clock` the thread's default
/// clock, calls the closure once with the permit, takes the default off again
/// and returns what the closure returned. The closure is `inside_clock`, whose
/// contract is repeated here. The call panics where a default clock is already
/// set. Of the thread the library knows what the context records, and
/// `requires` asks that it holds no clock layer.
#[verifier::external_body]
fn with_clock<F>(
    clock: &tokio_timer::clock::Clock,
    timer: &tokio_timer::timer::Handle,
    executor: &mut Executor,
    ctx: &mut Context,
    enter: &mut tokio_executor::Enter,
    setup: F,
) -> (outcome: Result<(), RtError>) where F: FnOnce(&mut Executor, &mut Context)
    requires
        old(ctx).ready_for(Layer::Clock),
        accepts(setup),
    ensures
        settled(*old(ctx), *final(ctx), outcome),
        (exists|given: &mut Executor, full: &mut Context|
            scoped(
                setup,
                *old(executor),
                given,
                full,
                *final(given),
                *final(executor),
                outcome is Ok,
            )),
{
    tokio_timer::clock::with_default(
        clock,
        enter,
        |enter| inside_clock(timer, executor, ctx, enter, setup),
    )
}

/// `tokio_timer::timer::with_default`: makes `timer` the thread's default
/// timer, calls the closure once with the permit, takes the default off again
/// and returns what the closure returned. The closure is `inside_timer`, whose
/// contract is repeated here. The call panics where a default timer is already
/// set, or where the handle refers to no timer. The handle of a runtime comes
/// from its own timer. Of the thread the library knows what the context
/// records, and `requires` asks that it holds no timer layer.
#[verifier::external_body]
fn with_timer<F>(
    timer: &tokio_timer::timer::Handle,
    executor: &mut Executor,
    ctx: &mut Context,
    enter: &mut tokio_executor::Enter,
    setup: F,
) -> (outcome: Result<(), RtError>) where F: FnOnce(&mut Executor, &mut Context)
    requires
        old(ctx).ready_for(Layer::Timer),
        accepts(setup),
    ensures
        settled(*old(ctx), *final(ctx), outcome),
        (exists|given: &mut Executor, full: &mut Context|
            scoped(
                setup,
                *old(executor),
                given,
                full,
                *final(given),
                *final(executor),
                outcome is Ok,
            )),
{
    tokio_timer::timer::with_default(
        timer,
        enter,
        |enter| inside_timer(executor, ctx, enter, setup),
    )
}

/// `tokio_executor::with_default`: makes `sink` the thread's default executor,
/// calls the closure once with the permit, takes the default off again and
/// returns what the closure returned. The closure is `inside_spawner`, whose
/// contract is repeated here. The call panics where a default executor is
/// already set. Of the thread the library knows what the context records, and
/// `requires` asks that it holds no layer for the sink.
#[verifier::external_body]
fn with_spawner<F>(
    sink: &mut tokio_current_thread::TaskExecutor,
    executor: &mut Executor,
    ctx: &mut Context,
    enter: &mut tokio_executor::Enter,
    setup: F,
) -> (outcome: Result<(), RtError>) where F: FnOnce(&mut Executor, &mut Context)
    requires
        old(ctx).ready_for(Layer::Spawner),
        accepts(setup),
    ensures
        settled(*old(ctx), *final(ctx), outcome),
        (exists|given: &mut Executor, full: &mut Context|
            scoped(
                setup,
                *old(executor),
                given,
                full,
                *final(given),
                *final(executor),
                outcome is Ok,
            )),
{
    tokio_executor::with_default(
        sink,
        enter,
        |enter| inside_spawner(executor, ctx, enter, setup),
    )
}

/// What runs while the reactor is the default: the clock goes on next.
fn inside_reactor<F>(
    clock: &tokio_timer::clock::Clock,
    timer: &tokio_timer::timer::Handle,
    executor: &mut Executor,
    ctx: &mut Context,
    enter: &mut tokio_executor::Enter,
    setup: F,
) -> (outcome: Result<(), RtError>) where F: FnOnce(&mut Executor, &mut Context)
    requires
        old(ctx).ready_for(Layer::Reactor),
        accepts(setup),
    ensures
        settled(*old(ctx), *final(ctx), outcome),
        (exists|given: &mut Executor, full: &mut Context|
            scoped(
                setup,
                *old(executor),
                given,
                full,
                *final(given),
                *final(executor),
                outcome is Ok,
            )),
{
    let before = ctx.snapshot();
    ctx.install(Layer::Reactor);
    proof {
        lemma_through_is_ready(*ctx, Layer::Reactor, Layer::Clock);
    }
    let outcome = with_clock(clock, timer, executor, ctx, enter, setup);
    *ctx = before;
    outcome
}

/// What runs while the clock is the default: the timer goes on next.
fn inside_clock<F>(
    timer: &tokio_timer::timer::Handle,
    executor: &mut Executor,
    ctx: &mut Context,
    enter: &mut tokio_executor::Enter,
    setup: F,
) -> (outcome: Result<(), RtError>) where F: FnOnce(&mut Executor, &mut Context)
    requires
        old(ctx).ready_for(Layer::Clock),
        accepts(setup),
    ensures
        settled(*old(ctx), *final(ctx), outcome),
        (exists|given: &mut Executor, full: &mut Context|
            scoped(
                setup,
                *old(executor),
                given,
                full,
                *final(given),
                *final(executor),
                outcome is Ok,
            )),
{
    let before = ctx.snapshot();
    ctx.install(Layer::Clock);
    proof {
        lemma_through_is_ready(*ctx, Layer::Clock, Layer::Timer);
    }
    let outcome = with_timer(timer, executor, ctx, enter, setup);
    *ctx = before;
    outcome
}

/// What runs while the timer is the default: the sink for spawned tasks goes
/// on next.
fn inside_timer<F>(
    executor: &mut Executor,
    ctx: &mut Context,
    enter: &mut tokio_executor::Enter,
    setup: F,
) -> (outcome: Result<(), RtError>) where F: FnOnce(&mut Executor, &mut Context)
    requires
        old(ctx).ready_for(Layer::Timer),
        accepts(setup),
    ensures
        settled(*old(ctx), *final(ctx), outcome),
        (exists|given: &mut Executor, full: &mut Context|
            scoped(
                setup,
                *old(executor),
                given,
                full,
                *final(given),
                *final(executor),
                outcome is Ok,
            )),
{
    let before = ctx.snapshot();
    ctx.install(Layer::Timer);
    proof {
        lemma_through_is_ready(*ctx, Layer::Timer, Layer::Spawner);
    }
    let mut sink = current_sink();
    let outcome = with_spawner(&mut sink, executor, ctx, enter, setup);
    *ctx = before;
    outcome
}

/// What runs while the sink is the default: the executor is bound to the
/// permit, the setup runs, and the executor is drained.
fn inside_spawner<F>(
    executor: &mut Executor,
    ctx: &mut Context,
    enter: &mut tokio_executor::Enter,
    setup: F,
) -> (outcome: Result<(), RtError>) where F: FnOnce(&mut Executor, &mut Context)
    requires
        old(ctx).ready_for(Layer::Spawner),
        accepts(setup),
    ensures
        settled(*old(ctx), *final(ctx), outcome),
        (exists|given: &mut Executor, full: &mut Context|
            scoped(
                setup,
                *old(executor),
                given,
                full,
                *final(given),
                *final(executor),
                outcome is Ok,
            )),
{
    let before = ctx.snapshot();
    ctx.install(Layer::Spawner);
    proof {
        lemma_through_is_ready(*ctx, Layer::Spawner, Layer::Executor);
    }
    ctx.install(Layer::Executor);
    proof {
        lemma_full_is_through_executor(*ctx);
    }
    setup(executor, ctx);
    let drain = executor.drain(enter);
    *ctx = before;
    Rt::drained(drain)
}

impl Rt {
    /// The executor of this runtime.
    pub closed spec fn executor(&self) -> Executor {
        self.executor
    }

    /// The unfinished tasks of this runtime.
    pub open spec fn tasks(&self) -> Seq<Task> {
        tasks(self.executor())
    }

    /// Both runtimes hold the same clock and the same handles.
    pub closed spec fn same_wiring(&self, other: &Rt) -> bool {
        &&& self.clock == other.clock
        &&& self.reactor_handle == other.reactor_handle
        &&& self.timer_handle == other.timer_handle
    }

    /// What a run reports for each way in which a drain can end.
    pub fn drained(drain: Result<(), tokio_current_thread::RunError>) -> (outcome: Result<
        (),
        RtError,
    >)
        ensures
            drain is Ok <==> outcome is Ok,
            drain is Err ==> outcome == Err::<(), RtError>(RtError::Run),
    {
        match drain {
            Ok(()) => Ok(()),
            Err(_) => Err(RtError::Run),
        }
    }

    /// Builds a runtime around `clock` from the outcome of creating a reactor.
    /// A reactor that could not be created gives `Init`, and nothing is built;
    /// otherwise a timer is put on top of the reactor, reading `clock`, and a
    /// fresh executor is parked on the timer.
    pub fn assemble(
        clock: tokio_timer::clock::Clock,
        reactor: Result<tokio_reactor::Reactor, std::io::Error>,
    ) -> (rt: Result<Rt, RtError>)
        ensures
            reactor is Ok <==> rt is Ok,
            reactor is Err ==> rt == Err::<Rt, RtError>(RtError::Init),
            rt matches Ok(built) ==> built.tasks() == Seq::<Task>::empty(),
    {
        match reactor {
            Err(_) => Err(RtError::Init),
            Ok(reactor) => {
                let reactor_handle = reactor_handle(&reactor);
                let timer = wheel(reactor, share_clock(&clock));
                let timer_handle = timer_handle(&timer);
                let executor = Executor::parked_on(timer);
                Ok(Rt { clock, reactor_handle, timer_handle, executor })
            },
        }
    }

    /// Creates a runtime: a clock, a reactor, a timer on the reactor that reads
    /// the clock, and an executor parked on the timer. It fails with `Init`
    /// where the reactor cannot be created, and with nothing else.
    pub fn new() -> (rt: Result<Rt, RtError>)
        ensures
            rt matches Ok(built) ==> built.tasks() == Seq::<Task>::empty(),
            rt matches Err(e) ==> e == RtError::Init,
    {
        let clock = fresh_clock();
        Rt::assemble(clock, open_reactor())
    }

    /// The executor of this runtime, for whoever has to name it outside of a
    /// scope. It takes a task only where the context holds the executor layer.
    pub fn executor_mut(&mut self) -> (executor: &mut Executor)
        ensures
            *executor == old(self).executor(),
            final(self).executor() == *final(executor),
            final(self).same_wiring(old(self)),
    {
        &mut self.executor
    }

    /// Whether no task of this runtime is unfinished.
    pub fn is_idle(&self) -> (idle: bool)
        ensures
            idle == (self.tasks().len() == 0),
    {
        self.executor.is_idle()
    }

    /// Runs a scope with the outcome of asking for the thread's permit.
    ///
    /// Without the permit, or where the context already holds one, the call
    /// fails with `Reentrancy` and touches nothing. With it, the layers go on
    /// from the outermost to the innermost, `setup` runs once with the executor
    /// and the full context, the executor is drained, and the layers come off
    /// again. The drain ends well where every task that `setup` left in the
    /// list ends at its first poll, and so where `setup` left none; it ends
    /// with `Run` only with tasks left.
    ///
    /// The call panics where other code has set a default clock, reactor,
    /// timer or executor on the thread: the context records only what this
    /// library has installed. It lasts as long as a task is waiting to be
    /// woken.
    pub fn run_with_permit<F>(
        &mut self,
        ctx: &mut Context,
        permit: Result<tokio_executor::Enter, tokio_executor::EnterError>,
        setup: F,
    ) -> (outcome: Result<(), RtError>) where F: FnOnce(&mut Executor, &mut Context)
        requires
            accepts(setup),
        ensures
            *final(ctx) == *old(ctx),
            final(self).same_wiring(old(self)),
            (permit is Err || old(ctx).has(Layer::Permit)) <==> outcome == Err::<(), RtError>(
                RtError::Reentrancy,
            ),
            outcome == Err::<(), RtError>(RtError::Reentrancy) ==> *final(self) == *old(self),
            outcome != Err::<(), RtError>(RtError::Reentrancy) ==> (exists|
                given: &mut Executor,
                full: &mut Context,
            |
                scoped(
                    setup,
                    old(self).executor(),
                    given,
                    full,
                    *final(given),
                    final(self).executor(),
                    outcome is Ok,
                )),
            outcome is Ok ==> final(self).tasks() == Seq::<Task>::empty(),
            outcome == Err::<(), RtError>(RtError::Run) ==> final(self).tasks().len() > 0,
            outcome matches Err(e) ==> e == RtError::Reentrancy || e == RtError::Run,
    {
        match permit {
            Err(_) => Err(RtError::Reentrancy),
            Ok(mut enter) => {
                if ctx.has_layer(Layer::Permit) {
                    Err(RtError::Reentrancy)
                } else {
                    let before = ctx.snapshot();
                    proof {
                        lemma_no_permit_is_idle(*ctx);
                    }
                    ctx.install(Layer::Permit);
                    proof {
                        lemma_through_is_ready(*ctx, Layer::Permit, Layer::Reactor);
                    }
                    let outcome = with_reactor(
                        &self.reactor_handle,
                        &self.clock,
                        &self.timer_handle,
                        &mut self.executor,
                        ctx,
                        &mut enter,
                        setup,
                    );
                    *ctx = before;
                    outcome
                }
            },
        }
    }

    /// Enters this runtime on the calling thread, runs `setup` and drains the
    /// executor.
    ///
    /// Where the context shows that a scope is already entered, the call fails
    /// with `Reentrancy` before anything is asked of the thread. Otherwise it
    /// asks for the thread's permit and goes on as `run_with_permit` does.
    /// However the call ends, the context is left as it was found.
    ///
    /// The tasks that `setup` spawns are not polled before `setup` has
    /// returned. A task that fails has come to its end like one that completes:
    /// its failure is not reported, and the other tasks go on. The call returns
    /// `Ok` once no task is left, and `Run` where the thread could not be
    /// parked while tasks were waiting.
    ///
    /// The call panics where other code has set a default clock, reactor,
    /// timer or executor on the thread: the context records only what this
    /// library has installed. It lasts as long as a task is waiting to be
    /// woken.
    pub fn run<F>(&mut self, ctx: &mut Context, setup: F) -> (outcome: Result<(), RtError>) where
        F: FnOnce(&mut Executor, &mut Context),
        requires
            accepts(setup),
        ensures
            *final(ctx) == *old(ctx),
            final(self).same_wiring(old(self)),
            old(ctx).has(Layer::Permit) ==> outcome == Err::<(), RtError>(RtError::Reentrancy),
            outcome == Err::<(), RtError>(RtError::Reentrancy) ==> *final(self) == *old(self),
            outcome != Err::<(), RtError>(RtError::Reentrancy) ==> (exists|
                given: &mut Executor,
                full: &mut Context,
            |
                scoped(
                    setup,
                    old(self).executor(),
                    given,
                    full,
                    *final(given),
                    final(self).executor(),
                    outcome is Ok,
                )),
            outcome is Ok ==> final(self).tasks() == Seq::<Task>::empty(),
            outcome == Err::<(), RtError>(RtError::Run) ==> final(self).tasks().len() > 0,
            outcome matches Err(e) ==> e == RtError::Reentrancy || e == RtError::Run,
    {
        if ctx.has_layer(Layer::Permit) {
            Err(RtError::Reentrancy)
        } else {
            self.run_with_permit(ctx, acquire(), setup)
        }
    }
}

} // verus!
