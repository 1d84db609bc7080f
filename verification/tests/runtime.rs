use std::cell::Cell;
use std::rc::Rc;
use std::time::{Duration, Instant};

use futures::Future;
use local_rt::{spawn_with_default, Context, Executor, Layer, Rt, RtError, Task};
use tokio_executor::Executor as Sink;

const LAYERS: [Layer; 6] = [
    Layer::Permit,
    Layer::Reactor,
    Layer::Clock,
    Layer::Timer,
    Layer::Spawner,
    Layer::Executor,
];

fn task<F>(future: F) -> Task
where
    F: Future<Item = (), Error = ()> + 'static,
{
    Task { future: Box::new(future) }
}

fn flag() -> (Rc<Cell<bool>>, Rc<Cell<bool>>) {
    let flag = Rc::new(Cell::new(false));
    (flag.clone(), flag)
}

fn setting(flag: Rc<Cell<bool>>) -> Task {
    task(futures::future::lazy(move || {
        flag.set(true);
        Ok(())
    }))
}

#[test]
fn test_it() {
    let ctx = Context::new();
    let mut rt = Rt::new().expect("creating reactor failed");
    assert_eq!(
        spawn_with_default(&ctx, rt.executor_mut()),
        Err(RtError::NoActiveExecutor)
    );
    assert!(rt.is_idle());
}

#[test]
fn test_it_with_rt() {
    let mut ctx = Context::new();
    let mut rt = Rt::new().expect("creating reactor failed");
    let answer = Rc::new(Cell::new(None));
    let seen = answer.clone();
    let outcome = rt.run(&mut ctx, move |executor: &mut Executor, ctx: &mut Context| {
        seen.set(Some(spawn_with_default(ctx, executor)));
    });
    assert_eq!(answer.get(), Some(Ok(())));
    assert_eq!(outcome, Ok(()));
    assert!(rt.is_idle());
}

#[test]
fn spawn_with_default_queues_the_task_without_polling_it() {
    let mut ctx = Context::new();
    let mut rt = Rt::new().expect("creating reactor failed");
    let (idle_before, seen_before) = flag();
    let (idle_after, seen_after) = flag();
    let outcome = rt.run(&mut ctx, move |executor: &mut Executor, ctx: &mut Context| {
        idle_before.set(executor.is_idle());
        assert_eq!(spawn_with_default(ctx, executor), Ok(()));
        idle_after.set(executor.is_idle());
    });
    assert_eq!(outcome, Ok(()));
    assert!(seen_before.get());
    assert!(!seen_after.get());
    assert!(rt.is_idle());
}

#[test]
fn spawn_outside_of_a_scope_is_refused_and_changes_nothing() {
    let ctx = Context::new();
    let mut rt = Rt::new().expect("creating reactor failed");
    let (ran, seen) = flag();
    assert_eq!(
        rt.executor_mut().spawn(&ctx, setting(ran)),
        Err(RtError::NoActiveExecutor)
    );
    assert_eq!(
        rt.executor_mut().spawn_ready(&ctx, Ok(())),
        Err(RtError::NoActiveExecutor)
    );
    assert!(rt.is_idle());
    let mut ctx = ctx;
    assert_eq!(rt.run(&mut ctx, |_, _| {}), Ok(()));
    assert!(!seen.get());
}

#[test]
fn new_runtime_is_idle() {
    let rt = Rt::new().expect("creating reactor failed");
    assert!(rt.is_idle());
}

#[test]
fn assemble_without_reactor_is_init_error() {
    let clock = tokio_timer::clock::Clock::new();
    let failure = std::io::Error::new(std::io::ErrorKind::Other, "no descriptors left");
    let built = Rt::assemble(clock, Err(failure));
    assert!(matches!(built, Err(RtError::Init)));
}

#[test]
fn assemble_with_reactor_builds_idle_runtime() {
    let clock = tokio_timer::clock::Clock::new();
    let built = Rt::assemble(clock, tokio_reactor::Reactor::new());
    match built {
        Ok(rt) => assert!(rt.is_idle()),
        Err(e) => panic!("{}", e.message()),
    }
}

#[test]
fn ready_task_completes_before_run_returns() {
    let mut ctx = Context::new();
    let mut rt = Rt::new().expect("creating reactor failed");
    let idle_in_setup = Rc::new(Cell::new(true));
    let seen = idle_in_setup.clone();
    let outcome = rt.run(&mut ctx, move |executor: &mut Executor, ctx: &mut Context| {
        assert_eq!(executor.spawn_ready(ctx, Ok(())), Ok(()));
        seen.set(executor.is_idle());
    });
    assert_eq!(outcome, Ok(()));
    assert!(!idle_in_setup.get());
    assert!(rt.is_idle());
}

#[test]
fn spawned_task_is_not_run_during_setup() {
    let mut ctx = Context::new();
    let mut rt = Rt::new().expect("creating reactor failed");
    let (polled, probe) = flag();
    let after_run = probe.clone();
    let (polled_in_setup, seen) = flag();
    let outcome = rt.run(&mut ctx, move |executor: &mut Executor, ctx: &mut Context| {
        assert_eq!(executor.spawn(ctx, setting(polled)), Ok(()));
        seen.set(probe.get());
        assert!(!executor.is_idle());
    });
    assert_eq!(outcome, Ok(()));
    assert!(!polled_in_setup.get());
    assert!(after_run.get());
    assert!(rt.is_idle());
}

#[test]
fn failed_task_does_not_abort_its_siblings() {
    let mut ctx = Context::new();
    let mut rt = Rt::new().expect("creating reactor failed");
    let (first, first_ran) = flag();
    let (last, last_ran) = flag();
    let outcome = rt.run(&mut ctx, move |executor: &mut Executor, ctx: &mut Context| {
        assert_eq!(executor.spawn(ctx, setting(first)), Ok(()));
        assert_eq!(executor.spawn_ready(ctx, Err(())), Ok(()));
        assert_eq!(executor.spawn(ctx, setting(last)), Ok(()));
    });
    assert_eq!(outcome, Ok(()));
    assert!(first_ran.get());
    assert!(last_ran.get());
    assert!(rt.is_idle());
}

#[test]
fn tasks_are_polled_in_the_order_of_spawning() {
    let mut ctx = Context::new();
    let mut rt = Rt::new().expect("creating reactor failed");
    let order = Rc::new(Cell::new(0u32));
    let (a, b, c) = (order.clone(), order.clone(), order.clone());
    let outcome = rt.run(&mut ctx, move |executor: &mut Executor, ctx: &mut Context| {
        let first = task(futures::future::lazy(move || {
            a.set(a.get() * 10 + 1);
            Ok(())
        }));
        let second = task(futures::future::lazy(move || {
            b.set(b.get() * 10 + 2);
            Ok(())
        }));
        let third = task(futures::future::lazy(move || {
            c.set(c.get() * 10 + 3);
            Ok(())
        }));
        assert_eq!(executor.spawn(ctx, first), Ok(()));
        assert_eq!(executor.spawn(ctx, second), Ok(()));
        assert_eq!(spawn_with_default(ctx, executor), Ok(()));
        assert_eq!(executor.spawn(ctx, third), Ok(()));
    });
    assert_eq!(outcome, Ok(()));
    assert_eq!(order.get(), 123);
}

#[test]
fn nested_run_fails_with_reentrancy() {
    let mut ctx = Context::new();
    let mut outer = Rt::new().expect("creating reactor failed");
    let mut inner = Rt::new().expect("creating reactor failed");
    let inner_outcome = Rc::new(Cell::new(None));
    let inner_setup_ran = Rc::new(Cell::new(false));
    let (seen, ran) = (inner_outcome.clone(), inner_setup_ran.clone());
    let outcome = outer.run(&mut ctx, move |_, ctx: &mut Context| {
        let nested = inner.run(ctx, move |_, _| ran.set(true));
        seen.set(Some(nested));
    });
    assert_eq!(outcome, Ok(()));
    assert_eq!(inner_outcome.get(), Some(Err(RtError::Reentrancy)));
    assert!(!inner_setup_ran.get());
}

#[test]
fn nested_run_with_a_new_context_fails_with_reentrancy() {
    let mut ctx = Context::new();
    let mut outer = Rt::new().expect("creating reactor failed");
    let mut inner = Rt::new().expect("creating reactor failed");
    let inner_outcome = Rc::new(Cell::new(None));
    let seen = inner_outcome.clone();
    let outcome = outer.run(&mut ctx, move |_, _| {
        let mut other = Context::new();
        seen.set(Some(inner.run(&mut other, |_, _| {})));
    });
    assert_eq!(outcome, Ok(()));
    assert_eq!(inner_outcome.get(), Some(Err(RtError::Reentrancy)));
}

#[test]
fn run_with_refused_permit_fails_with_reentrancy() {
    let held = tokio_executor::enter().expect("the permit is free");
    let refused = tokio_executor::enter();
    assert!(refused.is_err());
    let mut ctx = Context::new();
    let mut rt = Rt::new().expect("creating reactor failed");
    let (ran, setup_ran) = flag();
    let outcome = rt.run_with_permit(&mut ctx, refused, move |_, _| ran.set(true));
    assert_eq!(outcome, Err(RtError::Reentrancy));
    assert!(!setup_ran.get());
    assert_eq!(ctx, Context::new());
    drop(held);
}

#[test]
fn run_with_granted_permit_runs_the_scope() {
    let permit = tokio_executor::enter();
    assert!(permit.is_ok());
    let mut ctx = Context::new();
    let mut rt = Rt::new().expect("creating reactor failed");
    let (ran, setup_ran) = flag();
    let outcome = rt.run_with_permit(
        &mut ctx,
        permit,
        move |executor: &mut Executor, ctx: &mut Context| {
            assert_eq!(spawn_with_default(ctx, executor), Ok(()));
            ran.set(true);
        },
    );
    assert_eq!(outcome, Ok(()));
    assert!(setup_ran.get());
    assert!(rt.is_idle());
    assert!(tokio_executor::enter().is_ok());
}

#[test]
fn run_with_granted_permit_and_empty_setup_ends_well() {
    let permit = tokio_executor::enter();
    assert!(permit.is_ok());
    let mut ctx = Context::new();
    let mut rt = Rt::new().expect("creating reactor failed");
    assert_eq!(rt.run_with_permit(&mut ctx, permit, |_, _| {}), Ok(()));
    assert!(rt.is_idle());
}

#[test]
fn run_while_another_executor_holds_the_thread_fails() {
    let held = tokio_executor::enter().expect("the permit is free");
    let mut ctx = Context::new();
    let mut rt = Rt::new().expect("creating reactor failed");
    let outcome = rt.run(&mut ctx, |_, _| {});
    assert_eq!(outcome, Err(RtError::Reentrancy));
    drop(held);
    assert_eq!(rt.run(&mut ctx, |_, _| {}), Ok(()));
}

#[test]
fn context_is_restored_after_run() {
    let mut ctx = Context::new();
    let mut rt = Rt::new().expect("creating reactor failed");
    let full_in_setup = Rc::new(Cell::new(false));
    let seen = full_in_setup.clone();
    let outcome = rt.run(&mut ctx, move |_, ctx: &mut Context| {
        seen.set(LAYERS.iter().all(|layer| ctx.has_layer(*layer)));
    });
    assert_eq!(outcome, Ok(()));
    assert!(full_in_setup.get());
    assert_eq!(ctx, Context::new());
    assert!(LAYERS.iter().all(|layer| !ctx.has_layer(*layer)));
}

#[test]
fn context_is_restored_after_failed_run() {
    let held = tokio_executor::enter().expect("the permit is free");
    let mut ctx = Context::new();
    let mut rt = Rt::new().expect("creating reactor failed");
    assert_eq!(rt.run(&mut ctx, |_, _| {}), Err(RtError::Reentrancy));
    assert_eq!(ctx, Context::new());
    drop(held);
}

#[test]
fn thread_defaults_are_set_in_setup_and_cleared_after() {
    let mut ctx = Context::new();
    let mut rt = Rt::new().expect("creating reactor failed");
    let (sink_set, seen_sink) = flag();
    let (permit_taken, seen_permit) = flag();
    let outcome = rt.run(&mut ctx, move |_, _| {
        sink_set.set(Sink::status(&tokio_executor::DefaultExecutor::current()).is_ok());
        permit_taken.set(tokio_executor::enter().is_err());
    });
    assert_eq!(outcome, Ok(()));
    assert!(seen_sink.get());
    assert!(seen_permit.get());
    assert!(tokio_executor::enter().is_ok());
    let mut other = Rt::new().expect("creating reactor failed");
    assert_eq!(other.run(&mut ctx, |_, _| {}), Ok(()));
}

#[test]
fn delay_fires_on_the_runtime_timer() {
    let mut ctx = Context::new();
    let mut rt = Rt::new().expect("creating reactor failed");
    let (fired, seen) = flag();
    let started = Instant::now();
    let outcome = rt.run(&mut ctx, move |executor: &mut Executor, ctx: &mut Context| {
        let delay = tokio_timer::Delay::new(Instant::now() + Duration::from_millis(30));
        let waiting = task(delay.then(move |elapsed| {
            fired.set(elapsed.is_ok());
            Ok(())
        }));
        assert_eq!(executor.spawn(ctx, waiting), Ok(()));
    });
    assert_eq!(outcome, Ok(()));
    assert!(seen.get());
    assert!(started.elapsed() >= Duration::from_millis(30));
    assert!(rt.is_idle());
}

#[test]
fn task_spawns_through_the_thread_sink_while_polled() {
    let mut ctx = Context::new();
    let mut rt = Rt::new().expect("creating reactor failed");
    let (child_ran, seen) = flag();
    let outcome = rt.run(&mut ctx, move |executor: &mut Executor, ctx: &mut Context| {
        let parent = task(futures::future::lazy(move || {
            tokio_current_thread::spawn(futures::future::lazy(move || {
                child_ran.set(true);
                Ok(())
            }));
            Ok(())
        }));
        assert_eq!(executor.spawn(ctx, parent), Ok(()));
    });
    assert_eq!(outcome, Ok(()));
    assert!(seen.get());
    assert!(rt.is_idle());
}

#[test]
fn runtime_can_be_entered_again() {
    let mut ctx = Context::new();
    let mut rt = Rt::new().expect("creating reactor failed");
    let count = Rc::new(Cell::new(0u32));
    for _ in 0..3 {
        let seen = count.clone();
        let outcome = rt.run(&mut ctx, move |executor: &mut Executor, ctx: &mut Context| {
            let counting = task(futures::future::lazy(move || {
                seen.set(seen.get() + 1);
                Ok(())
            }));
            assert_eq!(executor.spawn(ctx, counting), Ok(()));
        });
        assert_eq!(outcome, Ok(()));
    }
    assert_eq!(count.get(), 3);
}

#[test]
fn finished_drain_is_success() {
    assert_eq!(Rt::drained(Ok(())), Ok(()));
}

#[test]
fn new_context_holds_no_layer() {
    let ctx = Context::new();
    for layer in LAYERS.iter() {
        assert!(!ctx.has_layer(*layer));
    }
}

#[test]
fn error_messages() {
    assert_eq!(RtError::Init.message(), "creating reactor failed");
    assert_eq!(RtError::Reentrancy.message(), "Multiple executors at once");
    assert_eq!(RtError::NoActiveExecutor.message(), "no active executor");
    assert_eq!(RtError::Run.message(), "exited main executor");
}
