//! The types of the runtime's collaborators, and the calls that build them.
//!
//! Nothing in this file is proved. Each function makes one call into a
//! collaborator and its contract, where it has one, is taken on trust.

use vstd::prelude::*;

verus! {

/// A handle to a source of time.
#[verifier::external_type_specification]
#[verifier::external_body]
pub struct ExClock(tokio_timer::clock::Clock);

/// The event loop that polls the operating system for readiness.
#[verifier::external_type_specification]
#[verifier::external_body]
pub struct ExReactor(tokio_reactor::Reactor);

/// A shareable reference to a reactor.
#[verifier::external_type_specification]
#[verifier::external_body]
pub struct ExReactorHandle(tokio_reactor::Handle);

/// The timer wheel, parked on `T` and reading the time from `N`.
#[verifier::external_type_specification]
#[verifier::external_body]
#[verifier::reject_recursive_types(T)]
#[verifier::reject_recursive_types(N)]
pub struct ExTimer<T, N>(tokio_timer::Timer<T, N>);

/// A shareable reference to a timer.
#[verifier::external_type_specification]
#[verifier::external_body]
pub struct ExTimerHandle(tokio_timer::timer::Handle);

/// The permit to drive an executor on the current thread.
#[verifier::external_type_specification]
#[verifier::external_body]
pub struct ExEnter(tokio_executor::Enter);

/// The refusal of a permit.
#[verifier::external_type_specification]
#[verifier::external_body]
pub struct ExEnterError(tokio_executor::EnterError);

/// The failure of an executor to block its thread.
#[verifier::external_type_specification]
#[verifier::external_body]
pub struct ExRunError(tokio_current_thread::RunError);

/// The sink that hands tasks to the executor which is polling on this thread.
#[verifier::external_type_specification]
#[verifier::external_body]
pub struct ExTaskExecutor(tokio_current_thread::TaskExecutor);

/// The failure of an operating-system call.
#[verifier::external_type_specification]
#[verifier::external_body]
pub struct ExIoError(std::io::Error);

/// `Clock::new`: the clock of the current execution context, or the system
/// clock where none is set. Nothing is claimed of it.
#[verifier::external_body]
pub(crate) fn fresh_clock() -> (clock: tokio_timer::clock::Clock) {
    tokio_timer::clock::Clock::new()
}

/// `Clock::clone`: a second handle to the same source of time. Nothing is
/// claimed of it.
#[verifier::external_body]
pub(crate) fn share_clock(clock: &tokio_timer::clock::Clock) -> (shared: tokio_timer::clock::Clock) {
    clock.clone()
}

/// `Reactor::new`: asks the operating system for an event loop. Whether it
/// succeeds depends on the machine, so nothing is claimed of the result.
#[verifier::external_body]
pub(crate) fn open_reactor() -> (reactor: Result<tokio_reactor::Reactor, std::io::Error>) {
    tokio_reactor::Reactor::new()
}

/// `Reactor::handle`: a handle that refers to `reactor`. Nothing is claimed of
/// it.
#[verifier::external_body]
pub(crate) fn reactor_handle(reactor: &tokio_reactor::Reactor) -> (handle: tokio_reactor::Handle) {
    reactor.handle()
}

/// `Timer::new_with_now`: a timer that parks on `reactor` and reads the time
/// from `clock`. Nothing is claimed of it.
#[verifier::external_body]
pub(crate) fn wheel(reactor: tokio_reactor::Reactor, clock: tokio_timer::clock::Clock) -> (timer:
    tokio_timer::Timer<tokio_reactor::Reactor, tokio_timer::clock::Clock>) {
    tokio_timer::Timer::new_with_now(reactor, clock)
}

/// `Timer::handle`: a handle that refers to `timer`. Nothing is claimed of it.
#[verifier::external_body]
pub(crate) fn timer_handle(
    timer: &tokio_timer::Timer<tokio_reactor::Reactor, tokio_timer::clock::Clock>,
) -> (handle: tokio_timer::timer::Handle) {
    timer.handle()
}

/// `tokio_executor::enter`: takes the thread's permit, or fails where it is
/// already taken. The permit is a flag of the thread and not of any argument,
/// so nothing is claimed of the result.
#[verifier::external_body]
pub(crate) fn acquire() -> (permit: Result<tokio_executor::Enter, tokio_executor::EnterError>) {
    tokio_executor::enter()
}

/// `TaskExecutor::current`: a sink that refers to whichever executor is
/// polling on this thread at the moment a task is handed to it. Nothing is
/// claimed of it.
#[verifier::external_body]
pub(crate) fn current_sink() -> (sink: tokio_current_thread::TaskExecutor) {
    tokio_current_thread::TaskExecutor::current()
}

} // verus!
