//! A single-threaded runtime: one clock, one reactor, one timer and one
//! executor, bound together and installed as the ambient defaults of the
//! calling thread for the length of a scope.
//!
//! The clock, the reactor, the timer and the executor are those of the tokio
//! crates; this library is what binds them. [`Rt::new`] wires them to one
//! another. [`Rt::run`] takes the thread's permit, installs the layers of a
//! scope from the outermost to the innermost, runs the caller's setup, drains
//! the executor and takes the layers off again.
//!
//! What is ambient on a thread is an explicit value, [`Context`], that is
//! handed to every operation which reads or changes it. The contracts say how
//! a scope treats it: a scope is entered only from an idle context, the setup
//! sees every layer in place, and the context is handed back as it was found.
//! What the executor holds is stated over [`executor::tasks`]: inside a scope
//! a spawned task goes to the back of the list, outside of one it is refused,
//! and a run that ends well leaves no task unfinished.

pub mod bindings;
pub mod context;
pub mod error;
pub mod executor;
pub mod runtime;
pub mod spawn;

pub use context::{Context, Layer};
pub use error::RtError;
pub use executor::{Executor, Task};
pub use runtime::Rt;
pub use spawn::spawn_with_default;
