//! The ambient context of a thread, as an explicit value.
//!
//! A scope is built from six layers that go on in a fixed order and come off
//! in the reverse order. A [`Context`] records which of them this library has
//! installed on the thread that owns it. The timer is wired to the reactor and
//! the executor parks on the timer, so a layer may only go on once every layer
//! outside it is in place: a context never holds a layer without the ones
//! outside it.
//!
//! The record is kept by the library alone. What other code sets on the thread
//! without going through a [`Context`] is not seen here, and a context that is
//! taken out of a scope goes on saying what was installed when it was taken.

use vstd::prelude::*;

verus! {

/// One layer of a scope, listed from the outermost to the innermost.
#[derive(Clone, Copy, Debug, PartialEq, Eq, Structural)]
pub enum Layer {
    /// The permit to drive an executor on this thread.
    Permit,
    /// The default reactor handle.
    Reactor,
    /// The default clock.
    Clock,
    /// The default timer handle.
    Timer,
    /// The default sink for spawned tasks.
    Spawner,
    /// The executor, bound to the permit.
    Executor,
}

impl Layer {
    /// The position of the layer, counted from the outermost.
    pub open spec fn rank(self) -> nat {
        match self {
            Layer::Permit => 0,
            Layer::Reactor => 1,
            Layer::Clock => 2,
            Layer::Timer => 3,
            Layer::Spawner => 4,
            Layer::Executor => 5,
        }
    }

    /// The layer that has to be in place before this one goes on.
    pub open spec fn outer(self) -> Option<Layer> {
        match self {
            Layer::Permit => None,
            Layer::Reactor => Some(Layer::Permit),
            Layer::Clock => Some(Layer::Reactor),
            Layer::Timer => Some(Layer::Clock),
            Layer::Spawner => Some(Layer::Timer),
            Layer::Executor => Some(Layer::Spawner),
        }
    }
}

/// Which layers are installed on a thread. A context belongs to the thread
/// that made it, and cannot be copied.
#[derive(Debug, PartialEq, Eq, Structural)]
pub struct Context {
    permit: bool,
    reactor: bool,
    clock: bool,
    timer: bool,
    spawner: bool,
    executor: bool,
}

impl Context {
    /// Whether `layer` is installed.
    pub closed spec fn has(self, layer: Layer) -> bool {
        match layer {
            Layer::Permit => self.permit,
            Layer::Reactor => self.reactor,
            Layer::Clock => self.clock,
            Layer::Timer => self.timer,
            Layer::Spawner => self.spawner,
            Layer::Executor => self.executor,
        }
    }

    /// Every context is well formed: each layer rests on the one outside it.
    #[verifier::type_invariant]
    closed spec fn nested(self) -> bool {
        &&& self.reactor ==> self.permit
        &&& self.clock ==> self.reactor
        &&& self.timer ==> self.clock
        &&& self.spawner ==> self.timer
        &&& self.executor ==> self.spawner
    }

    /// No layer is installed unless the one outside it is.
    pub open spec fn wf(self) -> bool {
        forall|layer: Layer| #[trigger]
            self.has(layer) ==> match layer.outer() {
                Some(outer) => self.has(outer),
                None => true,
            }
    }

    /// Nothing is installed.
    pub open spec fn idle(self) -> bool {
        forall|layer: Layer| !#[trigger] self.has(layer)
    }

    /// Every layer is installed: the state in which a setup runs.
    pub open spec fn full(self) -> bool {
        forall|layer: Layer| #[trigger] self.has(layer)
    }

    /// Exactly the layers outside `layer` are installed.
    pub open spec fn ready_for(self, layer: Layer) -> bool {
        forall|other: Layer| #[trigger] self.has(other) <==> other.rank() < layer.rank()
    }

    /// Exactly `layer` and the layers outside it are installed.
    pub open spec fn through(self, layer: Layer) -> bool {
        forall|other: Layer| #[trigger] self.has(other) <==> other.rank() <= layer.rank()
    }

    /// The context of a thread on which nothing is installed.
    pub fn new() -> (ctx: Context)
        ensures
            ctx.idle(),
            ctx.wf(),
    {
        Context {
            permit: false,
            reactor: false,
            clock: false,
            timer: false,
            spawner: false,
            executor: false,
        }
    }

    /// Probes the context for one layer.
    pub fn has_layer(&self, layer: Layer) -> (installed: bool)
        ensures
            installed == self.has(layer),
            self.wf(),
    {
        proof {
            use_type_invariant(self);
            assert forall|inner: Layer| #[trigger] self.has(inner) implies match inner.outer() {
                Some(outer) => self.has(outer),
                None => true,
            } by {}
        }
        match layer {
            Layer::Permit => self.permit,
            Layer::Reactor => self.reactor,
            Layer::Clock => self.clock,
            Layer::Timer => self.timer,
            Layer::Spawner => self.spawner,
            Layer::Executor => self.executor,
        }
    }

    /// A record of what is installed now, to go back to when a layer comes
    /// off.
    pub(crate) fn snapshot(&self) -> (copy: Context)
        ensures
            copy == *self,
    {
        proof {
            use_type_invariant(self);
        }
        Context {
            permit: self.permit,
            reactor: self.reactor,
            clock: self.clock,
            timer: self.timer,
            spawner: self.spawner,
            executor: self.executor,
        }
    }

    /// Puts `layer` on top of the layers outside it.
    pub(crate) fn install(&mut self, layer: Layer)
        requires
            old(self).ready_for(layer),
        ensures
            final(self).through(layer),
            final(self).wf(),
    {
        proof {
            assert(self.has(Layer::Permit) <==> Layer::Permit.rank() < layer.rank());
            assert(self.has(Layer::Reactor) <==> Layer::Reactor.rank() < layer.rank());
            assert(self.has(Layer::Clock) <==> Layer::Clock.rank() < layer.rank());
            assert(self.has(Layer::Timer) <==> Layer::Timer.rank() < layer.rank());
            assert(self.has(Layer::Spawner) <==> Layer::Spawner.rank() < layer.rank());
            assert(self.has(Layer::Executor) <==> Layer::Executor.rank() < layer.rank());
        }
        match layer {
            Layer::Permit => {
                self.permit = true;
            },
            Layer::Reactor => {
                self.reactor = true;
            },
            Layer::Clock => {
                self.clock = true;
            },
            Layer::Timer => {
                self.timer = true;
            },
            Layer::Spawner => {
                self.spawner = true;
            },
            Layer::Executor => {
                self.executor = true;
            },
        }
        proof {
            assert(forall|other: Layer| #[trigger]
                self.has(other) <==> (other == layer || old(self).has(other)));
            lemma_prefix_is_well_formed(*self, layer);
        }
    }
}

/// The layers of a scope nest: a context that holds exactly the layers outside
/// one layer, or exactly the layers up to one layer, is well formed.
pub proof fn lemma_prefix_is_well_formed(ctx: Context, layer: Layer)
    requires
        ctx.ready_for(layer) || ctx.through(layer),
    ensures
        ctx.wf(),
{
    assert forall|inner: Layer| #[trigger] ctx.has(inner) implies match inner.outer() {
        Some(outer) => ctx.has(outer),
        None => true,
    } by {
        match inner.outer() {
            Some(outer) => {
                assert(outer.rank() < inner.rank());
                assert(ctx.has(outer));
            },
            None => {},
        }
    }
}

/// A well-formed context without the permit holds nothing at all.
pub proof fn lemma_no_permit_is_idle(ctx: Context)
    requires
        ctx.wf(),
        !ctx.has(Layer::Permit),
    ensures
        ctx.idle(),
        ctx.ready_for(Layer::Permit),
{
    assert(!ctx.has(Layer::Reactor)) by {
        assert(Layer::Reactor.outer() == Some(Layer::Permit));
    }
    assert(!ctx.has(Layer::Clock)) by {
        assert(Layer::Clock.outer() == Some(Layer::Reactor));
    }
    assert(!ctx.has(Layer::Timer)) by {
        assert(Layer::Timer.outer() == Some(Layer::Clock));
    }
    assert(!ctx.has(Layer::Spawner)) by {
        assert(Layer::Spawner.outer() == Some(Layer::Timer));
    }
    assert(!ctx.has(Layer::Executor)) by {
        assert(Layer::Executor.outer() == Some(Layer::Spawner));
    }
}

/// Once one layer is on, the context is ready for the layer inside it.
pub proof fn lemma_through_is_ready(ctx: Context, layer: Layer, next: Layer)
    requires
        ctx.through(layer),
        next.outer() == Some(layer),
    ensures
        ctx.ready_for(next),
{
    assert forall|other: Layer| #[trigger] ctx.has(other) <==> other.rank() < next.rank() by {
        assert(next.rank() == layer.rank() + 1);
    }
}

/// A scope shuts out every other: the context in which a setup runs holds the
/// permit, so it is not idle, and whoever asks for the permit from inside the
/// scope finds it taken.
pub proof fn lemma_scope_is_exclusive(ctx: Context)
    requires
        ctx.full(),
    ensures
        ctx.wf(),
        ctx.has(Layer::Permit),
        !ctx.idle(),
{
}

/// A context is full exactly when the innermost layer is on top of all others.
pub proof fn lemma_full_is_through_executor(ctx: Context)
    ensures
        ctx.full() <==> ctx.through(Layer::Executor),
{
    if ctx.full() {
        assert forall|other: Layer| #[trigger]
            ctx.has(other) <==> other.rank() <= Layer::Executor.rank() by {}
    }
    if ctx.through(Layer::Executor) {
        assert forall|other: Layer| #[trigger] ctx.has(other) by {
            assert(other.rank() <= Layer::Executor.rank());
        }
    }
}

} // verus!
