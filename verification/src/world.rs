use vstd::prelude::*;

use crate::buffer::CommandBuffer;
use crate::component::Component;
use crate::errors::EcsError;
use crate::registry::Registry;
use crate::store::{EntityId, Store};

verus! {

/// The run state of a world: `run` is the single transition from
/// `Uninitialized` through `Running` to `Finished`.
#[derive(Clone, Copy, Debug, PartialEq, Eq, Structural)]
pub enum Phase {
    /// Built, not yet run.
    Uninitialized,
    /// Startup systems are being executed.
    Running,
    /// `run` has returned; a second call is a caller error.
    Finished,
}

/// A one-shot startup system. `World::run` calls it exactly once, with
/// read access to the registry and store and with a fresh command
/// buffer; its only externally visible effect is the sequence of spawn
/// calls it makes on that buffer, which the world flushes into the
/// store after the call returns.
pub trait StartupSystem {
    /// Records this system's spawn commands on `buf`.
    fn call(&self, registry: &Registry, store: &Store, buf: &mut CommandBuffer);
}

/// The top-level orchestration object: owns the registry, the entity
/// store and the startup-system list, and is the only type a caller
/// touches directly.
pub struct World<S: StartupSystem> {
    registry: Registry,
    store: Store,
    systems: Vec<S>,
    phase: Phase,
}

impl<S: StartupSystem> World<S> {
    /// The world's run state.
    pub closed spec fn phase(self) -> Phase {
        self.phase
    }

    /// The world's entity store.
    pub closed spec fn store_of(self) -> Store {
        self.store
    }

    /// The world's component registry.
    pub closed spec fn registry_of(self) -> Registry {
        self.registry
    }

    /// The registered startup systems, in registration order.
    pub closed spec fn systems_of(self) -> Seq<S> {
        self.systems@
    }

    /// A world is well formed when its registry is.
    pub open spec fn wf(self) -> bool {
        self.registry_of().wf()
    }

    /// Returns a world with an empty store, an empty registry and an
    /// empty startup-system list, which has not yet run.
    pub fn new() -> (w: World<S>)
        ensures
            w.wf(),
            w.phase() == Phase::Uninitialized,
            w.store_of().slot_count() == 0,
            w.store_of().spec_live_count() == 0,
            forall|i: int| !w.store_of().live_at(i),
            forall|i: int, t: int| w.store_of().comp(i, t) == None::<Component>,
            w.registry_of()@ == Seq::<u64>::empty(),
            w.systems_of() == Seq::<S>::empty(),
    {
        let w = World {
            registry: Registry::new(),
            store: Store::new(),
            systems: Vec::new(),
            phase: Phase::Uninitialized,
        };
        proof {
            assert(w.systems_of() =~= Seq::<S>::empty());
        }
        w
    }

    /// Appends a startup system to the startup list; builder-style, it
    /// returns the world for chaining and changes nothing else.
    pub fn add_startup_system(self, system: S) -> (w: World<S>)
        ensures
            w.phase() == self.phase(),
            w.store_of() == self.store_of(),
            w.registry_of() == self.registry_of(),
            w.systems_of() == self.systems_of().push(system),
    {
        let mut w = self;
        w.systems.push(system);
        w
    }

    /// Executes each registered startup system exactly once, in
    /// registration order. Each system receives its own fresh command
    /// buffer, flushed into the store after the system returns and
    /// before the next system runs, so startup systems observe each
    /// other's spawned entities. Succeeds exactly when the world has
    /// not run before; a second call fails with `AlreadyRun` and
    /// changes nothing. A run only ever adds entities: whatever the
    /// store held before keeps its id, its liveness and its components,
    /// and every registered component type keeps its id.
    pub fn run(&mut self) -> (r: Result<(), EcsError>)
        requires
            old(self).wf(),
        ensures
            final(self).wf(),
            final(self).systems_of() == old(self).systems_of(),
            old(self).phase() == Phase::Uninitialized ==> r == Ok::<(), EcsError>(())
                && final(self).phase() == Phase::Finished,
            old(self).phase() != Phase::Uninitialized ==> r == Err::<(), EcsError>(
                EcsError::AlreadyRun,
            ) && *final(self) == *old(self),
            final(self).store_of().slot_count() >= old(self).store_of().slot_count(),
            forall|q: int|
                0 <= q < old(self).store_of().slot_count() ==> final(self).store_of().live_at(q)
                    == old(self).store_of().live_at(q),
            forall|q: int, t: int|
                0 <= q < old(self).store_of().slot_count() ==> final(self).store_of().comp(q, t)
                    == old(self).store_of().comp(q, t),
            final(self).registry_of()@.len() >= old(self).registry_of()@.len(),
            forall|t: int|
                0 <= t < old(self).registry_of()@.len() ==> final(self).registry_of()@[t] == old(
                    self,
                ).registry_of()@[t],
    {
        match self.phase {
            Phase::Uninitialized => {},
            _ => {
                return Err(EcsError::AlreadyRun);
            },
        }
        self.phase = Phase::Running;
        let n = self.systems.len();
        let mut i: usize = 0;
        while i < n
            invariant
                i <= n,
                n == self.systems@.len(),
                self.systems@ == old(self).systems@,
                self.registry.wf(),
                self.registry@.len() >= old(self).registry@.len(),
                forall|t: int|
                    0 <= t < old(self).registry@.len() ==> self.registry@[t] == old(
                        self,
                    ).registry@[t],
                self.store.slot_count() >= old(self).store.slot_count(),
                forall|q: int|
                    0 <= q < old(self).store.slot_count() ==> self.store.live_at(q) == old(
                        self,
                    ).store.live_at(q),
                forall|q: int, t: int|
                    0 <= q < old(self).store.slot_count() ==> self.store.comp(q, t) == old(
                        self,
                    ).store.comp(q, t),
            decreases n - i,
        {
            let mut buf = CommandBuffer::new();
            let system = &self.systems[i];
            system.call(&self.registry, &self.store, &mut buf);
            let _ids = buf.flush(&mut self.registry, &mut self.store);
            i = i + 1;
        }
        self.phase = Phase::Finished;
        Ok(())
    }

    /// Returns the component of kind `kind` attached to the entity, if
    /// the id is live and such a component is present, and `None`
    /// otherwise — also for despawned or never-allocated ids and for
    /// kinds no spawned bundle has used.
    pub fn get_component(&self, id: EntityId, kind: u64) -> (r: Option<&Component>)
        requires
            self.wf(),
        ensures
            match r {
                Some(c) => exists|t: int|
                    0 <= t < self.registry_of()@.len() && self.registry_of()@[t] == kind
                        && self.store_of().comp(id@, t) == Some(*c),
                None => forall|t: int|
                    0 <= t < self.registry_of()@.len() && self.registry_of()@[t] == kind
                        ==> self.store_of().comp(id@, t) == None::<Component>,
            },
    {
        match self.registry.lookup(kind) {
            None => None,
            Some(t) => {
                let r = self.store.get(id, t);
                proof {
                    if r is Some {
                        assert(0 <= t < self.registry_of()@.len() && self.registry_of()@[t as int]
                            == kind && self.store_of().comp(id@, t as int) == Some(*r->Some_0));
                    }
                }
                r
            },
        }
    }

    /// Returns whether the id names a live entity.
    pub fn contains_entity(&self, id: EntityId) -> (b: bool)
        ensures
            b == self.store_of().live_at(id@),
    {
        self.store.contains(id)
    }

    /// Returns how many entities are live.
    pub fn live_count(&self) -> (n: usize)
        ensures
            n == self.store_of().spec_live_count(),
    {
        self.store.live_count()
    }

    /// Returns how many entity ids the world's store has ever issued.
    pub fn allocated_count(&self) -> (n: usize)
        ensures
            n == self.store_of().slot_count(),
    {
        self.store.allocated_count()
    }
}

} // verus!
