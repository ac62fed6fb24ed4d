use vstd::prelude::*;

use crate::component::{
    bundle_has_duplicate, bundle_lookup, bundle_wf, lemma_bundle_lookup_absent,
    lemma_bundle_lookup_own, Component,
};
use crate::errors::EcsError;
use crate::registry::Registry;
use crate::store::{EntityId, Store};

verus! {

/// Records deferred spawn commands produced by a system, applied to the
/// entity store only when the buffer is flushed, so the store is never
/// mutated while a system runs against it.
pub struct CommandBuffer {
    spawns: Vec<Vec<Component>>,
}

impl View for CommandBuffer {
    type V = Seq<Seq<Component>>;

    /// The recorded spawn bundles, oldest first.
    closed spec fn view(&self) -> Seq<Seq<Component>> {
        Seq::new(self.spawns@.len(), |i: int| self.spawns@[i]@)
    }
}

proof fn lemma_contains_preserved(r1: Seq<u64>, r2: Seq<u64>, x: u64)
    requires
        r1.contains(x),
        r2.len() >= r1.len(),
        forall|t: int| 0 <= t < r1.len() ==> r2[t] == r1[t],
    ensures
        r2.contains(x),
{
    let w = choose|w: int| 0 <= w < r1.len() && r1[w] == x;
    assert(r2[w] == x);
}

impl CommandBuffer {
    /// Returns an empty buffer.
    pub fn new() -> (b: CommandBuffer)
        ensures
            b@ == Seq::<Seq<Component>>::empty(),
    {
        let b = CommandBuffer { spawns: Vec::new() };
        proof {
            assert(b@ =~= Seq::<Seq<Component>>::empty());
        }
        b
    }

    /// Returns how many spawn commands are recorded.
    pub fn len(&self) -> (n: usize)
        ensures
            n == self@.len(),
    {
        self.spawns.len()
    }

    /// Records a pending "create an entity with this bundle" command and
    /// returns its provisional position among the recorded commands.
    /// A malformed bundle — one naming the same component type twice —
    /// is rejected immediately with `DuplicateComponentInBundle`, and
    /// the buffer is unchanged.
    pub fn spawn(&mut self, bundle: Vec<Component>) -> (r: Result<usize, EcsError>)
        ensures
            bundle_wf(bundle@) ==> r == Ok::<usize, EcsError>(old(self)@.len() as usize)
                && final(self)@ == old(self)@.push(bundle@),
            !bundle_wf(bundle@) ==> r == Err::<usize, EcsError>(
                EcsError::DuplicateComponentInBundle,
            ) && *final(self) == *old(self),
    {
        if bundle_has_duplicate(&bundle) {
            return Err(EcsError::DuplicateComponentInBundle);
        }
        let p = self.spawns.len();
        let ghost before = self@;
        self.spawns.push(bundle);
        proof {
            assert(self@ =~= before.push(bundle@));
        }
        Ok(p)
    }

    /// Applies all recorded commands to the store in the order they were
    /// recorded — FIFO: spawn order in code is spawn order in the store —
    /// then clears the buffer. Each command allocates one fresh entity
    /// and attaches its bundle atomically; component types are registered
    /// on first use. Never fails. After the call, spawned entity `i`
    /// holds, under each registered type id `t`, exactly the component of
    /// kind `final(registry)@[t]` its bundle supplied, if any.
    pub fn flush(&mut self, registry: &mut Registry, store: &mut Store) -> (ids: Vec<EntityId>)
        requires
            old(registry).wf(),
        ensures
            final(self)@ == Seq::<Seq<Component>>::empty(),
            final(registry).wf(),
            final(registry)@.len() >= old(registry)@.len(),
            forall|t: int|
                0 <= t < old(registry)@.len() ==> final(registry)@[t] == old(registry)@[t],
            forall|i: int, j: int|
                0 <= i < old(self)@.len() && 0 <= j < old(self)@[i].len()
                    ==> final(registry)@.contains(old(self)@[i][j].kind()),
            ids@.len() == old(self)@.len(),
            forall|i: int| 0 <= i < ids@.len() ==> ids@[i]@ == old(store).slot_count() + i,
            final(store).slot_count() == old(store).slot_count() + old(self)@.len(),
            final(store).spec_live_count() == old(store).spec_live_count() + old(self)@.len(),
            forall|q: int|
                0 <= q < old(store).slot_count()
                    ==> final(store).live_at(q) == old(store).live_at(q),
            forall|q: int, t: int|
                0 <= q < old(store).slot_count()
                    ==> final(store).comp(q, t) == old(store).comp(q, t),
            forall|q: int|
                old(store).slot_count() <= q < final(store).slot_count()
                    ==> final(store).live_at(q),
            forall|q: int, t: int|
                old(store).slot_count() <= q < final(store).slot_count()
                    && 0 <= t < final(registry)@.len()
                    ==> final(store).comp(q, t)
                    == bundle_lookup(old(self)@[q - old(store).slot_count()], final(registry)@[t]),
            forall|q: int, t: int|
                old(store).slot_count() <= q < final(store).slot_count()
                    && !(0 <= t < final(registry)@.len())
                    ==> final(store).comp(q, t) == None::<Component>,
    {
        let ghost bundles = self@;
        let ghost reg0 = registry@;
        let ghost store0 = *store;
        let mut work: Vec<Vec<Component>> = Vec::new();
        core::mem::swap(&mut work, &mut self.spawns);
        proof {
            assert(self@ =~= Seq::<Seq<Component>>::empty());
        }
        let n = work.len();
        let base = store.allocated_count();
        let mut ids: Vec<EntityId> = Vec::new();
        let mut i: usize = 0;
        while i < n
            invariant
                i <= n,
                n == bundles.len(),
                base == store0.slot_count(),
                self@ == Seq::<Seq<Component>>::empty(),
                work@.len() == n - i,
                forall|k: int| 0 <= k < n - i ==> work@[k]@ == bundles[i + k],
                registry.wf(),
                registry@.len() >= reg0.len(),
                forall|t: int| 0 <= t < reg0.len() ==> registry@[t] == reg0[t],
                forall|p: int, j: int|
                    0 <= p < i && 0 <= j < bundles[p].len() ==> registry@.contains(
                        bundles[p][j].kind(),
                    ),
                ids@.len() == i,
                forall|p: int| 0 <= p < i ==> ids@[p]@ == base + p,
                store.slot_count() == base + i,
                store.spec_live_count() == store0.spec_live_count() + i,
                forall|q: int| 0 <= q < base ==> store.live_at(q) == store0.live_at(q),
                forall|q: int, t: int| 0 <= q < base ==> store.comp(q, t) == store0.comp(q, t),
                forall|q: int| base <= q < base + i ==> store.live_at(q),
                forall|q: int, t: int|
                    base <= q < base + i && 0 <= t < registry@.len() ==> store.comp(q, t)
                        == bundle_lookup(bundles[q - base], registry@[t]),
                forall|q: int, t: int|
                    base <= q < base + i && !(0 <= t < registry@.len()) ==> store.comp(q, t)
                        == None::<Component>,
            decreases n - i,
        {
            let mut bvec = work.remove(0);
            let ghost b = bundles[i as int];
            let ghost e: int = base + i;
            let id = store.allocate_entity();
            ids.push(id);
            let blen = bvec.len();
            let mut j: usize = 0;
            while j < blen
                invariant
                    j <= blen,
                    blen == b.len(),
                    i < n,
                    n == bundles.len(),
                    b == bundles[i as int],
                    base == store0.slot_count(),
                    bvec@.len() == blen - j,
                    forall|k: int| 0 <= k < blen - j ==> bvec@[k] == b[j + k],
                    registry.wf(),
                    registry@.len() >= reg0.len(),
                    forall|t: int| 0 <= t < reg0.len() ==> registry@[t] == reg0[t],
                    forall|p: int, jj: int|
                        0 <= p < i && 0 <= jj < bundles[p].len() ==> registry@.contains(
                            bundles[p][jj].kind(),
                        ),
                    forall|k: int| 0 <= k < j ==> registry@.contains(b[k].kind()),
                    id@ == base + i,
                    store.slot_count() == base + i + 1,
                    store.spec_live_count() == store0.spec_live_count() + i + 1,
                    forall|q: int| 0 <= q < base ==> store.live_at(q) == store0.live_at(q),
                    forall|q: int, t: int| 0 <= q < base ==> store.comp(q, t) == store0.comp(q, t),
                    forall|q: int| base <= q < base + i ==> store.live_at(q),
                    forall|q: int, t: int|
                        base <= q < base + i && 0 <= t < registry@.len() ==> store.comp(q, t)
                            == bundle_lookup(bundles[q - base], registry@[t]),
                    forall|q: int, t: int|
                        base <= q < base + i && !(0 <= t < registry@.len()) ==> store.comp(q, t)
                            == None::<Component>,
                    e == base + i,
                    store.live_at(e),
                    forall|t: int|
                        0 <= t < registry@.len() ==> store.comp(e, t) == bundle_lookup(
                            b.take(j as int),
                            registry@[t],
                        ),
                    forall|t: int| !(0 <= t < registry@.len()) ==> store.comp(e, t) == None::<Component>,
                decreases blen - j,
            {
                let c = bvec.remove(0);
                let key = c.type_key();
                let ghost regb = registry@;
                let t = registry.register_or_get(key);
                proof {
                    assert(registry@.contains(key)) by {
                        assert(registry@[t as int] == key);
                    }
                    assert forall|p: int, jj: int|
                        0 <= p < i && 0 <= jj < bundles[p].len() implies registry@.contains(
                        bundles[p][jj].kind(),
                    ) by {
                        lemma_contains_preserved(regb, registry@, bundles[p][jj].kind());
                    }
                    assert forall|k2: int| 0 <= k2 < j implies registry@.contains(
                        b[k2].kind(),
                    ) by {
                        lemma_contains_preserved(regb, registry@, b[k2].kind());
                    }
                    if !regb.contains(key) {
                        // The key is new: no earlier bundle, and no earlier
                        // component of this bundle, holds a component of
                        // this kind, so their lookups for it stay `None`.
                        assert forall|p: int| 0 <= p < i implies bundle_lookup(
                            bundles[p],
                            key,
                        ) == None::<Component> by {
                            assert forall|jj: int|
                                0 <= jj < bundles[p].len() implies bundles[p][jj].kind()
                                != key by {
                                assert(regb.contains(bundles[p][jj].kind()));
                            }
                            lemma_bundle_lookup_absent(bundles[p], key);
                        }
                        assert forall|k: int| 0 <= k < b.take(j as int).len() implies b.take(
                            j as int,
                        )[k].kind() != key by {
                            assert(regb.contains(b[k].kind()));
                        }
                        lemma_bundle_lookup_absent(b.take(j as int), key);
                    }
                }
                let attach_r = store.attach(id, t, c);
                proof {
                    assert(attach_r is Ok);
                    assert(b.take(j + 1).drop_last() =~= b.take(j as int));
                    assert(b.take(j + 1).last() == b[j as int]);
                }
                j = j + 1;
            }
            proof {
                assert(b.take(blen as int) =~= b);
            }
            i = i + 1;
        }
        ids
    }
}

/// Spawning well-formed bundles loses nothing: once a store meets
/// `flush`'s guarantee for an entity `e` spawned with bundle `b` — its
/// components are, under each registered type id, exactly what
/// `bundle_lookup` gives for `b` — every component the bundle supplied
/// is retrievable unchanged under its own kind's id. Together with
/// `flush`'s count and liveness clauses: flushing `n` spawn commands
/// yields exactly `n` new live entities, each holding its original
/// component values.
pub proof fn lemma_spawned_bundle_retrievable(s: Store, reg: Registry, b: Seq<Component>, e: int, j: int)
    requires
        reg.wf(),
        bundle_wf(b),
        0 <= j < b.len(),
        forall|t: int| 0 <= t < reg@.len() ==> s.comp(e, t) == bundle_lookup(b, reg@[t]),
        reg@.contains(b[j].kind()),
    ensures
        exists|t: int|
            0 <= t < reg@.len() && reg@[t] == b[j].kind() && s.comp(e, t) == Some(b[j]),
{
    let k = b[j].kind();
    let t = choose|t: int| 0 <= t < reg@.len() && reg@[t] == k;
    lemma_bundle_lookup_own(b, j);
    assert(0 <= t < reg@.len() && reg@[t] == k && s.comp(e, t) == Some(b[j]));
}

} // verus!
