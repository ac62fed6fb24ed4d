use vstd::prelude::*;

use crate::component::Component;
use crate::errors::EcsError;
use crate::registry::ComponentTypeId;

verus! {

/// An opaque entity handle, unique within one store for its lifetime:
/// an id is never reused, and becomes invalid on despawn.
#[derive(Clone, Copy, Debug, PartialEq, Eq, Structural, Hash)]
pub struct EntityId {
    idx: usize,
}

impl View for EntityId {
    type V = int;

    /// The slot index the id names.
    closed spec fn view(&self) -> int {
        self.idx as int
    }
}

impl EntityId {
    /// Builds the id that names slot `idx`. Whether an entity is live
    /// under it is the store's to answer.
    pub fn from_index(idx: usize) -> (id: EntityId)
        ensures
            id@ == idx as int,
    {
        EntityId { idx }
    }

    /// Returns the slot index the id names.
    pub fn index(&self) -> (i: usize)
        ensures
            i as int == self@,
    {
        self.idx
    }
}

/// The component data of one live entity: a table indexed by
/// `ComponentTypeId`, one slot per registered component type.
struct EntityRecord {
    comps: Vec<Option<Component>>,
}

/// The component stored under type id `t` in a record table.
spec fn rec_lookup(r: Seq<Option<Component>>, t: int) -> Option<Component> {
    if 0 <= t < r.len() {
        r[t]
    } else {
        None
    }
}

/// How many slots hold a live entity.
spec fn count_live(s: Seq<Option<EntityRecord>>) -> nat
    decreases s.len(),
{
    if s.len() == 0 {
        0
    } else {
        count_live(s.drop_last()) + (if s.last() is Some {
            1nat
        } else {
            0nat
        })
    }
}

proof fn lemma_count_live_push(s: Seq<Option<EntityRecord>>, v: Option<EntityRecord>)
    ensures
        count_live(s.push(v)) == count_live(s) + (if v is Some {
            1nat
        } else {
            0nat
        }),
{
    assert(s.push(v).drop_last() =~= s);
    assert(s.push(v).last() == v);
}

proof fn lemma_count_live_update(s: Seq<Option<EntityRecord>>, i: int, v: Option<EntityRecord>)
    requires
        0 <= i < s.len(),
    ensures
        count_live(s.update(i, v)) + (if s[i] is Some {
            1nat
        } else {
            0nat
        }) == count_live(s) + (if v is Some {
            1nat
        } else {
            0nat
        }),
    decreases s.len(),
{
    let su = s.update(i, v);
    if i == s.len() - 1 {
        assert(su.drop_last() =~= s.drop_last());
        assert(su.last() == v);
    } else {
        assert(su.drop_last() =~= s.drop_last().update(i, v));
        assert(su.last() == s.last());
        lemma_count_live_update(s.drop_last(), i, v);
    }
}

/// Owns the component data of all live entities, keyed by entity id.
/// Slot indices double as entity ids; a despawned entity leaves a dead
/// slot behind, so ids are never reused.
pub struct Store {
    slots: Vec<Option<EntityRecord>>,
}

impl Store {
    /// How many ids have ever been allocated; the next fresh id.
    pub closed spec fn slot_count(self) -> nat {
        self.slots@.len()
    }

    /// Whether slot `i` holds a live entity.
    pub closed spec fn live_at(self, i: int) -> bool {
        0 <= i < self.slots@.len() && self.slots@[i] is Some
    }

    /// The component the entity in slot `i` holds under type id `t`,
    /// and `None` when the slot is dead, out of range, or holds no
    /// component of that type.
    pub closed spec fn comp(self, i: int, t: int) -> Option<Component> {
        if self.live_at(i) {
            match self.slots@[i] {
                Some(r) => rec_lookup(r.comps@, t),
                None => None,
            }
        } else {
            None
        }
    }

    /// How many entities are live.
    pub closed spec fn spec_live_count(self) -> nat {
        count_live(self.slots@)
    }

    /// Returns an empty store: no ids allocated, no entities live.
    pub fn new() -> (s: Store)
        ensures
            s.slot_count() == 0,
            s.spec_live_count() == 0,
            forall|i: int| !s.live_at(i),
            forall|i: int, t: int| s.comp(i, t) == None::<Component>,
    {
        Store { slots: Vec::new() }
    }

    /// Allocates a fresh, never-before-issued entity id with an empty
    /// record. Every other slot is untouched.
    pub fn allocate_entity(&mut self) -> (id: EntityId)
        ensures
            id@ == old(self).slot_count(),
            final(self).slot_count() == old(self).slot_count() + 1,
            final(self).live_at(id@),
            forall|t: int| final(self).comp(id@, t) == None::<Component>,
            forall|i: int| i != id@ ==> final(self).live_at(i) == old(self).live_at(i),
            forall|i: int, t: int| i != id@ ==> final(self).comp(i, t) == old(self).comp(i, t),
            final(self).spec_live_count() == old(self).spec_live_count() + 1,
    {
        let idx = self.slots.len();
        let rec = EntityRecord { comps: Vec::new() };
        proof {
            lemma_count_live_push(self.slots@, Some(rec));
        }
        self.slots.push(Some(rec));
        EntityId { idx }
    }

    /// Returns whether the id names a live entity.
    pub fn contains(&self, id: EntityId) -> (b: bool)
        ensures
            b == self.live_at(id@),
    {
        if id.idx >= self.slots.len() {
            return false;
        }
        match &self.slots[id.idx] {
            Some(_) => true,
            None => false,
        }
    }

    /// Stores `value` under type id `t` for the entity, overwriting
    /// silently if a component of that type is already present
    /// (last-write-wins). Fails with `UnknownEntity`, leaving the store
    /// unchanged, exactly when the id is not live.
    pub fn attach(&mut self, id: EntityId, t: ComponentTypeId, value: Component) -> (r: Result<
        (),
        EcsError,
    >)
        ensures
            old(self).live_at(id@) ==> r == Ok::<(), EcsError>(()),
            !old(self).live_at(id@) ==> r == Err::<(), EcsError>(EcsError::UnknownEntity)
                && *final(self) == *old(self),
            r is Ok ==> final(self).comp(id@, t as int) == Some(value),
            r is Ok ==> forall|u: int|
                u != t as int ==> final(self).comp(id@, u) == old(self).comp(id@, u),
            r is Ok ==> forall|i: int, u: int|
                i != id@ ==> final(self).comp(i, u) == old(self).comp(i, u),
            forall|i: int| final(self).live_at(i) == old(self).live_at(i),
            final(self).slot_count() == old(self).slot_count(),
            final(self).spec_live_count() == old(self).spec_live_count(),
    {
        let live = self.contains(id);
        if !live {
            return Err(EcsError::UnknownEntity);
        }
        let ghost slots0 = self.slots@;
        let slot = &mut self.slots[id.idx];
        match slot {
            None => unreached(),
            Some(rec) => {
                let ghost comps0 = rec.comps@;
                while rec.comps.len() <= t
                    invariant
                        forall|u: int| rec_lookup(rec.comps@, u) == rec_lookup(comps0, u),
                    decreases t + 1 - rec.comps@.len(),
                {
                    rec.comps.push(None);
                }
                rec.comps[t] = Some(value);
            },
        }
        proof {
            lemma_count_live_update(slots0, id.idx as int, self.slots@[id.idx as int]);
        }
        Ok(())
    }

    /// Returns the component of type id `t` attached to the entity, if
    /// the id is live and such a component is present, and `None`
    /// otherwise — also for despawned or never-allocated ids.
    pub fn get(&self, id: EntityId, t: ComponentTypeId) -> (r: Option<&Component>)
        ensures
            match r {
                Some(c) => self.comp(id@, t as int) == Some(*c),
                None => self.comp(id@, t as int) == None::<Component>,
            },
    {
        if id.idx >= self.slots.len() {
            return None;
        }
        match &self.slots[id.idx] {
            None => None,
            Some(rec) => {
                if t < rec.comps.len() {
                    match &rec.comps[t] {
                        Some(c) => Some(c),
                        None => None,
                    }
                } else {
                    None
                }
            },
        }
    }

    /// Removes all component data for the entity; the slot stays dead,
    /// so the id is never reissued and later `attach`/`get` calls on it
    /// fail. Fails with `UnknownEntity`, leaving the store unchanged,
    /// exactly when the id is not live.
    pub fn despawn(&mut self, id: EntityId) -> (r: Result<(), EcsError>)
        ensures
            old(self).live_at(id@) ==> r == Ok::<(), EcsError>(()),
            !old(self).live_at(id@) ==> r == Err::<(), EcsError>(EcsError::UnknownEntity)
                && *final(self) == *old(self),
            r is Ok ==> !final(self).live_at(id@) && final(self).spec_live_count() + 1 == old(
                self,
            ).spec_live_count(),
            r is Ok ==> forall|t: int| final(self).comp(id@, t) == None::<Component>,
            r is Ok ==> forall|i: int|
                i != id@ ==> final(self).live_at(i) == old(self).live_at(i),
            r is Ok ==> forall|i: int, t: int|
                i != id@ ==> final(self).comp(i, t) == old(self).comp(i, t),
            final(self).slot_count() == old(self).slot_count(),
    {
        if id.idx >= self.slots.len() {
            return Err(EcsError::UnknownEntity);
        }
        let live = self.contains(id);
        if !live {
            return Err(EcsError::UnknownEntity);
        }
        proof {
            lemma_count_live_update(self.slots@, id.idx as int, None);
        }
        self.slots[id.idx] = None;
        Ok(())
    }

    /// Returns how many entities are live.
    pub fn live_count(&self) -> (n: usize)
        ensures
            n == self.spec_live_count(),
    {
        let m = self.slots.len();
        let mut n: usize = 0;
        let mut i: usize = 0;
        while i < m
            invariant
                i <= m,
                m == self.slots@.len(),
                n == count_live(self.slots@.take(i as int)),
                n <= i,
            decreases m - i,
        {
            proof {
                assert(self.slots@.take(i + 1).drop_last() =~= self.slots@.take(i as int));
                assert(self.slots@.take(i + 1).last() == self.slots@[i as int]);
            }
            match &self.slots[i] {
                Some(_) => {
                    n = n + 1;
                },
                None => {},
            }
            i = i + 1;
        }
        proof {
            assert(self.slots@.take(m as int) =~= self.slots@);
        }
        n
    }

    /// Returns how many ids have been allocated: the index the next
    /// allocated entity will receive.
    pub fn allocated_count(&self) -> (n: usize)
        ensures
            n == self.slot_count(),
    {
        self.slots.len()
    }
}

/// An id outside the allocated range was never issued: it names no live
/// entity.
pub proof fn lemma_never_allocated(s: Store, i: int)
    requires
        !(0 <= i < s.slot_count()),
    ensures
        !s.live_at(i),
{
}

/// A despawned or never-allocated id holds no components: a typed read
/// through it comes back empty, never with stale data.
pub proof fn lemma_dead_holds_nothing(s: Store, i: int)
    requires
        !s.live_at(i),
    ensures
        forall|t: int| s.comp(i, t) == None::<Component>,
{
}

} // verus!
