use vstd::prelude::*;

verus! {

/// A component type identifier: the position a type key holds in the
/// registry. Assigned once, at first registration, and stable for the
/// registry's lifetime.
pub type ComponentTypeId = usize;

/// Maps each distinct component type key to a `ComponentTypeId`, lazily
/// on first use. Pure bookkeeping: no error conditions.
pub struct Registry {
    keys: Vec<u64>,
}

impl View for Registry {
    type V = Seq<u64>;

    /// The keys registered so far; `ComponentTypeId` `t` names key
    /// `self@[t]`.
    closed spec fn view(&self) -> Seq<u64> {
        self.keys@
    }
}

impl Registry {
    /// A registry is well formed when no key is registered twice, so
    /// that different types never collide.
    pub open spec fn wf(self) -> bool {
        forall|i: int, j: int| 0 <= i < j < self@.len() ==> self@[i] != self@[j]
    }

    /// Returns an empty registry.
    pub fn new() -> (r: Registry)
        ensures
            r@ == Seq::<u64>::empty(),
            r.wf(),
    {
        let r = Registry { keys: Vec::new() };
        proof {
            assert(r@ =~= Seq::<u64>::empty());
        }
        r
    }

    /// Returns how many component types are registered.
    pub fn len(&self) -> (n: usize)
        ensures
            n == self@.len(),
    {
        self.keys.len()
    }

    /// Looks a key up without registering it: returns its id if the key
    /// is registered, and `None` otherwise.
    pub fn lookup(&self, key: u64) -> (r: Option<ComponentTypeId>)
        ensures
            match r {
                Some(t) => t < self@.len() && self@[t as int] == key,
                None => !self@.contains(key),
            },
    {
        let n = self.keys.len();
        let mut i: usize = 0;
        while i < n
            invariant
                i <= n,
                n == self@.len(),
                forall|p: int| 0 <= p < i ==> self@[p] != key,
            decreases n - i,
        {
            if self.keys[i] == key {
                return Some(i);
            }
            i = i + 1;
        }
        None
    }

    /// Registers the key if it is new and returns its id; idempotent:
    /// the same key always yields the same id within one registry.
    pub fn register_or_get(&mut self, key: u64) -> (t: ComponentTypeId)
        requires
            old(self).wf(),
        ensures
            final(self).wf(),
            t < final(self)@.len(),
            final(self)@[t as int] == key,
            old(self)@.contains(key) ==> final(self)@ == old(self)@,
            !old(self)@.contains(key) ==> final(self)@ == old(self)@.push(key) && t
                == old(self)@.len(),
    {
        match self.lookup(key) {
            Some(t) => t,
            None => {
                let t = self.keys.len();
                self.keys.push(key);
                t
            },
        }
    }
}

/// In a well-formed registry, distinct ids never name the same key: the
/// id assigned to a component type is unique, so `register_or_get` is
/// deterministic.
pub proof fn lemma_type_id_unique(r: Registry, i: int, j: int)
    requires
        r.wf(),
        0 <= i < r@.len(),
        0 <= j < r@.len(),
        r@[i] == r@[j],
    ensures
        i == j,
{
}

} // verus!
