use vstd::prelude::*;

verus! {

/// The type key of the `Person` marker component.
pub const PERSON_KIND: u64 = 0;

/// The type key of the `Name` component.
pub const NAME_KIND: u64 = 1;

/// A component value: plain data attached to an entity under a type key.
/// Each variant is one component type; two values belong to the same
/// component type exactly when their kinds are equal.
#[derive(Debug)]
pub enum Component {
    /// Marker component: tags an entity as a person.
    Person,
    /// A display name.
    Name(String),
}

impl Component {
    /// The type key of this component's type.
    pub open spec fn kind(self) -> u64 {
        match self {
            Component::Person => PERSON_KIND,
            Component::Name(_) => NAME_KIND,
        }
    }

    /// Returns the type key of this component's type.
    pub fn type_key(&self) -> (k: u64)
        ensures
            k == self.kind(),
    {
        match self {
            Component::Person => PERSON_KIND,
            Component::Name(_) => NAME_KIND,
        }
    }
}

/// A bundle is well formed when no two of its components share a
/// component type.
pub open spec fn bundle_wf(b: Seq<Component>) -> bool {
    forall|i: int, j: int| 0 <= i < j < b.len() ==> b[i].kind() != b[j].kind()
}

/// The component of kind `k` in bundle `b`: the last one, if the bundle
/// holds several (attachment is last-write-wins), and `None` if it holds
/// none.
pub open spec fn bundle_lookup(b: Seq<Component>, k: u64) -> Option<Component>
    decreases b.len(),
{
    if b.len() == 0 {
        None
    } else if b.last().kind() == k {
        Some(b.last())
    } else {
        bundle_lookup(b.drop_last(), k)
    }
}

/// A bundle without a component of kind `k` has no lookup result for `k`.
pub proof fn lemma_bundle_lookup_absent(b: Seq<Component>, k: u64)
    requires
        forall|j: int| 0 <= j < b.len() ==> b[j].kind() != k,
    ensures
        bundle_lookup(b, k) == None::<Component>,
    decreases b.len(),
{
    if b.len() > 0 {
        lemma_bundle_lookup_absent(b.drop_last(), k);
    }
}

/// In a well-formed bundle, looking a component's own kind up yields
/// exactly that component: every value supplied in a spawned bundle is
/// retrievable unchanged under its component type.
pub proof fn lemma_bundle_lookup_own(b: Seq<Component>, j: int)
    requires
        bundle_wf(b),
        0 <= j < b.len(),
    ensures
        bundle_lookup(b, b[j].kind()) == Some(b[j]),
    decreases b.len(),
{
    if j < b.len() - 1 {
        assert(b.last().kind() != b[j].kind());
        assert(bundle_wf(b.drop_last()));
        lemma_bundle_lookup_own(b.drop_last(), j);
        assert(b.drop_last()[j] == b[j]);
    }
}

/// Returns whether the bundle holds two components of the same type,
/// that is, whether it fails to be well formed.
pub fn bundle_has_duplicate(b: &Vec<Component>) -> (r: bool)
    ensures
        r == !bundle_wf(b@),
{
    let n = b.len();
    let mut i: usize = 0;
    while i < n
        invariant
            i <= n,
            n == b@.len(),
            forall|p: int, q: int| 0 <= p < q < b@.len() && p < i ==> b@[p].kind() != b@[q].kind(),
        decreases n - i,
    {
        let ki = b[i].type_key();
        let mut j: usize = i + 1;
        while j < n
            invariant
                i < j,
                j <= n,
                i < n,
                n == b@.len(),
                ki == b@[i as int].kind(),
                forall|q: int| i < q < j ==> b@[i as int].kind() != b@[q].kind(),
            decreases n - j,
        {
            if b[j].type_key() == ki {
                return true;
            }
            j = j + 1;
        }
        i = i + 1;
    }
    false
}

} // verus!
