use vstd::prelude::*;

use crate::buffer::CommandBuffer;
use crate::component::Component;
use crate::registry::Registry;
use crate::store::Store;
use crate::world::StartupSystem;

verus! {

/// A bundle that pairs the `Person` marker with the name `name`.
pub open spec fn is_person_bundle(b: Seq<Component>, name: Seq<char>) -> bool {
    b.len() == 2 && b[0] == Component::Person && (b[1] matches Component::Name(s) && s@ == name)
}

/// Spawns the three example people, in order: each recorded bundle
/// pairs the `Person` marker with one of the three names.
pub fn add_people(commands: &mut CommandBuffer)
    ensures
        final(commands)@.len() == old(commands)@.len() + 3,
        forall|i: int| 0 <= i < old(commands)@.len() ==> final(commands)@[i] == old(commands)@[i],
        is_person_bundle(final(commands)@[old(commands)@.len() as int], "Elaina Proctor"@),
        is_person_bundle(final(commands)@[old(commands)@.len() as int + 1], "Renzo Hume"@),
        is_person_bundle(final(commands)@[old(commands)@.len() as int + 2], "Zayna Nieves"@),
{
    let mut b1: Vec<Component> = Vec::new();
    b1.push(Component::Person);
    b1.push(Component::Name("Elaina Proctor".to_owned()));
    let _ = commands.spawn(b1);
    let mut b2: Vec<Component> = Vec::new();
    b2.push(Component::Person);
    b2.push(Component::Name("Renzo Hume".to_owned()));
    let _ = commands.spawn(b2);
    let mut b3: Vec<Component> = Vec::new();
    b3.push(Component::Person);
    b3.push(Component::Name("Zayna Nieves".to_owned()));
    let _ = commands.spawn(b3);
}

/// The example's startup system: spawns the three people.
pub struct AddPeople;

impl StartupSystem for AddPeople {
    fn call(&self, _registry: &Registry, _store: &Store, buf: &mut CommandBuffer) {
        add_people(buf);
    }
}

} // verus!
