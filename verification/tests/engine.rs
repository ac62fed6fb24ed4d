use mini_ecs::buffer::CommandBuffer;
use mini_ecs::component::{Component, NAME_KIND, PERSON_KIND};
use mini_ecs::errors::EcsError;
use mini_ecs::registry::Registry;
use mini_ecs::store::{EntityId, Store};
use mini_ecs::systems::{add_people, AddPeople};
use mini_ecs::world::{StartupSystem, World};

fn name_of(c: &Component) -> Option<&str> {
    match c {
        Component::Name(s) => Some(s.as_str()),
        _ => None,
    }
}

fn person_name_bundle(name: &str) -> Vec<Component> {
    vec![Component::Person, Component::Name(name.to_string())]
}

struct SpawnFour;

impl StartupSystem for SpawnFour {
    fn call(&self, _registry: &Registry, _store: &Store, buf: &mut CommandBuffer) {
        for name in ["ada", "bela", "ciro", "dina"] {
            buf.spawn(person_name_bundle(name)).unwrap();
        }
    }
}

#[test]
fn spawn_n_unique_bundles_yields_n_live() {
    let mut world = World::new().add_startup_system(SpawnFour);
    assert_eq!(world.run(), Ok(()));
    assert_eq!(world.live_count(), 4);
    assert_eq!(world.allocated_count(), 4);
    let expected = ["ada", "bela", "ciro", "dina"];
    for (i, want) in expected.iter().enumerate() {
        let id = EntityId::from_index(i);
        assert!(world.contains_entity(id));
        let got = world.get_component(id, NAME_KIND).unwrap();
        assert_eq!(name_of(got), Some(*want));
        assert!(matches!(
            world.get_component(id, PERSON_KIND),
            Some(Component::Person)
        ));
    }
}

#[test]
fn duplicate_component_bundle_rejected() {
    let mut buf = CommandBuffer::new();
    let two_people = vec![Component::Person, Component::Person];
    assert_eq!(buf.spawn(two_people), Err(EcsError::DuplicateComponentInBundle));
    let two_names = vec![
        Component::Name("one".to_string()),
        Component::Name("two".to_string()),
    ];
    assert_eq!(buf.spawn(two_names), Err(EcsError::DuplicateComponentInBundle));
    assert_eq!(buf.len(), 0);
    let mut registry = Registry::new();
    let mut store = Store::new();
    let ids = buf.flush(&mut registry, &mut store);
    assert!(ids.is_empty());
    assert_eq!(store.live_count(), 0);
    assert_eq!(store.allocated_count(), 0);
}

enum OrderedSystem {
    SpawnA,
    SpawnBIfASeen,
}

impl StartupSystem for OrderedSystem {
    fn call(&self, registry: &Registry, store: &Store, buf: &mut CommandBuffer) {
        match self {
            OrderedSystem::SpawnA => {
                buf.spawn(person_name_bundle("A")).unwrap();
            }
            OrderedSystem::SpawnBIfASeen => {
                let a_visible = match registry.lookup(NAME_KIND) {
                    Some(t) => match store.get(EntityId::from_index(0), t) {
                        Some(c) => name_of(c) == Some("A"),
                        None => false,
                    },
                    None => false,
                };
                if a_visible {
                    buf.spawn(person_name_bundle("B")).unwrap();
                }
            }
        }
    }
}

#[test]
fn second_system_sees_first_spawn() {
    let mut world = World::new()
        .add_startup_system(OrderedSystem::SpawnA)
        .add_startup_system(OrderedSystem::SpawnBIfASeen);
    assert_eq!(world.run(), Ok(()));
    // B was spawned at all only because S2, running after S1's flush,
    // could already see A in the store.
    assert_eq!(world.live_count(), 2);
    let a = world.get_component(EntityId::from_index(0), NAME_KIND).unwrap();
    assert_eq!(name_of(a), Some("A"));
    let b = world.get_component(EntityId::from_index(1), NAME_KIND).unwrap();
    assert_eq!(name_of(b), Some("B"));
}

#[test]
fn run_twice_fails_with_already_run() {
    let mut world = World::new().add_startup_system(AddPeople);
    assert_eq!(world.run(), Ok(()));
    assert_eq!(world.live_count(), 3);
    assert_eq!(world.run(), Err(EcsError::AlreadyRun));
    // The store is unchanged from the first run's result.
    assert_eq!(world.live_count(), 3);
    assert_eq!(world.allocated_count(), 3);
    let first = world.get_component(EntityId::from_index(0), NAME_KIND).unwrap();
    assert_eq!(name_of(first), Some("Elaina Proctor"));
}

#[test]
fn three_people_end_to_end() {
    let mut world = World::new().add_startup_system(AddPeople);
    assert_eq!(world.run(), Ok(()));
    assert_eq!(world.live_count(), 3);
    let expected = ["Elaina Proctor", "Renzo Hume", "Zayna Nieves"];
    for (i, want) in expected.iter().enumerate() {
        let id = EntityId::from_index(i);
        assert!(matches!(
            world.get_component(id, PERSON_KIND),
            Some(Component::Person)
        ));
        let got = world.get_component(id, NAME_KIND).unwrap();
        assert_eq!(name_of(got), Some(*want));
    }
    assert!(world.get_component(EntityId::from_index(3), NAME_KIND).is_none());
}

#[test]
fn run_with_no_systems_is_ok_and_empty() {
    let mut world: World<AddPeople> = World::new();
    assert_eq!(world.run(), Ok(()));
    assert_eq!(world.live_count(), 0);
    assert_eq!(world.allocated_count(), 0);
}

#[test]
fn add_people_records_three_bundles() {
    let mut buf = CommandBuffer::new();
    add_people(&mut buf);
    assert_eq!(buf.len(), 3);
}

#[test]
fn get_on_despawned_or_never_allocated_is_empty() {
    let mut registry = Registry::new();
    let mut store = Store::new();
    let t = registry.register_or_get(NAME_KIND);
    let id = store.allocate_entity();
    store.attach(id, t, Component::Name("gone".to_string())).unwrap();
    assert!(store.get(id, t).is_some());
    assert_eq!(store.despawn(id), Ok(()));
    // The despawned id yields empty reads, never stale data, and the
    // slot is never reissued.
    assert!(store.get(id, t).is_none());
    assert!(!store.contains(id));
    assert_eq!(store.live_count(), 0);
    assert_eq!(store.allocated_count(), 1);
    assert_eq!(
        store.attach(id, t, Component::Person),
        Err(EcsError::UnknownEntity)
    );
    assert_eq!(store.despawn(id), Err(EcsError::UnknownEntity));
    // A never-allocated id behaves the same.
    let ghost_id = EntityId::from_index(99);
    assert!(store.get(ghost_id, t).is_none());
    assert_eq!(
        store.attach(ghost_id, t, Component::Person),
        Err(EcsError::UnknownEntity)
    );
    let world: World<AddPeople> = World::new();
    assert!(world.get_component(EntityId::from_index(7), NAME_KIND).is_none());
}

#[test]
fn registry_is_idempotent_and_collision_free() {
    let mut registry = Registry::new();
    let t_person = registry.register_or_get(PERSON_KIND);
    let t_name = registry.register_or_get(NAME_KIND);
    assert_ne!(t_person, t_name);
    assert_eq!(registry.register_or_get(PERSON_KIND), t_person);
    assert_eq!(registry.register_or_get(NAME_KIND), t_name);
    assert_eq!(registry.len(), 2);
    assert_eq!(registry.lookup(PERSON_KIND), Some(t_person));
    assert_eq!(registry.lookup(NAME_KIND), Some(t_name));
    assert_eq!(registry.lookup(17), None);
}

#[test]
fn attach_overwrites_last_write_wins() {
    let mut registry = Registry::new();
    let mut store = Store::new();
    let t = registry.register_or_get(NAME_KIND);
    let id = store.allocate_entity();
    store.attach(id, t, Component::Name("first".to_string())).unwrap();
    store.attach(id, t, Component::Name("second".to_string())).unwrap();
    let got = store.get(id, t).unwrap();
    assert_eq!(name_of(got), Some("second"));
    assert_eq!(store.live_count(), 1);
}

#[test]
fn flush_is_fifo_and_clears_the_buffer() {
    let mut registry = Registry::new();
    let mut store = Store::new();
    let mut buf = CommandBuffer::new();
    assert_eq!(buf.spawn(person_name_bundle("first")), Ok(0));
    assert_eq!(buf.spawn(person_name_bundle("second")), Ok(1));
    assert_eq!(buf.spawn(person_name_bundle("third")), Ok(2));
    let ids = buf.flush(&mut registry, &mut store);
    assert_eq!(
        ids,
        vec![
            EntityId::from_index(0),
            EntityId::from_index(1),
            EntityId::from_index(2)
        ]
    );
    assert_eq!(buf.len(), 0);
    assert_eq!(ids[0].index(), 0);
    assert_eq!(ids[2].index(), 2);
    for (i, want) in ["first", "second", "third"].iter().enumerate() {
        let t = registry.lookup(NAME_KIND).unwrap();
        let got = store.get(EntityId::from_index(i), t).unwrap();
        assert_eq!(name_of(got), Some(*want));
    }
    // A second flush of the now-empty buffer changes nothing.
    let more = buf.flush(&mut registry, &mut store);
    assert!(more.is_empty());
    assert_eq!(store.live_count(), 3);
    assert_eq!(store.allocated_count(), 3);
}

#[test]
fn empty_bundle_spawns_unobservable_entity() {
    let mut registry = Registry::new();
    let mut store = Store::new();
    let mut buf = CommandBuffer::new();
    assert_eq!(buf.spawn(Vec::new()), Ok(0));
    let ids = buf.flush(&mut registry, &mut store);
    assert_eq!(ids.len(), 1);
    // The entity exists as a bookkeeping artifact but no typed query
    // observes it.
    assert!(store.contains(ids[0]));
    assert_eq!(store.live_count(), 1);
    assert_eq!(registry.len(), 0);
    assert!(store.get(ids[0], 0).is_none());
    assert!(store.get(ids[0], 1).is_none());
}

#[test]
fn chained_builder_runs_once() {
    assert_eq!(World::new().add_startup_system(AddPeople).run(), Ok(()));
}
