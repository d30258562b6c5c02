use legion_core::storage::ComponentTypeId;
use legion_core::world::World;
use legion_systems::access::is_conflict_free;
use legion_systems::access::lists;
use legion_systems::access::Access;
use legion_systems::access::SystemAccess;
use legion_systems::access::TypeKey;
use legion_systems::archetype::ArchetypeAccess;
use legion_systems::archetype::ArchetypeSet;
use legion_systems::command::CommandBuffers;
use legion_systems::resource::ResourceTypeId;
use legion_systems::subworld::SubWorld;

struct Pos;
struct Vel;
struct Mass;

fn resources(reads: &[u64], writes: &[u64]) -> Access<ResourceTypeId> {
    let mut access = Access::new();
    access.reads = reads.iter().map(|id| ResourceTypeId(*id)).collect();
    access.writes = writes.iter().map(|id| ResourceTypeId(*id)).collect();
    access
}

fn system(reads: &[u64], writes: &[u64], component_reads: Vec<ComponentTypeId>, component_writes: Vec<ComponentTypeId>) -> SystemAccess {
    let mut components = Access::new();
    components.reads = component_reads;
    components.writes = component_writes;
    SystemAccess { resources: resources(reads, writes), components }
}

#[test]
fn type_keys_compare_by_identity() {
    assert!(ResourceTypeId(3).same(&ResourceTypeId(3)));
    assert!(!ResourceTypeId(3).same(&ResourceTypeId(4)));
    assert!(ComponentTypeId::of::<Pos>().same(&ComponentTypeId::of::<Pos>()));
    assert!(!ComponentTypeId::of::<Pos>().same(&ComponentTypeId::of::<Vel>()));
    let listed = vec![ComponentTypeId::of::<Pos>(), ComponentTypeId::of::<Vel>()];
    assert!(lists(&listed, &ComponentTypeId::of::<Vel>()));
    assert!(!lists(&listed, &ComponentTypeId::of::<Mass>()));
    assert!(!lists(&Vec::new(), &ResourceTypeId(0)));
}

#[test]
fn a_new_declaration_mentions_nothing() {
    let access: Access<ResourceTypeId> = Access::new();
    assert!(access.reads.is_empty());
    assert!(access.writes.is_empty());
    assert!(!access.allows_read(&ResourceTypeId(0)));
    assert!(!access.allows_write(&ResourceTypeId(0)));
}

#[test]
fn a_write_declaration_also_permits_reading() {
    let access = resources(&[1], &[2]);
    assert!(access.allows_read(&ResourceTypeId(1)));
    assert!(access.allows_read(&ResourceTypeId(2)));
    assert!(!access.allows_read(&ResourceTypeId(3)));
    assert!(!access.allows_write(&ResourceTypeId(1)));
    assert!(access.allows_write(&ResourceTypeId(2)));
    assert!(!access.allows_write(&ResourceTypeId(3)));
}

#[test]
fn reads_never_conflict_and_writes_conflict_with_any_access() {
    assert!(!resources(&[1, 2], &[]).conflicts_with(&resources(&[2, 1], &[])));
    assert!(resources(&[1], &[]).conflicts_with(&resources(&[], &[1])));
    assert!(resources(&[], &[1]).conflicts_with(&resources(&[1], &[])));
    assert!(resources(&[], &[1]).conflicts_with(&resources(&[], &[1])));
    assert!(!resources(&[3], &[1]).conflicts_with(&resources(&[3], &[2])));
    assert!(!resources(&[], &[]).conflicts_with(&resources(&[], &[9])));
}

#[test]
fn systems_conflict_on_resources_or_on_components() {
    let pos = ComponentTypeId::of::<Pos>();
    let vel = ComponentTypeId::of::<Vel>();
    let reader = system(&[1], &[], vec![pos], vec![]);
    let other_reader = system(&[1], &[], vec![pos, vel], vec![]);
    let resource_writer = system(&[], &[1], vec![], vec![]);
    let component_writer = system(&[], &[], vec![], vec![pos]);
    let bystander = system(&[], &[2], vec![], vec![vel]);
    assert!(!reader.conflicts_with(&other_reader));
    assert!(reader.conflicts_with(&resource_writer));
    assert!(resource_writer.conflicts_with(&reader));
    assert!(reader.conflicts_with(&component_writer));
    assert!(!reader.conflicts_with(&bystander));
    assert!(other_reader.conflicts_with(&bystander));
    assert!(!resource_writer.conflicts_with(&component_writer));
}

#[test]
fn a_batch_is_conflict_free_when_every_pair_is() {
    let pos = ComponentTypeId::of::<Pos>();
    let vel = ComponentTypeId::of::<Vel>();
    let a = system(&[1], &[2], vec![pos], vec![]);
    let b = system(&[1], &[3], vec![pos], vec![vel]);
    let c = system(&[1, 3], &[], vec![], vec![]);
    assert!(is_conflict_free(&vec![]));
    assert!(is_conflict_free(&vec![&a]));
    assert!(is_conflict_free(&vec![&a, &b]));
    assert!(is_conflict_free(&vec![&a, &c]));
    assert!(!is_conflict_free(&vec![&a, &b, &c]));
    assert!(!is_conflict_free(&vec![&c, &a, &b]));
    for (writer, other) in [(&a, &b), (&b, &a), (&a, &c), (&c, &a)] {
        for written in &writer.resources.writes {
            assert!(!other.resources.reads.contains(written));
            assert!(!other.resources.writes.contains(written));
        }
        for written in &writer.components.writes {
            assert!(!other.components.reads.contains(written));
            assert!(!other.components.writes.contains(written));
        }
    }
}

#[test]
fn an_archetype_set_holds_what_was_put_in() {
    let mut set = ArchetypeSet::new();
    assert!(!set.contains(0));
    set.insert(4);
    set.insert(usize::MAX);
    set.insert(4);
    assert!(set.contains(4));
    assert!(set.contains(usize::MAX));
    assert!(!set.contains(5));
    let listed = ArchetypeSet::from_indices(vec![2, 0, 2]);
    assert!(listed.contains(0));
    assert!(listed.contains(2));
    assert!(!listed.contains(1));
}

#[test]
fn refreshing_replaces_the_cache_and_is_idempotent() {
    let mut cached = ArchetypeAccess::Cached(ArchetypeSet::from_indices(vec![9]));
    assert!(cached.allows(9));
    cached.refresh(vec![1, 3]);
    let once: Vec<bool> = (0..10).map(|i| cached.allows(i)).collect();
    assert_eq!(once, vec![false, true, false, true, false, false, false, false, false, false]);
    cached.refresh(vec![1, 3]);
    let twice: Vec<bool> = (0..10).map(|i| cached.allows(i)).collect();
    assert_eq!(twice, once);
    cached.refresh(vec![]);
    assert!((0..10).all(|i| !cached.allows(i)));
}

#[test]
fn refreshing_leaves_match_all_alone() {
    let mut all = ArchetypeAccess::All;
    all.refresh(vec![1, 3]);
    assert!(matches!(all, ArchetypeAccess::All));
    assert!(all.allows(0));
    assert!(all.allows(usize::MAX));
}

#[test]
fn a_registry_creates_one_buffer_per_world_and_keeps_it() {
    let world = World::new();
    let other = World::new();
    let mut buffers = CommandBuffers::new();
    assert!(!buffers.contains(world.id()));
    assert!(buffers.get_mut(world.id()).is_none());
    {
        let buffer = buffers.get_or_create(&world);
        assert_eq!(buffer.world(), world.id());
        assert!(buffer.is_empty());
        buffer.insert((), vec![(1u8,)]);
    }
    assert!(buffers.contains(world.id()));
    assert!(!buffers.contains(other.id()));
    assert_eq!(buffers.get_or_create(&world).len(), 1);
    assert_eq!(buffers.get_mut(world.id()).map(|b| b.len()), Some(1));
    assert_eq!(buffers.get_or_create(&other).world(), other.id());
    assert_eq!(buffers.get_mut(other.id()).map(|b| b.len()), Some(0));
    assert_eq!(buffers.get_mut(world.id()).map(|b| b.len()), Some(1));
}

#[test]
fn a_subworld_grants_what_was_declared() {
    let world = World::new();
    let mut components = Access::new();
    components.reads.push(ComponentTypeId::of::<Pos>());
    components.writes.push(ComponentTypeId::of::<Vel>());
    let archetypes = ArchetypeAccess::Cached(ArchetypeSet::from_indices(vec![0, 2]));
    let view = SubWorld::new(&world, &components, &archetypes);
    assert_eq!(view.world_id(), world.id());
    assert!(view.allows_read(&ComponentTypeId::of::<Pos>()));
    assert!(view.allows_read(&ComponentTypeId::of::<Vel>()));
    assert!(!view.allows_read(&ComponentTypeId::of::<Mass>()));
    assert!(!view.allows_write(&ComponentTypeId::of::<Pos>()));
    assert!(view.allows_write(&ComponentTypeId::of::<Vel>()));
    assert!(!view.allows_write(&ComponentTypeId::of::<Mass>()));
    assert!(view.can_access_archetype(0));
    assert!(!view.can_access_archetype(1));
    assert!(view.can_access_archetype(2));
    assert!(view.world_for(&ComponentTypeId::of::<Pos>()).map(|w| w.id()) == Some(world.id()));
    assert!(view.world_for(&ComponentTypeId::of::<Mass>()).is_none());
    let everything = ArchetypeAccess::All;
    let wide = SubWorld::new(&world, &components, &everything);
    assert!(wide.can_access_archetype(1));
}
