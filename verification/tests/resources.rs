use legion_systems::resource::first_missing;
use legion_systems::resource::ResourceTypeId;
use legion_systems::resource::Resources;
use legion_systems::accessor::Resource;
use legion_systems::accessor::ResourceMut;

#[test]
fn a_new_table_is_empty() {
    let resources: Resources<String> = Resources::new();
    assert_eq!(resources.len(), 0);
    assert!(!resources.contains(ResourceTypeId(0)));
    assert_eq!(resources.get(ResourceTypeId(0)), None);
}

#[test]
fn insert_registers_and_replaces() {
    let mut resources = Resources::new();
    assert_eq!(resources.insert(ResourceTypeId(7), "a".to_string()), None);
    assert_eq!(resources.insert(ResourceTypeId(9), "b".to_string()), None);
    assert_eq!(resources.len(), 2);
    assert_eq!(resources.insert(ResourceTypeId(7), "c".to_string()), Some("a".to_string()));
    assert_eq!(resources.len(), 2);
    assert_eq!(resources.get(ResourceTypeId(7)), Some(&"c".to_string()));
    assert_eq!(resources.get(ResourceTypeId(9)), Some(&"b".to_string()));
    assert!(resources.contains(ResourceTypeId(7)));
    assert!(resources.contains(ResourceTypeId(9)));
    assert!(!resources.contains(ResourceTypeId(8)));
}

#[test]
fn checked_write_changes_only_the_entry_asked_for() {
    let mut resources = Resources::new();
    resources.insert(ResourceTypeId(1), 10u32);
    resources.insert(ResourceTypeId(2), 20u32);
    resources.insert(ResourceTypeId(3), 30u32);
    if let Some(value) = resources.get_mut(ResourceTypeId(2)) {
        *value += 1;
    }
    assert!(resources.get_mut(ResourceTypeId(4)).is_none());
    assert_eq!(resources.get(ResourceTypeId(1)), Some(&10));
    assert_eq!(resources.get(ResourceTypeId(2)), Some(&21));
    assert_eq!(resources.get(ResourceTypeId(3)), Some(&30));
    assert_eq!(resources.len(), 3);
}

#[test]
fn direct_fetch_reaches_the_registered_value() {
    let mut resources = Resources::new();
    resources.insert(ResourceTypeId(1), 10u32);
    resources.insert(ResourceTypeId(2), 20u32);
    assert_eq!(*resources.fetch(ResourceTypeId(2)), 20);
    *resources.fetch_mut(ResourceTypeId(1)) = 15;
    assert_eq!(*resources.fetch(ResourceTypeId(1)), 15);
    assert_eq!(resources.get(ResourceTypeId(1)), Some(&15));
    assert_eq!(*resources.fetch(ResourceTypeId(2)), 20);
}

#[test]
fn first_missing_names_the_first_unregistered_declaration() {
    let mut resources = Resources::new();
    assert_eq!(first_missing::<u32, Resource<u32, 5>>(&resources), Some(ResourceTypeId(5)));
    assert_eq!(first_missing::<u32, ResourceMut<u32, 6>>(&resources), Some(ResourceTypeId(6)));
    resources.insert(ResourceTypeId(5), 1u32);
    assert_eq!(first_missing::<u32, Resource<u32, 5>>(&resources), None);
    assert_eq!(first_missing::<u32, ResourceMut<u32, 6>>(&resources), Some(ResourceTypeId(6)));
    resources.insert(ResourceTypeId(6), 2u32);
    assert_eq!(first_missing::<u32, ResourceMut<u32, 6>>(&resources), None);
}
