use moonbase::components::ComponentDomain;
use moonbase::components::ComponentName;
use moonbase::components::ComponentRepositoryInner;
use moonbase::components::MoonbaseComponent;
use moonbase::resource::MoonbaseResource;
use moonbase::resource::Resource;
use moonbase::resource::ResourceRepositoryInner;
use moonbase::utils::AnyMap;
use moonbase::utils::TypeTag;

#[derive(Debug, Clone, PartialEq, Eq)]
struct ConfigV1 {
    port: u16,
}

impl MoonbaseResource for ConfigV1 {}

#[derive(Debug, Clone, PartialEq, Eq)]
struct Router {
    routes: Vec<String>,
}

impl MoonbaseComponent for Router {}

fn router(route: &str) -> Router {
    Router { routes: vec![route.to_string()] }
}

#[test]
fn resource_is_found_until_removed() {
    let mut repository: ResourceRepositoryInner<ConfigV1> = ResourceRepositoryInner::new();
    let tag = TypeTag::of::<ConfigV1>();
    assert_eq!(repository.insert(tag, ConfigV1 { port: 8080 }), None);
    assert_eq!(repository.get(tag), Some(ConfigV1 { port: 8080 }));
    assert!(repository.has(tag));
    assert_eq!(repository.remove(tag), Some(ConfigV1 { port: 8080 }));
    assert_eq!(repository.get(tag), None);
    assert!(!repository.has(tag));
}

#[test]
fn resource_insert_returns_previous() {
    let mut repository: ResourceRepositoryInner<ConfigV1> = ResourceRepositoryInner::new();
    let tag = TypeTag::of::<ConfigV1>();
    assert_eq!(repository.insert(tag, ConfigV1 { port: 1 }), None);
    assert_eq!(repository.insert(tag, ConfigV1 { port: 2 }), Some(ConfigV1 { port: 1 }));
    assert_eq!(repository.get_ref(tag), Some(&ConfigV1 { port: 2 }));
}

#[test]
fn resource_remove_absent_changes_nothing() {
    let mut repository: ResourceRepositoryInner<ConfigV1> = ResourceRepositoryInner::new();
    let present = TypeTag::from_raw(1);
    let absent = TypeTag::from_raw(2);
    repository.insert(present, ConfigV1 { port: 1 });
    assert_eq!(repository.remove(absent), None);
    assert_eq!(repository.get(present), Some(ConfigV1 { port: 1 }));
    assert_eq!(repository.get(absent), None);
}

#[test]
fn resources_of_different_types_live_side_by_side() {
    let mut repository: ResourceRepositoryInner<ConfigV1> = ResourceRepositoryInner::new();
    let one = TypeTag::of::<ConfigV1>();
    let other = TypeTag::of::<Router>();
    assert_ne!(one, other);
    repository.insert(one, ConfigV1 { port: 1 });
    repository.insert(other, ConfigV1 { port: 2 });
    assert_eq!(repository.get(one), Some(ConfigV1 { port: 1 }));
    assert_eq!(repository.get(other), Some(ConfigV1 { port: 2 }));
}

#[test]
fn type_tag_is_stable_and_raw_round_trips() {
    assert_eq!(TypeTag::of::<ConfigV1>(), TypeTag::of::<ConfigV1>());
    assert_eq!(TypeTag::from_raw(42).raw(), 42);
    assert_eq!(TypeTag::of::<ConfigV1>().raw(), moonbase::utils::hash(&std::any::TypeId::of::<ConfigV1>()));
}

#[test]
fn resource_wrapper_hands_value_back() {
    let resource = Resource::new(ConfigV1 { port: 7 });
    assert_eq!(resource.as_ref(), &ConfigV1 { port: 7 });
    assert_eq!(resource.into_inner(), ConfigV1 { port: 7 });
}

#[test]
fn components_under_distinct_names_do_not_overwrite() {
    let mut repository: ComponentRepositoryInner<Router> = ComponentRepositoryInner::new();
    let a = ComponentName::<Router>::new("a");
    let b = ComponentName::<Router>::new("b");
    assert_eq!(repository.insert(&a, router("/a")), None);
    assert_eq!(repository.insert(&b, router("/b")), None);
    assert_eq!(repository.get(&a), Some(router("/a")));
    assert_eq!(repository.get(&b), Some(router("/b")));
    assert_eq!(repository.insert(&a, router("/a2")), Some(router("/a")));
    assert_eq!(repository.get(&b), Some(router("/b")));
    assert_eq!(repository.get_ref(&a), Some(&router("/a2")));
}

#[test]
fn component_remove_then_get_finds_nothing() {
    let mut repository: ComponentRepositoryInner<Router> = ComponentRepositoryInner::new();
    let a = ComponentName::<Router>::new("a");
    let absent = ComponentName::<Router>::new("absent");
    repository.insert(&a, router("/a"));
    assert!(repository.contains(&a));
    assert_eq!(repository.remove(&absent), None);
    assert_eq!(repository.get(&a), Some(router("/a")));
    assert_eq!(repository.remove(&a), Some(router("/a")));
    assert_eq!(repository.get(&a), None);
    assert!(!repository.contains(&a));
    assert_eq!(repository.remove(&a), None);
}

#[test]
fn component_found_through_an_equal_name() {
    let mut repository: ComponentRepositoryInner<Router> = ComponentRepositoryInner::new();
    repository.insert(&ComponentName::<Router>::new("main"), router("/"));
    let mut again = ComponentName::<Router>::new("main");
    again.reset_name("renamed");
    assert_eq!(repository.get(&again), Some(router("/")));
}

#[test]
fn names_that_differ_in_one_part_are_different_keys() {
    let mut repository: ComponentRepositoryInner<Router> = ComponentRepositoryInner::new();
    let custom = ComponentName::<Router>::new("a");
    let tag = custom.type_tag();
    let other_type = ComponentName::<ConfigV1>::new("a");
    let other_domain = ComponentName::<Router>::with_type_tag(
        "a".to_string(),
        b"a".to_vec(),
        ComponentDomain::TypeTag,
        tag,
    );
    let other_bytes = ComponentName::<Router>::new("b");
    repository.insert(&custom, router("/custom"));
    assert_eq!(repository.get(&other_type), None);
    assert_eq!(repository.get(&other_domain), None);
    assert_eq!(repository.get(&other_bytes), None);
    assert_eq!(repository.insert(&other_type, router("/type")), None);
    assert_eq!(repository.insert(&other_domain, router("/domain")), None);
    assert_eq!(repository.insert(&other_bytes, router("/bytes")), None);
    assert_eq!(repository.get(&custom), Some(router("/custom")));
    assert_eq!(repository.get(&other_type), Some(router("/type")));
    assert_eq!(repository.get(&other_domain), Some(router("/domain")));
    assert_eq!(repository.get(&other_bytes), Some(router("/bytes")));
    assert_eq!(repository.remove(&other_domain), Some(router("/domain")));
    assert_eq!(repository.get(&custom), Some(router("/custom")));
    assert_eq!(repository.get(&other_domain), None);
}

#[test]
fn component_is_found_by_its_key_whatever_the_hash() {
    let mut repository: ComponentRepositoryInner<Router> = ComponentRepositoryInner::new();
    let name = ComponentName::<Router>::new("a");
    repository.insert(&name, router("/a"));
    let same = ComponentName::<Router>::with_type_tag(
        "shown otherwise".to_string(),
        name.bytes().to_vec(),
        name.domain(),
        name.type_tag(),
    );
    assert!(name.is_key(&same.to_key()));
    assert_eq!(same.hash(), name.hash());
    assert_eq!(repository.get(&same), Some(router("/a")));
    assert!(!ComponentName::<Router>::new("b").is_key(&name.to_key()));
    assert_eq!(name.to_key().type_tag(), name.type_tag());
}

#[test]
fn iter_yields_the_components_of_one_type() {
    let mut repository: ComponentRepositoryInner<Router> = ComponentRepositoryInner::new();
    let a = ComponentName::<Router>::new("a");
    let b = ComponentName::<Router>::new("b");
    let c = ComponentName::<ConfigV1>::new("c");
    repository.insert(&a, router("/a"));
    repository.insert(&b, router("/b"));
    repository.insert(&c, router("/c"));
    let mut found: Vec<String> = repository
        .iter(TypeTag::of::<Router>())
        .into_iter()
        .map(|router| router.routes[0].clone())
        .collect();
    found.sort();
    assert_eq!(found, vec!["/a".to_string(), "/b".to_string()]);
    let others = repository.iter(TypeTag::of::<ConfigV1>());
    assert_eq!(others, vec![&router("/c")]);
    assert!(repository.iter(TypeTag::from_raw(0)).is_empty());
}

#[test]
fn any_map_shares_what_it_holds() {
    let mut map: AnyMap<ConfigV1> = AnyMap::new();
    let tag = TypeTag::of::<ConfigV1>();
    assert!(!map.has(tag));
    assert!(map.insert(tag, ConfigV1 { port: 1 }).is_none());
    assert!(map.has(tag));
    let first = map.get(tag).expect("held");
    let second = map.get(tag).expect("held");
    assert_eq!(*first, ConfigV1 { port: 1 });
    assert!(std::sync::Arc::ptr_eq(&first, &second));
    let replaced = map.insert(tag, ConfigV1 { port: 2 }).expect("replaced");
    assert!(std::sync::Arc::ptr_eq(&first, &replaced));
    assert_eq!(*map.get(tag).expect("held"), ConfigV1 { port: 2 });
    assert_eq!(*map.remove(tag).expect("held"), ConfigV1 { port: 2 });
    assert!(map.get(tag).is_none());
    assert!(map.remove(tag).is_none());
}
