use moonbase::components::ComponentDomain;
use moonbase::components::ComponentName;
use moonbase::utils::bytes::bytes_eq;
use moonbase::utils::bytes::u64_to_be_bytes;
use moonbase::utils::TypeTag;
use std::collections::hash_map::DefaultHasher;
use std::hash::Hasher;

struct Left;

struct Right;

#[test]
fn big_endian_bytes_of_an_integer() {
    assert_eq!(u64_to_be_bytes(0x0102030405060708), vec![1, 2, 3, 4, 5, 6, 7, 8]);
    assert_eq!(u64_to_be_bytes(0), vec![0; 8]);
    assert_eq!(u64_to_be_bytes(u64::MAX), vec![0xff; 8]);
    assert_eq!(u64_to_be_bytes(258), 258u64.to_be_bytes().to_vec());
}

#[test]
fn byte_strings_compare_by_content() {
    assert!(bytes_eq(b"", b""));
    assert!(bytes_eq(b"abc", b"abc"));
    assert!(!bytes_eq(b"abc", b"abd"));
    assert!(!bytes_eq(b"abc", b"ab"));
    assert!(!bytes_eq(b"", b"a"));
}

#[test]
fn hash_of_a_name_is_the_hash_of_its_parts() {
    let tag = TypeTag::from_raw(0x1122334455667788);
    let mut hasher = DefaultHasher::new();
    hasher.write(b"router");
    hasher.write(&0x1122334455667788u64.to_le_bytes());
    hasher.write(&[2]);
    let expected = hasher.finish();
    assert_eq!(
        ComponentName::<Left>::hash_fields(b"router", tag, ComponentDomain::Custom),
        expected
    );
    let name = ComponentName::<Left>::with_type_tag(
        "shown".to_string(),
        b"router".to_vec(),
        ComponentDomain::Custom,
        tag,
    );
    assert_eq!(name.hash(), expected);
    assert_eq!(name.type_tag(), tag);
    assert_eq!(name.bytes(), b"router");
    assert_eq!(name.readable_name(), "shown");
    assert_eq!(name.domain(), ComponentDomain::Custom);
}

#[test]
fn domains_are_separated_in_the_hash() {
    let tag = TypeTag::from_raw(7);
    let custom = ComponentName::<Left>::hash_fields(b"x", tag, ComponentDomain::Custom);
    let daemon = ComponentName::<Left>::hash_fields(b"x", tag, ComponentDomain::DaemonHandle);
    let type_tag = ComponentName::<Left>::hash_fields(b"x", tag, ComponentDomain::TypeTag);
    assert_ne!(custom, daemon);
    assert_ne!(custom, type_tag);
    assert_ne!(daemon, type_tag);
    assert_eq!(ComponentDomain::DaemonHandle.code(), 0);
    assert_eq!(ComponentDomain::TypeTag.code(), 1);
    assert_eq!(ComponentDomain::Custom.code(), 2);
}

#[test]
fn custom_name_is_made_of_its_text() {
    let name = ComponentName::<Left>::new("main");
    assert_eq!(name.readable_name(), "main");
    assert_eq!(name.bytes(), b"main");
    assert_eq!(name.domain(), ComponentDomain::Custom);
    assert_eq!(name.type_tag(), TypeTag::of::<Left>());
    assert_eq!(
        name.hash(),
        ComponentName::<Left>::hash_fields(b"main", TypeTag::of::<Left>(), ComponentDomain::Custom)
    );
}

#[test]
fn names_of_types_carry_the_tag_bytes() {
    let tagged = ComponentName::<Left>::new_type_tag::<Right>("Right");
    assert_eq!(tagged.domain(), ComponentDomain::TypeTag);
    assert_eq!(tagged.readable_name(), "Right");
    assert_eq!(tagged.bytes(), TypeTag::of::<Right>().raw().to_be_bytes());
    assert_eq!(tagged.type_tag(), TypeTag::of::<Left>());
    let daemon = ComponentName::<Left>::new_daemon_handle::<Right>("Right");
    assert_eq!(daemon.domain(), ComponentDomain::DaemonHandle);
    assert_eq!(daemon.bytes(), TypeTag::of::<Right>().raw().to_be_bytes());
    assert_ne!(daemon.hash(), tagged.hash());
}

#[test]
fn same_key_ignores_the_readable_name() {
    let a = ComponentName::<Left>::new("a");
    let mut renamed = a.clone();
    renamed.reset_name("shown otherwise");
    assert_eq!(renamed.readable_name(), "shown otherwise");
    assert_eq!(renamed.bytes(), b"a");
    assert_eq!(renamed.hash(), a.hash());
    assert!(a.same_key(&renamed));
    assert!(!a.same_key(&ComponentName::<Left>::new("b")));
    let other_domain = ComponentName::<Left>::new_with_domain(
        "a".to_string(),
        b"a".to_vec(),
        ComponentDomain::TypeTag,
    );
    assert!(!a.same_key(&other_domain));
    let other_tag = ComponentName::<Left>::with_type_tag(
        "a".to_string(),
        b"a".to_vec(),
        ComponentDomain::Custom,
        TypeTag::from_raw(a.type_tag().raw().wrapping_add(1)),
    );
    assert!(!a.same_key(&other_tag));
}

#[test]
fn name_renders_domain_name_and_type() {
    let name = ComponentName::<Left>::new("main");
    assert_eq!(name.render("app::Left"), "Custom::main::[app::Left]");
    let daemon = ComponentName::<Left>::new_daemon_handle::<Right>("app::Right");
    assert_eq!(daemon.render("Handle"), "Daemon::app::Right::[Handle]");
    assert_eq!(ComponentDomain::TypeTag.label(), "TypeTag");
}
