//! What holds of the two typed registries, stated over their content.

use vstd::prelude::*;
use vstd::string::StringSliceAdditionalSpecFns;

use crate::components::stored_under;
use crate::components::ComponentNameView;
use crate::components::ComponentKey;
use crate::resource::stored_for;
use crate::utils::TypeTag;

verus! {

/// After a resource has been stored for a type, it is what is found for that
/// type, whatever was stored before.
pub proof fn resource_found_after_insert<V>(content: Map<u64, V>, type_tag: TypeTag, value: V)
    ensures
        stored_for(content.insert(type_tag.id, value), type_tag) == Some(value),
{
}

/// After the resource of a type has been removed, none is found for that
/// type.
pub proof fn resource_gone_after_remove<V>(content: Map<u64, V>, type_tag: TypeTag)
    ensures
        stored_for(content.remove(type_tag.id), type_tag) == None::<V>,
{
}

/// Removing the resource of a type that has none finds nothing and changes
/// nothing.
pub proof fn resource_remove_absent<V>(content: Map<u64, V>, type_tag: TypeTag)
    requires
        !content.contains_key(type_tag.id),
    ensures
        stored_for(content, type_tag) == None::<V>,
        content.remove(type_tag.id) == content,
{
    assert(content.remove(type_tag.id) =~= content);
}

/// Storing or removing the resource of one type leaves the resources of
/// every other type as they are.
pub proof fn resources_do_not_interfere<V>(
    content: Map<u64, V>,
    changed: TypeTag,
    other: TypeTag,
    value: V,
)
    requires
        changed != other,
    ensures
        stored_for(content.insert(changed.id, value), other) == stored_for(content, other),
        stored_for(content.remove(changed.id), other) == stored_for(content, other),
{
}

/// After a component has been stored under a name, it is what is found under
/// that name and under every name that is the same key.
pub proof fn component_found_after_insert<V>(
    content: Map<ComponentKey, V>,
    name: ComponentNameView,
    again: ComponentNameView,
    value: V,
)
    requires
        again.same_key(name),
    ensures
        stored_under(content.insert(name.key(), value), name) == Some(value),
        stored_under(content.insert(name.key(), value), again) == Some(value),
{
}

/// After the component under a name has been removed, none is found under
/// that name.
pub proof fn component_gone_after_remove<V>(content: Map<ComponentKey, V>, name: ComponentNameView)
    ensures
        stored_under(content.remove(name.key()), name) == None::<V>,
{
}

/// Removing the component under a name that has none finds nothing and
/// changes nothing.
pub proof fn component_remove_absent<V>(content: Map<ComponentKey, V>, name: ComponentNameView)
    requires
        !content.contains_key(name.key()),
    ensures
        stored_under(content, name) == None::<V>,
        content.remove(name.key()) == content,
{
    assert(content.remove(name.key()) =~= content);
}

/// Components under different keys do not overwrite each other: storing or
/// removing under one name leaves what is found under every name that
/// differs from it in domain, type or bytes as it is. In particular what is
/// stored under one key is never found under another.
pub proof fn components_do_not_interfere<V>(
    content: Map<ComponentKey, V>,
    changed: ComponentNameView,
    other: ComponentNameView,
    value: V,
)
    requires
        changed.domain != other.domain || changed.type_tag != other.type_tag || changed.bytes
            != other.bytes,
    ensures
        stored_under(content.insert(changed.key(), value), other) == stored_under(content, other),
        stored_under(content.remove(changed.key()), other) == stored_under(content, other),
{
}

/// Names of different domains never address the same component, whatever
/// their bytes and their type: what is stored under a name of one domain is
/// not found under a name of another.
pub proof fn domains_are_separate<V>(
    content: Map<ComponentKey, V>,
    stored: ComponentNameView,
    asked: ComponentNameView,
    value: V,
)
    requires
        stored.domain != asked.domain,
    ensures
        stored_under(content.insert(stored.key(), value), asked) == stored_under(content, asked),
        stored_under(Map::<ComponentKey, V>::empty().insert(stored.key(), value), asked)
            == None::<V>,
{
}

/// Names made of different texts are different keys: the bytes of a text
/// tell it from every other text.
pub proof fn texts_name_different_keys(a: &str, b: &str)
    requires
        a@ != b@,
    ensures
        a.spec_bytes() != b.spec_bytes(),
{
    vstd::utf8::encode_utf8_decode_utf8(a@);
    vstd::utf8::encode_utf8_decode_utf8(b@);
}

} // verus!
