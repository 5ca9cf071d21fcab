//! Names of components: a domain, a type and a byte string, with a cached
//! hash that leads to the component in its repository. The key of a name is
//! all three parts; the hash is only the way in.

use std::collections::hash_map::DefaultHasher;
use std::hash::Hasher;
use std::marker::PhantomData;
use vstd::prelude::*;
use vstd::std_specs::hash::DefaultHasherAdditionalSpecFns;
use vstd::string::StringSliceAdditionalSpecFns;

use crate::utils::bytes::bytes_eq;
use crate::utils::bytes::spec_u64_to_be_bytes;
use crate::utils::bytes::u64_to_be_bytes;
use crate::utils::TypeTag;

verus! {

/// The purpose that a component name serves. Names of different domains
/// never address the same component, whatever their bytes.
#[derive(Debug, Clone, Copy, PartialEq, Eq, Hash, Structural)]
#[non_exhaustive]
pub enum ComponentDomain {
    /// The name addresses the handle of a running daemon.
    DaemonHandle,
    /// The name stands for a type that only serves as a tag.
    TypeTag,
    /// The name was chosen by the user.
    Custom,
}

impl ComponentDomain {
    /// The byte that separates the domains in the hash of a name.
    pub open spec fn spec_code(self) -> u8 {
        match self {
            ComponentDomain::DaemonHandle => 0,
            ComponentDomain::TypeTag => 1,
            ComponentDomain::Custom => 2,
        }
    }

    /// The byte that separates the domains in the hash of a name.
    pub fn code(self) -> (code: u8)
        ensures
            code == self.spec_code(),
    {
        match self {
            ComponentDomain::DaemonHandle => 0,
            ComponentDomain::TypeTag => 1,
            ComponentDomain::Custom => 2,
        }
    }

    /// The word for the domain in a rendered name.
    pub open spec fn spec_label(self) -> Seq<char> {
        match self {
            ComponentDomain::DaemonHandle => "Daemon"@,
            ComponentDomain::TypeTag => "TypeTag"@,
            ComponentDomain::Custom => "Custom"@,
        }
    }

    /// The word for the domain in a rendered name.
    pub fn label(self) -> (label: &'static str)
        ensures
            label@ == self.spec_label(),
    {
        match self {
            ComponentDomain::DaemonHandle => "Daemon",
            ComponentDomain::TypeTag => "TypeTag",
            ComponentDomain::Custom => "Custom",
        }
    }
}

/// The hash of a key: the default hasher's result after
/// the name's bytes, the eight bytes of the type tag (least significant
/// first) and the domain's byte have been written to it, in this order.
pub open spec fn spec_hash_fields(bytes: Seq<u8>, type_tag: TypeTag, domain: ComponentDomain) -> u64 {
    DefaultHasher::spec_finish(
        seq![bytes, vstd::bytes::spec_u64_to_le_bytes(type_tag.id), seq![domain.spec_code()]],
    )
}

/// The key that a name stands for: its domain, the identity of its type and
/// its bytes. Two names address the same component exactly if their keys are
/// equal.
pub ghost struct ComponentKey {
    pub domain: ComponentDomain,
    pub type_tag: TypeTag,
    pub bytes: Seq<u8>,
}

impl ComponentKey {
    /// The hash of the key: the hash that every name of this key carries.
    pub open spec fn spec_hash(self) -> u64 {
        spec_hash_fields(self.bytes, self.type_tag, self.domain)
    }
}

/// A key as a repository stores it.
#[derive(Debug)]
pub struct StoredKey {
    domain: ComponentDomain,
    type_tag: TypeTag,
    bytes: Vec<u8>,
}

impl View for StoredKey {
    type V = ComponentKey;

    closed spec fn view(&self) -> ComponentKey {
        ComponentKey { domain: self.domain, type_tag: self.type_tag, bytes: self.bytes@ }
    }
}

impl StoredKey {
    /// The identity of the type that the key belongs to.
    pub fn type_tag(&self) -> (type_tag: TypeTag)
        ensures
            type_tag == self@.type_tag,
    {
        self.type_tag
    }
}

/// The mathematical content of a [`ComponentName`].
pub ghost struct ComponentNameView {
    pub domain: ComponentDomain,
    pub bytes: Seq<u8>,
    pub readable_name: Seq<char>,
    pub type_tag: TypeTag,
    pub hash: u64,
}

impl ComponentNameView {
    /// The name made of the given parts, with the hash that belongs to them.
    pub open spec fn of(
        readable_name: Seq<char>,
        bytes: Seq<u8>,
        domain: ComponentDomain,
        type_tag: TypeTag,
    ) -> ComponentNameView {
        ComponentNameView {
            domain,
            bytes,
            readable_name,
            type_tag,
            hash: spec_hash_fields(bytes, type_tag, domain),
        }
    }

    /// The key that the name stands for.
    pub open spec fn key(self) -> ComponentKey {
        ComponentKey { domain: self.domain, type_tag: self.type_tag, bytes: self.bytes }
    }

    /// Whether the cached hash is the hash of the name's parts.
    pub open spec fn well_formed(self) -> bool {
        self.hash == spec_hash_fields(self.bytes, self.type_tag, self.domain)
    }

    /// Whether two names are the same key: their domain, type and bytes all
    /// match. The readable name plays no part.
    pub open spec fn same_key(self, other: ComponentNameView) -> bool {
        self.key() == other.key()
    }

    /// The name as it is shown to a reader, given the description of its
    /// type.
    pub open spec fn rendered(self, type_text: Seq<char>) -> Seq<char> {
        self.domain.spec_label() + "::"@ + self.readable_name + "::["@ + type_text + "]"@
    }
}

/// The name of a component of type `T`.
#[derive(Debug)]
pub struct ComponentName<T> {
    /// domain of the component
    domain: ComponentDomain,
    bytes: Vec<u8>,
    /// readable name of the component
    readable_name: String,
    /// identity of the component's type
    type_tag: TypeTag,
    /// hash cache
    hash: u64,
    _marker: PhantomData<T>,
}

impl<T> View for ComponentName<T> {
    type V = ComponentNameView;

    closed spec fn view(&self) -> ComponentNameView {
        ComponentNameView {
            domain: self.domain,
            bytes: self.bytes@,
            readable_name: self.readable_name@,
            type_tag: self.type_tag,
            hash: self.hash,
        }
    }
}

impl<T> ComponentName<T> {
    /// Every name carries the hash of its parts.
    #[verifier::type_invariant]
    closed spec fn carries_its_hash(self) -> bool {
        self.hash == spec_hash_fields(self.bytes@, self.type_tag, self.domain)
    }
}

impl<T> Clone for ComponentName<T> {
    fn clone(&self) -> (copy: Self)
        ensures
            copy@ == self@,
    {
        proof {
            use_type_invariant(self);
        }
        ComponentName {
            domain: self.domain,
            bytes: vstd::slice::slice_to_vec(self.bytes.as_slice()),
            readable_name: self.readable_name.clone(),
            type_tag: self.type_tag,
            hash: self.hash,
            _marker: PhantomData,
        }
    }
}

impl<T: 'static> ComponentName<T> {
    /// Computes the hash of a key.
    pub fn hash_fields(bytes: &[u8], type_tag: TypeTag, domain: ComponentDomain) -> (hash: u64)
        ensures
            hash == spec_hash_fields(bytes@, type_tag, domain),
    {
        let mut hasher = DefaultHasher::new();
        hasher.write(bytes);
        let tag_bytes = vstd::bytes::u64_to_le_bytes(type_tag.raw());
        hasher.write(tag_bytes.as_slice());
        let mut domain_bytes: Vec<u8> = Vec::new();
        domain_bytes.push(domain.code());
        hasher.write(domain_bytes.as_slice());
        assert(domain_bytes@ =~= seq![domain.spec_code()]);
        assert(hasher@ =~= seq![
            bytes@,
            vstd::bytes::spec_u64_to_le_bytes(type_tag.id),
            seq![domain.spec_code()],
        ]);
        hasher.finish()
    }

    /// Creates a name from all of its parts.
    pub fn with_type_tag(
        name: String,
        bytes: Vec<u8>,
        domain: ComponentDomain,
        type_tag: TypeTag,
    ) -> (created: Self)
        ensures
            created@ == ComponentNameView::of(name@, bytes@, domain, type_tag),
    {
        let hash = Self::hash_fields(bytes.as_slice(), type_tag, domain);
        ComponentName { readable_name: name, hash, domain, type_tag, _marker: PhantomData, bytes }
    }

    /// Creates a name for a component of type `T` in the given domain.
    pub fn new_with_domain(name: String, bytes: Vec<u8>, domain: ComponentDomain) -> (created:
        Self)
        ensures
            created@ == ComponentNameView::of(name@, bytes@, domain, created@.type_tag),
    {
        Self::with_type_tag(name, bytes, domain, TypeTag::of::<T>())
    }

    /// The name under which the handle of the daemon `D` is registered. Its
    /// bytes are the eight bytes of the daemon's type tag, most significant
    /// first; `description` is its readable name.
    pub fn new_daemon_handle<D: 'static>(description: &str) -> (created: Self)
        ensures
            exists|daemon: TypeTag|
                created@ == ComponentNameView::of(
                    description@,
                    spec_u64_to_be_bytes(daemon.id),
                    ComponentDomain::DaemonHandle,
                    created@.type_tag,
                ),
    {
        let bytes = u64_to_be_bytes(TypeTag::of::<D>().raw());
        Self::new_with_domain(description.to_owned(), bytes, ComponentDomain::DaemonHandle)
    }

    /// The name that the user chose: its bytes are those of the text.
    pub fn new(id: &str) -> (created: Self)
        ensures
            created@ == ComponentNameView::of(
                id@,
                id.spec_bytes(),
                ComponentDomain::Custom,
                created@.type_tag,
            ),
    {
        let name = id.to_owned();
        let bytes = vstd::slice::slice_to_vec(id.as_bytes());
        Self::new_with_domain(name, bytes, ComponentDomain::Custom)
    }

    /// The name that stands for the type `Tag`. Its bytes are the eight
    /// bytes of that type's tag, most significant first; `description` is
    /// its readable name.
    pub fn new_type_tag<Tag: 'static>(description: &str) -> (created: Self)
        ensures
            exists|tag: TypeTag|
                created@ == ComponentNameView::of(
                    description@,
                    spec_u64_to_be_bytes(tag.id),
                    ComponentDomain::TypeTag,
                    created@.type_tag,
                ),
    {
        let hashed = TypeTag::of::<Tag>();
        Self::new_with_domain(
            description.to_owned(),
            u64_to_be_bytes(hashed.raw()),
            ComponentDomain::TypeTag,
        )
    }
}

impl<T> ComponentName<T> {
    /// The name as it is shown to a reader: the domain, the readable name
    /// and the description of the component's type.
    pub fn render(&self, type_text: &str) -> (text: String)
        ensures
            text@ == self@.rendered(type_text@),
    {
        let mut text = self.domain.label().to_owned();
        text.append("::");
        text.append(self.readable_name.as_str());
        text.append("::[");
        text.append(type_text);
        text.append("]");
        text
    }

    /// get the readable name
    pub fn readable_name(&self) -> (name: &str)
        ensures
            name@ == self@.readable_name,
    {
        self.readable_name.as_str()
    }

    /// get the hash value of the name: the hash of its parts
    pub fn hash(&self) -> (hash: u64)
        ensures
            hash == self@.hash,
            self@.well_formed(),
    {
        proof {
            use_type_invariant(self);
        }
        self.hash
    }

    /// The key that the name stands for, as a repository stores it.
    pub fn to_key(&self) -> (key: StoredKey)
        ensures
            key@ == self@.key(),
    {
        StoredKey {
            domain: self.domain,
            type_tag: self.type_tag,
            bytes: vstd::slice::slice_to_vec(self.bytes.as_slice()),
        }
    }

    /// Whether the name stands for `key`.
    pub fn is_key(&self, key: &StoredKey) -> (same: bool)
        ensures
            same == (self@.key() == key@),
    {
        let same = self.domain == key.domain && self.type_tag == key.type_tag && bytes_eq(
            self.bytes.as_slice(),
            key.bytes.as_slice(),
        );
        proof {
            if same {
                assert(self@.key().bytes =~= key@.bytes);
            }
        }
        same
    }

    /// The domain of the name.
    pub fn domain(&self) -> (domain: ComponentDomain)
        ensures
            domain == self@.domain,
    {
        self.domain
    }

    /// The identity of the component's type.
    pub fn type_tag(&self) -> (type_tag: TypeTag)
        ensures
            type_tag == self@.type_tag,
    {
        self.type_tag
    }

    /// The bytes of the name.
    pub fn bytes(&self) -> (bytes: &[u8])
        ensures
            bytes@ == self@.bytes,
    {
        self.bytes.as_slice()
    }

    /// reset the readable name
    pub fn reset_name(&mut self, name: &str)
        ensures
            final(self)@ == (ComponentNameView { readable_name: name@, ..old(self)@ }),
    {
        proof {
            use_type_invariant(&*self);
        }
        self.readable_name = name.to_owned();
    }

    /// Whether two names are the same key.
    pub fn same_key(&self, other: &ComponentName<T>) -> (same: bool)
        ensures
            same == self@.same_key(other@),
    {
        let same = self.domain == other.domain && self.type_tag == other.type_tag && bytes_eq(
            self.bytes.as_slice(),
            other.bytes.as_slice(),
        );
        proof {
            if same {
                assert(self@.key().bytes =~= other@.key().bytes);
            }
        }
        same
    }
}

/// Names that are the same key lead to the same bucket: if both carry the
/// hash of their parts, their hashes are equal.
pub proof fn same_key_same_hash(a: ComponentNameView, b: ComponentNameView)
    requires
        a.well_formed(),
        b.well_formed(),
        a.same_key(b),
    ensures
        a.hash == b.hash,
{
}

} // verus!
