//! Small shared helpers: hashing, type identity, byte strings and a map
//! keyed by type.

pub mod anymap;
pub mod assoc;
pub mod bytes;
pub mod hash;

pub use anymap::AnyMap;
pub use hash::hash;
pub use hash::TypeTag;
