//! Configuration held together with the context that it was resolved in.

use vstd::prelude::*;

verus! {

/// A configuration in the course of being resolved: the raw bytes, their
/// hash, the context and, once resolved, the configuration.
#[derive(Debug)]
pub struct ConfigResolver<Cfg, Ctx> {
    pub hash: u64,
    pub context: Ctx,
    pub config: Option<Cfg>,
    pub raw: Vec<u8>,
}

} // verus!
