//! Where the endpoints of a cluster are.

use vstd::prelude::*;

verus! {

/// Identifies an endpoint.
#[derive(Debug, Clone, Copy, PartialEq, Eq, Hash, Structural)]
pub struct EndpointId(pub u64);

/// Where an endpoint is.
#[derive(Debug)]
pub enum EndpointLocation {
    Local,
    Remote(RemoteEndpoint),
}

/// How a remote endpoint is reached, with its address.
#[derive(Debug)]
pub enum RemoteEndpoint {
    Tcp(String),
    Udp(String),
}

} // verus!
