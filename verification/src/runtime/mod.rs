//! What a runtime needs from the executor that it lives on.

use std::future::Future;
use vstd::prelude::*;

verus! {

/// The capability to run a future in the background.
pub trait Runtime {
    /// Schedules `future` and returns at once.
    fn spawn<F>(&self, future: F) where F: Future<Output = ()> + Send + 'static;
}

} // verus!
