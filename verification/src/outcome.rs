//! What a single attempt at an operation that may have to wait came to.

use vstd::prelude::*;

verus! {

/// What one attempt to obtain a result came to.
#[derive(Debug, PartialEq, Eq)]
pub enum Polled<R> {
    /// Nothing yet: the caller has to wait.
    Pending,
    /// The operation resolved.
    Ready(R),
}

} // verus!
