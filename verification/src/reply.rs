//! What has become of a request that the caller carries out.

use vstd::prelude::*;

verus! {

/// What has become of a request.
#[derive(Debug, PartialEq, Eq)]
pub enum Reply<T> {
    /// Not asked yet.
    Pending,
    /// Asked, and failed or timed out.
    Failed,
    /// Answered.
    Got(T),
}

} // verus!
