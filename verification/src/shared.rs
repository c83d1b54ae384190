//! Sharing of values that many hold at once.

use vstd::prelude::*;
use std::sync::Arc;

verus! {

/// Hands out one more pointer to a shared value; `Arc::clone` of std. The
/// contract claims that the new pointer leads to the same value as the old one.
#[verifier::external_body]
pub(crate) fn share<T>(shared: &Arc<T>) -> (again: Arc<T>)
    ensures
        again == *shared,
{
    Arc::clone(shared)
}

} // verus!
