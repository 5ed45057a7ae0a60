//! Sharing of reference-counted handles.

use std::sync::Arc;
use vstd::prelude::*;

verus! {

/// Calls `Arc::clone`: the result is another handle to the same value.
#[verifier::external_body]
pub(crate) fn share<T: ?Sized>(handle: &Arc<T>) -> (shared: Arc<T>)
    ensures
        shared == *handle,
{
    Arc::clone(handle)
}

} // verus!
