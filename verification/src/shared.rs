//! Shared, reference-counted buffers.
use std::sync::Arc;
use vstd::prelude::*;

verus! {

/// `Arc::clone`: a second handle to the same value.
#[verifier::external_body]
pub(crate) fn share<T>(value: &Arc<T>) -> (shared: Arc<T>)
    ensures
        shared == *value,
{
    Arc::clone(value)
}

/// `Arc::try_unwrap`: the value when this is its only handle, or the handle
/// unchanged when the value is still shared (which depends on other handles).
#[verifier::external_body]
pub(crate) fn unwrap_shared<T>(value: Arc<T>) -> (result: Result<T, Arc<T>>)
    ensures
        match result {
            Ok(inner) => inner == *value,
            Err(shared) => shared == value,
        },
{
    Arc::try_unwrap(value)
}

} // verus!
