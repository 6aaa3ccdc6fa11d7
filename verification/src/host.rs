//! The axum and std items that the library carries through its own logic.
//!
//! Nothing in this file is proved: the types are opaque to the verifier, and
//! the two functions state what the code they call is documented to do.

use axum::routing::MethodRouter;
use std::sync::Arc;
use vstd::prelude::*;

verus! {

/// `http::Response<T>`, the response type of axum. The library never looks
/// inside one: a guard builds it and the client receives it.
#[verifier::external_type_specification]
#[verifier::external_body]
#[verifier::reject_recursive_types(T)]
pub struct ExResponse<T>(axum::http::Response<T>);

/// `axum::body::Body`, the body of the responses that a guard hands back.
#[verifier::external_type_specification]
#[verifier::external_body]
pub struct ExBody(axum::body::Body);

/// `axum::routing::MethodRouter<S, E>`: the handlers bound to the methods of
/// one path. The library stores and hands on such values unread.
#[verifier::external_type_specification]
#[verifier::external_body]
#[verifier::reject_recursive_types(S)]
#[verifier::reject_recursive_types(E)]
pub struct ExMethodRouter<S, E>(axum::routing::MethodRouter<S, E>);

/// `Arc::clone`: a second handle to the same guard. Claimed: the new handle
/// denotes the value that the given one denotes.
#[verifier::external_body]
pub(crate) fn share<G>(guard: &Arc<G>) -> (handle: Arc<G>)
    ensures
        handle == *guard,
{
    Arc::clone(guard)
}

/// `MethodRouter::clone`, which clones each method's endpoint in turn.
/// Claimed: the copy is the same method router as the one given.
#[verifier::external_body]
pub(crate) fn copy_handlers<S>(handlers: &MethodRouter<S>) -> (copy: MethodRouter<S>)
    ensures
        copy == *handlers,
{
    handlers.clone()
}

} // verus!
