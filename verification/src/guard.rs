//! The capability that a host application implements to decide who may do what.

use axum::response::Response;
use vstd::prelude::*;

verus! {

/// Answers the two questions that are put before a guarded handler runs.
///
/// Both answers default to "allowed". A denial carries the response that is
/// sent to the client in place of the handler's.
pub trait OnGuard {
    /// May `action` be performed on `resource`? Asked once for each guarded
    /// request, after the roles were accepted.
    ///
    /// Nothing is promised of an implementor's answer; the answer provided
    /// here allows.
    fn on_guard(&self, _resource: &str, _action: &str) -> (verdict: Result<(), Response>)
        default_ensures
            verdict is Ok,
    {
        Ok(())
    }

    /// Are these roles accepted? Asked once for each guarded request whose
    /// router carries a role list with at least one role in it, before
    /// anything else; never with an empty list.
    ///
    /// Nothing is promised of an implementor's answer; the answer provided
    /// here allows.
    fn on_roles(&self, _roles: &[String]) -> (verdict: Result<(), Response>)
        default_ensures
            verdict is Ok,
    {
        Ok(())
    }
}

} // verus!
