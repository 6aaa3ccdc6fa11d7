//! Guarded routing for axum: every route registered through a [`GuardRouter`]
//! carries a fixed (resource, action, roles) binding, and a pluggable guard is
//! asked about that binding before the route's handler may run.

pub mod action;
pub mod guard;
pub mod host;
pub mod layer;
pub mod roles;
pub mod router;
pub mod service;

pub use guard::OnGuard;
pub use router::GuardRouter;
