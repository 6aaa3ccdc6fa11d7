//! The layer that puts a [`GuardService`] around a handler.

use crate::guard::OnGuard;
use crate::host::share;
use crate::roles::{copy_role_list, role_list};
use crate::service::{Binding, GuardService};
use std::sync::Arc;
use vstd::prelude::*;

verus! {

/// A guard and the binding under which it will be asked. One layer wraps any
/// number of handlers; each resulting service carries the same binding.
#[derive(Clone, Debug)]
pub struct GuardActionLayer<G> {
    pub guard: Arc<G>,
    pub resource: String,
    pub action: String,
    pub roles: Option<Vec<String>>,
}

impl<G> View for GuardActionLayer<G> {
    type V = Binding;

    open spec fn view(&self) -> Binding {
        Binding { resource: self.resource@, action: self.action@, roles: role_list(self.roles) }
    }
}

impl<G> GuardActionLayer<G> where G: OnGuard {
    /// A layer for `action` on `resource`, with no role check.
    pub fn new(guard: Arc<G>, resource: &str, action: &str) -> (layer: Self)
        ensures
            layer.guard == guard,
            layer@ == (Binding { resource: resource@, action: action@, roles: None }),
    {
        Self { guard, resource: resource.to_owned(), action: action.to_owned(), roles: None }
    }

    /// The same layer with `roles` in place of whatever role list it had.
    pub fn roles(self, roles: &Option<Vec<String>>) -> (layer: Self)
        ensures
            layer.guard == self.guard,
            layer@ == (Binding {
                resource: self@.resource,
                action: self@.action,
                roles: role_list(*roles),
            }),
    {
        let mut layer = self;
        layer.roles = copy_role_list(roles);
        layer
    }

    /// The service that guards `inner` under this layer's binding, asking
    /// this layer's guard.
    pub fn layer<S>(&self, inner: S) -> (service: GuardService<G, S>)
        ensures
            service.guard == self.guard,
            service.inner == inner,
            service@ == self@,
    {
        GuardService {
            guard: share(&self.guard),
            inner,
            resource: self.resource.clone(),
            action: self.action.clone(),
            roles: copy_role_list(&self.roles),
        }
    }
}

} // verus!
