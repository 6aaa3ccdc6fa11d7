//! The builder that collects guarded routes and wires each of them to the
//! guard.

use crate::action::Action;
use crate::guard::OnGuard;
use crate::host::{copy_handlers, share};
use crate::layer::GuardActionLayer;
use crate::roles::{copy_roles, role_list, role_names, roles_configured};
use crate::service::{Binding, StepView};
use axum::response::Response;
use axum::routing::MethodRouter;
use std::sync::Arc;
use vstd::prelude::*;

verus! {

/// Registrations under one resource name and one guard, with at most one role
/// list that holds for all of them. Roles are checked only where that list
/// holds at least one role.
///
/// Registrations are kept in the order in which they were made. Two of them
/// may name the same path; that they bind different methods there is the
/// caller's obligation, and nothing here resolves a duplicate.
#[derive(Clone)]
#[verifier::reject_recursive_types(S)]
pub struct GuardRouter<G, S = ()> {
    pub resource: String,
    pub roles: Option<Vec<String>>,
    pub actions: Vec<(String, Action<S>)>,
    pub guard: Arc<G>,
}

/// One built registration: a path, and for each action registered there the
/// layer that guards it beside the handlers that the layer is to wrap.
#[verifier::reject_recursive_types(S)]
pub struct GuardedRoute<G, S> {
    pub path: String,
    pub handlers: Vec<(GuardActionLayer<G>, MethodRouter<S>)>,
}

/// The registrations of a router as mathematical pairs: a path and the
/// entries of the action group registered there.
pub open spec fn registrations<S>(actions: Seq<(String, Action<S>)>) -> Seq<
    (Seq<char>, Seq<(Seq<char>, MethodRouter<S>)>),
> {
    actions.map_values(|entry: (String, Action<S>)| (entry.0@, entry.1@))
}

impl<G, S> GuardRouter<G, S> {
    /// The registrations made so far, oldest first.
    pub open spec fn registered(&self) -> Seq<(Seq<char>, Seq<(Seq<char>, MethodRouter<S>)>)> {
        registrations(self.actions@)
    }

    /// The binding under which the action `name` of this router is guarded.
    pub open spec fn binding(&self, name: Seq<char>) -> Binding {
        Binding { resource: self.resource@, action: name, roles: role_list(self.roles) }
    }

    /// `wired` guards the group entry `entry` as this router prescribes: with
    /// this router's guard, under this router's resource and roles and the
    /// entry's own name, around the entry's own handlers.
    pub open spec fn guards(
        &self,
        wired: (GuardActionLayer<G>, MethodRouter<S>),
        entry: (Seq<char>, MethodRouter<S>),
    ) -> bool {
        &&& wired.0.guard == self.guard
        &&& wired.0@ == self.binding(entry.0)
        &&& wired.1 == entry.1
    }

    /// `route` is what registration `i` is built into: the same path, and one
    /// guarded entry for each entry of the group, in the group's order.
    pub open spec fn wires(&self, route: GuardedRoute<G, S>, i: int) -> bool {
        let registration = self.registered()[i];
        &&& route.path@ == registration.0
        &&& route.handlers@.len() == registration.1.len()
        &&& forall|j: int|
            0 <= j < registration.1.len() ==> self.guards(
                #[trigger] route.handlers@[j],
                registration.1[j],
            )
    }

    /// `routes` is the built form of this router: one route for each
    /// registration, in order.
    pub open spec fn builds(&self, routes: Seq<GuardedRoute<G, S>>) -> bool {
        &&& routes.len() == self.registered().len()
        &&& forall|i: int| 0 <= i < routes.len() ==> self.wires(#[trigger] routes[i], i)
    }
}

impl<G, S> GuardRouter<G, S> where
    S: Clone + Send + Sync + 'static,
    G: OnGuard + Clone + Send + Sync + 'static,
 {
    /// A router for `resource` that asks `guard`, with nothing registered and
    /// no role list.
    pub fn new(resource: &str, guard: Arc<G>) -> (router: Self)
        ensures
            router.guard == guard,
            router.resource@ == resource@,
            router.roles is None,
            router.registered().len() == 0,
    {
        Self { guard, resource: resource.to_owned(), actions: Vec::new(), roles: None }
    }

    /// Registers the single action `name` at `path`, served by
    /// `method_router`, after the registrations already made.
    pub fn action(self, name: &str, path: &str, method_router: MethodRouter<S>) -> (router: Self)
        ensures
            router.guard == self.guard,
            router.resource == self.resource,
            router.roles == self.roles,
            router.registered() == self.registered().push((path@, seq![(name@, method_router)])),
    {
        let group = Action::create(name, method_router);
        self.route(path, group)
    }

    /// Registers every entry of the group `action` at `path`, after the
    /// registrations already made.
    pub fn route(self, path: &str, action: Action<S>) -> (router: Self)
        ensures
            router.guard == self.guard,
            router.resource == self.resource,
            router.roles == self.roles,
            router.registered() == self.registered().push((path@, action@)),
    {
        let mut router = self;
        router.actions.push((path.to_owned(), action));
        assert(router.registered() =~= self.registered().push((path@, action@)));
        router
    }

    /// Sets the role list that holds for every action of this router, in
    /// place of any list set before. With an empty list no roles are put to
    /// the guard, as with none.
    pub fn roles(self, roles: &[String]) -> (router: Self)
        ensures
            router.guard == self.guard,
            router.resource == self.resource,
            router.registered() == self.registered(),
            role_list(router.roles) == Some(role_names(roles@)),
    {
        let mut router = self;
        router.roles = Some(copy_roles(roles));
        router
    }

    /// Wires registration `i`: a layer for each entry of its group, beside a
    /// copy of the entry's handlers.
    fn build_route(&self, i: usize) -> (route: GuardedRoute<G, S>)
        requires
            i < self.actions@.len(),
        ensures
            self.wires(route, i as int),
    {
        let registration = &self.actions[i];
        let group = &registration.1.routers;
        let mut handlers: Vec<(GuardActionLayer<G>, MethodRouter<S>)> = Vec::new();
        let mut j: usize = 0;
        while j < group.len()
            invariant
                i < self.actions@.len(),
                group@ == self.actions@[i as int].1.routers@,
                j <= group@.len(),
                handlers@.len() == j,
                forall|k: int|
                    0 <= k < j ==> self.guards(#[trigger] handlers@[k], (group@[k].0@, group@[k].1)),
            decreases group@.len() - j,
        {
            let entry = &group[j];
            let layer = GuardActionLayer::new(
                share(&self.guard),
                self.resource.as_str(),
                entry.0.as_str(),
            ).roles(&self.roles);
            handlers.push((layer, copy_handlers(&entry.1)));
            j += 1;
        }
        GuardedRoute { path: registration.0.clone(), handlers }
    }

    /// Builds the router: for each registration, in order, its path and the
    /// guarded form of each action registered there.
    ///
    /// Every layer carries this router's guard, its resource name, the role
    /// list as it stands now, and the name of the one action it guards. With
    /// nothing registered the result is empty.
    pub fn build(&self) -> (routes: Vec<GuardedRoute<G, S>>)
        ensures
            self.builds(routes@),
    {
        let mut routes: Vec<GuardedRoute<G, S>> = Vec::new();
        let mut i: usize = 0;
        while i < self.actions.len()
            invariant
                i <= self.actions@.len(),
                routes@.len() == i,
                forall|k: int| 0 <= k < i ==> self.wires(#[trigger] routes@[k], k),
            decreases self.actions@.len() - i,
        {
            routes.push(self.build_route(i));
            i += 1;
        }
        routes
    }
}

/// Every built entry is guarded as it was registered: it stands at the path
/// of its registration, wraps the handlers registered under its name, asks
/// the router's guard, and for each request puts the router's role list
/// first, where it holds any role, then the router's resource with the entry's own
/// action name; each question once, the second only if the roles passed.
pub proof fn lemma_built_entry_asks_as_registered<G, S>(
    router: GuardRouter<G, S>,
    routes: Seq<GuardedRoute<G, S>>,
    i: int,
    j: int,
    roles_verdict: Result<(), Response>,
    guard_verdict: Result<(), Response>,
)
    requires
        router.builds(routes),
        0 <= i < router.registered().len(),
        0 <= j < router.registered()[i].1.len(),
    ensures
        routes[i].path@ == router.registered()[i].0,
        routes[i].handlers@[j].1 == router.registered()[i].1[j].1,
        routes[i].handlers@[j].0.guard == router.guard,
        routes[i].handlers@[j].0@.run(roles_verdict, guard_verdict).asked == (if !roles_configured(
            role_list(router.roles),
        ) {
            seq![StepView::AskGuard(router.resource@, router.registered()[i].1[j].0)]
        } else if roles_verdict is Err {
            seq![StepView::AskRoles(role_list(router.roles)->Some_0)]
        } else {
            seq![
                StepView::AskRoles(role_list(router.roles)->Some_0),
                StepView::AskGuard(router.resource@, router.registered()[i].1[j].0),
            ]
        }),
{
    assert(router.wires(routes[i], i));
    assert(router.guards(routes[i].handlers@[j], router.registered()[i].1[j]));
}

/// How an entry is guarded does not depend on where it is mounted: two
/// routers that agree in guard, resource, roles and action groups, whatever
/// their paths, build entries with the same guard, binding and handlers.
pub proof fn lemma_guarding_ignores_paths<G, S>(
    near: GuardRouter<G, S>,
    far: GuardRouter<G, S>,
    near_routes: Seq<GuardedRoute<G, S>>,
    far_routes: Seq<GuardedRoute<G, S>>,
    i: int,
    j: int,
)
    requires
        near.builds(near_routes),
        far.builds(far_routes),
        near.guard == far.guard,
        near.resource@ == far.resource@,
        role_list(near.roles) == role_list(far.roles),
        near.registered().len() == far.registered().len(),
        0 <= i < near.registered().len(),
        near.registered()[i].1 == far.registered()[i].1,
        0 <= j < near.registered()[i].1.len(),
    ensures
        near_routes[i].handlers@[j].0.guard == far_routes[i].handlers@[j].0.guard,
        near_routes[i].handlers@[j].0@ == far_routes[i].handlers@[j].0@,
        near_routes[i].handlers@[j].1 == far_routes[i].handlers@[j].1,
{
    assert(near.wires(near_routes[i], i));
    assert(far.wires(far_routes[i], i));
    assert(near.guards(near_routes[i].handlers@[j], near.registered()[i].1[j]));
    assert(far.guards(far_routes[i].handlers@[j], far.registered()[i].1[j]));
}

/// Two entries that share one path are gated apart: where the roles pass and
/// the guard denies the first entry's action but allows the second's, a
/// request for the first ends with the guard's response and one for the
/// second reaches its handler.
pub proof fn lemma_shared_path_gated_apart<G, S>(
    router: GuardRouter<G, S>,
    routes: Seq<GuardedRoute<G, S>>,
    i: int,
    denied: int,
    allowed: int,
    roles_verdict: Result<(), Response>,
    denial: Result<(), Response>,
    allowance: Result<(), Response>,
    downstream: Response,
)
    requires
        router.builds(routes),
        0 <= i < router.registered().len(),
        0 <= denied < router.registered()[i].1.len(),
        0 <= allowed < router.registered()[i].1.len(),
        roles_configured(role_list(router.roles)) ==> roles_verdict is Ok,
        denial is Err,
        allowance is Ok,
    ensures
        !routes[i].handlers@[denied].0@.run(roles_verdict, denial).forwarded(),
        routes[i].handlers@[denied].0@.run(roles_verdict, denial).response(downstream)
            == denial->Err_0,
        routes[i].handlers@[allowed].0@.run(roles_verdict, allowance).forwarded(),
        routes[i].handlers@[allowed].0@.run(roles_verdict, allowance).response(downstream)
            == downstream,
        routes[i].handlers@[allowed].0@.action == router.registered()[i].1[allowed].0,
        routes[i].handlers@[denied].0@.action == router.registered()[i].1[denied].0,
{
    assert(router.wires(routes[i], i));
    assert(router.guards(routes[i].handlers@[denied], router.registered()[i].1[denied]));
    assert(router.guards(routes[i].handlers@[allowed], router.registered()[i].1[allowed]));
}

} // verus!
