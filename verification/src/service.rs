//! The middleware that stands before one guarded handler.
//!
//! A service is bound to one (resource, action, roles) triple. For each
//! request it asks the guard about the roles, where the router carries any
//! (a list with at least one role in it),
//! then about the resource and the action, and forwards the request only if
//! no answer was a denial.

use crate::guard::OnGuard;
use crate::roles::{role_list, role_names, roles_configured};
use axum::response::Response;
use std::sync::Arc;
use vstd::prelude::*;

verus! {

/// What a guarded handler is bound to: fixed when the route is built, never
/// taken from a request.
pub struct Binding {
    pub resource: Seq<char>,
    pub action: Seq<char>,
    pub roles: Option<Seq<Seq<char>>>,
}

/// The mathematical value of a [`Step`].
pub enum StepView {
    AskRoles(Seq<Seq<char>>),
    AskGuard(Seq<char>, Seq<char>),
    Forward,
    Reject(Response),
}

/// What the middleware does next for the request at hand.
pub enum Step<'a> {
    /// Put the role list to the guard.
    AskRoles(&'a [String]),
    /// Put the resource and the action to the guard.
    AskGuard(&'a str, &'a str),
    /// Hand the request, untouched, to the handler.
    Forward,
    /// Answer with the guard's response; the handler is not called.
    Reject(Response),
}

impl<'a> View for Step<'a> {
    type V = StepView;

    open spec fn view(&self) -> StepView {
        match *self {
            Step::AskRoles(roles) => StepView::AskRoles(role_names(roles@)),
            Step::AskGuard(resource, action) => StepView::AskGuard(resource@, action@),
            Step::Forward => StepView::Forward,
            Step::Reject(response) => StepView::Reject(response),
        }
    }
}

/// One request's passage through the middleware: the questions put to the
/// guard, in order, and the step that ended it.
pub struct Run {
    pub asked: Seq<StepView>,
    pub end: StepView,
}

impl Run {
    /// Did the request reach the handler?
    pub open spec fn forwarded(self) -> bool {
        self.end == StepView::Forward
    }

    /// Does the run end as `verdict` says: forwarded for `Ok`, rejected with
    /// the very response for `Err`?
    pub open spec fn ends_as(self, verdict: Result<(), Response>) -> bool {
        match verdict {
            Ok(_) => self.forwarded(),
            Err(response) => self.end == StepView::Reject(response),
        }
    }

    /// The response that the client sees, where the handler would answer a
    /// forwarded request with `downstream`.
    pub open spec fn response(self, downstream: Response) -> Response {
        match self.end {
            StepView::Reject(response) => response,
            _ => downstream,
        }
    }
}

impl Binding {
    /// Does a request put the roles to the guard? Only where the role list
    /// is present and not empty.
    pub open spec fn asks_roles(self) -> bool {
        roles_configured(self.roles)
    }

    /// The first step for every request: the role check where there are
    /// roles to check, else the check of resource and action.
    pub open spec fn first(self) -> StepView {
        if self.asks_roles() {
            StepView::AskRoles(self.roles->Some_0)
        } else {
            StepView::AskGuard(self.resource, self.action)
        }
    }

    /// The step that follows the guard's answer on the roles.
    pub open spec fn after_roles(self, verdict: Result<(), Response>) -> StepView {
        match verdict {
            Err(response) => StepView::Reject(response),
            Ok(_) => StepView::AskGuard(self.resource, self.action),
        }
    }

    /// The step that follows the guard's answer on resource and action.
    pub open spec fn after_guard(self, verdict: Result<(), Response>) -> StepView {
        match verdict {
            Err(response) => StepView::Reject(response),
            Ok(_) => StepView::Forward,
        }
    }

    /// The passage of one request, where the guard would answer
    /// `roles_verdict` on the roles and `guard_verdict` on resource and action
    /// if it were asked.
    pub open spec fn run(
        self,
        roles_verdict: Result<(), Response>,
        guard_verdict: Result<(), Response>,
    ) -> Run {
        if self.asks_roles() && roles_verdict is Err {
            Run { asked: seq![self.first()], end: self.after_roles(roles_verdict) }
        } else if self.asks_roles() {
            Run {
                asked: seq![self.first(), self.after_roles(roles_verdict)],
                end: self.after_guard(guard_verdict),
            }
        } else {
            Run { asked: seq![self.first()], end: self.after_guard(guard_verdict) }
        }
    }
}

/// `verdict` is an answer that `guard` gives when asked about these roles.
pub open spec fn answers_roles<G: OnGuard>(
    guard: &G,
    roles: Seq<Seq<char>>,
    verdict: Result<(), Response>,
) -> bool {
    exists|list: &[String]|
        role_names(list@) == roles && #[trigger] G::on_roles.ensures((guard, list), verdict)
}

/// `verdict` is an answer that `guard` gives when asked about this resource
/// and action.
pub open spec fn answers_guard<G: OnGuard>(
    guard: &G,
    resource: Seq<char>,
    action: Seq<char>,
    verdict: Result<(), Response>,
) -> bool {
    exists|r: &str, a: &str|
        r@ == resource && a@ == action && #[trigger] G::on_guard.ensures((guard, r, a), verdict)
}

/// `guard` has an answer to these roles that allows them.
pub open spec fn allows_roles<G: OnGuard>(guard: &G, roles: Seq<Seq<char>>) -> bool {
    exists|verdict: Result<(), Response>|
        verdict is Ok && #[trigger] answers_roles(guard, roles, verdict)
}

/// `guard` has an answer to this resource and action that allows them.
pub open spec fn allows_guard<G: OnGuard>(
    guard: &G,
    resource: Seq<char>,
    action: Seq<char>,
) -> bool {
    exists|verdict: Result<(), Response>|
        verdict is Ok && #[trigger] answers_guard(guard, resource, action, verdict)
}

/// `verdict` ends a request bound to `binding` under `guard`: it is a denial
/// that the guard gave to the first question it denied, or it is `Ok` and the
/// guard allowed every question that the binding calls for.
pub open spec fn settled_by<G: OnGuard>(
    guard: &G,
    binding: Binding,
    verdict: Result<(), Response>,
) -> bool {
    let roles_pass = binding.asks_roles() ==> allows_roles(guard, binding.roles->Some_0);
    match verdict {
        Ok(_) => roles_pass && allows_guard(guard, binding.resource, binding.action),
        Err(_) => {
            ||| binding.asks_roles() && answers_roles(guard, binding.roles->Some_0, verdict)
            ||| roles_pass && answers_guard(guard, binding.resource, binding.action, verdict)
        },
    }
}

/// `roles_verdict` and `guard_verdict` are answers of `guard` to the questions
/// that a request bound to `binding` puts: to the roles, where the binding
/// has any, and to resource and action, unless the roles were denied.
pub open spec fn answered<G: OnGuard>(
    guard: &G,
    binding: Binding,
    roles_verdict: Result<(), Response>,
    guard_verdict: Result<(), Response>,
) -> bool {
    &&& binding.asks_roles() ==> answers_roles(guard, binding.roles->Some_0, roles_verdict)
    &&& (binding.asks_roles() ==> roles_verdict is Ok) ==> answers_guard(
        guard,
        binding.resource,
        binding.action,
        guard_verdict,
    )
}

/// The middleware around the handler `inner`.
#[derive(Clone, Debug)]
pub struct GuardService<G, S> {
    pub guard: Arc<G>,
    pub inner: S,
    pub resource: String,
    pub action: String,
    pub roles: Option<Vec<String>>,
}

impl<G, S> View for GuardService<G, S> {
    type V = Binding;

    open spec fn view(&self) -> Binding {
        Binding { resource: self.resource@, action: self.action@, roles: role_list(self.roles) }
    }
}

impl<G, S> GuardService<G, S> {
    /// The first step for a request that has just arrived.
    pub fn begin(&self) -> (step: Step<'_>)
        ensures
            step@ == self@.first(),
    {
        match &self.roles {
            Some(roles) => if roles.len() > 0 {
                Step::AskRoles(roles.as_slice())
            } else {
                Step::AskGuard(self.resource.as_str(), self.action.as_str())
            },
            None => Step::AskGuard(self.resource.as_str(), self.action.as_str()),
        }
    }

    /// The step after the guard has answered on the roles.
    pub fn after_roles(&self, verdict: Result<(), Response>) -> (step: Step<'_>)
        ensures
            step@ == self@.after_roles(verdict),
    {
        match verdict {
            Err(response) => Step::Reject(response),
            Ok(_) => Step::AskGuard(self.resource.as_str(), self.action.as_str()),
        }
    }

    /// The step after the guard has answered on resource and action.
    pub fn after_guard(&self, verdict: Result<(), Response>) -> (step: Step<'_>)
        ensures
            step@ == self@.after_guard(verdict),
    {
        match verdict {
            Err(response) => Step::Reject(response),
            Ok(_) => Step::Forward,
        }
    }
}

impl<G: OnGuard, S> GuardService<G, S> {
    /// Runs the checks for one request: `Ok` where it may be forwarded to the
    /// handler, else the response with which the guard denied it.
    ///
    /// The guard is asked about the roles first, where the list holds any, and
    /// about resource and action only if it did not deny the roles. The
    /// questions come from the binding alone; the request plays no part.
    pub fn check(&self) -> (verdict: Result<(), Response>)
        ensures
            settled_by(&*self.guard, self@, verdict),
    {
        let second = match self.begin() {
            Step::AskRoles(roles) => {
                let answer = self.guard.on_roles(roles);
                assert(answers_roles(&*self.guard, role_names(roles@), answer)) by {
                    assert(G::on_roles.ensures((&*self.guard, roles), answer));
                }
                self.after_roles(answer)
            },
            first => first,
        };
        let last = match second {
            Step::AskGuard(resource, action) => {
                let answer = self.guard.on_guard(resource, action);
                assert(answers_guard(&*self.guard, resource@, action@, answer)) by {
                    assert(G::on_guard.ensures((&*self.guard, resource, action), answer));
                }
                self.after_guard(answer)
            },
            other => other,
        };
        match last {
            Step::Reject(response) => Err(response),
            _ => Ok(()),
        }
    }
}

/// A settled verdict is the end of a run: the guard gave answers to the
/// questions of the binding on which the run ends as the verdict says. What
/// holds of every run therefore holds of every verdict that `check` returns.
pub proof fn lemma_settled_is_a_run<G: OnGuard>(
    guard: &G,
    binding: Binding,
    verdict: Result<(), Response>,
)
    requires
        settled_by(guard, binding, verdict),
    ensures
        exists|roles_verdict: Result<(), Response>, guard_verdict: Result<(), Response>|
            #[trigger] answered(guard, binding, roles_verdict, guard_verdict) && binding.run(
                roles_verdict,
                guard_verdict,
            ).ends_as(verdict),
{
    if binding.asks_roles() && answers_roles(guard, binding.roles->Some_0, verdict)
        && verdict is Err {
        assert(answered(guard, binding, verdict, verdict));
        assert(binding.run(verdict, verdict).ends_as(verdict));
    } else {
        let roles_verdict = if binding.asks_roles() {
            choose|allowing: Result<(), Response>|
                allowing is Ok && #[trigger] answers_roles(
                    guard,
                    binding.roles->Some_0,
                    allowing,
                )
        } else {
            verdict
        };
        let guard_verdict = if verdict is Err {
            verdict
        } else {
            choose|allowing: Result<(), Response>|
                allowing is Ok && #[trigger] answers_guard(
                    guard,
                    binding.resource,
                    binding.action,
                    allowing,
                )
        };
        assert(answered(guard, binding, roles_verdict, guard_verdict));
        assert(binding.run(roles_verdict, guard_verdict).ends_as(verdict));
    }
}

/// A denial of the roles ends the request at once: the roles are the only
/// question that was put, the resource and action are never asked about, the
/// handler is not reached, and the client sees the guard's response.
pub proof fn lemma_roles_denial_ends_request(
    binding: Binding,
    roles_verdict: Result<(), Response>,
    guard_verdict: Result<(), Response>,
    downstream: Response,
)
    requires
        binding.asks_roles(),
        roles_verdict is Err,
    ensures
        binding.run(roles_verdict, guard_verdict).asked == seq![
            StepView::AskRoles(binding.roles->Some_0),
        ],
        !binding.run(roles_verdict, guard_verdict).forwarded(),
        binding.run(roles_verdict, guard_verdict).response(downstream) == roles_verdict->Err_0,
{
}

/// A denial of resource and action keeps the request from the handler, and
/// the client sees exactly the response that the guard gave.
pub proof fn lemma_guard_denial_is_response(
    binding: Binding,
    roles_verdict: Result<(), Response>,
    guard_verdict: Result<(), Response>,
    downstream: Response,
)
    requires
        binding.asks_roles() ==> roles_verdict is Ok,
        guard_verdict is Err,
    ensures
        !binding.run(roles_verdict, guard_verdict).forwarded(),
        binding.run(roles_verdict, guard_verdict).response(downstream) == guard_verdict->Err_0,
{
}

/// Where the guard allows every question, the request reaches the handler and
/// the client sees the handler's response, whatever it is.
pub proof fn lemma_allowed_request_is_forwarded(
    binding: Binding,
    roles_verdict: Result<(), Response>,
    guard_verdict: Result<(), Response>,
    downstream: Response,
)
    requires
        binding.asks_roles() ==> roles_verdict is Ok,
        guard_verdict is Ok,
    ensures
        binding.run(roles_verdict, guard_verdict).forwarded(),
        binding.run(roles_verdict, guard_verdict).response(downstream) == downstream,
{
}

/// The questions of one request: the roles exactly once and first, where the
/// binding has any, then resource and action exactly once, unless the roles
/// were denied; each with the values of the binding.
pub proof fn lemma_questions_follow_binding(
    binding: Binding,
    roles_verdict: Result<(), Response>,
    guard_verdict: Result<(), Response>,
)
    ensures
        binding.run(roles_verdict, guard_verdict).asked == (if !binding.asks_roles() {
            seq![StepView::AskGuard(binding.resource, binding.action)]
        } else if roles_verdict is Err {
            seq![StepView::AskRoles(binding.roles->Some_0)]
        } else {
            seq![
                StepView::AskRoles(binding.roles->Some_0),
                StepView::AskGuard(binding.resource, binding.action),
            ]
        }),
{
}

} // verus!
