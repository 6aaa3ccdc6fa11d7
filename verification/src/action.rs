//! Several actions at one path, each under a name of its own.

use axum::routing::MethodRouter;
use std::convert::Infallible;
use vstd::prelude::*;

verus! {

/// The entries of an action group as mathematical pairs: the action's name
/// and the handlers registered under it.
pub open spec fn entries<S, E>(routers: Seq<(String, MethodRouter<S, E>)>) -> Seq<
    (Seq<char>, MethodRouter<S, E>),
> {
    routers.map_values(|entry: (String, MethodRouter<S, E>)| (entry.0@, entry.1))
}

/// An ordered group of named actions that will share one path. Each entry is
/// guarded under its own name when the router is built.
///
/// No two entries may bind the same HTTP method. The group does not look
/// into its handlers and does not remove duplicates.
#[must_use]
#[derive(Clone)]
#[verifier::reject_recursive_types(S)]
#[verifier::reject_recursive_types(E)]
pub struct Action<S = (), E = Infallible> {
    pub routers: Vec<(String, MethodRouter<S, E>)>,
}

impl<S, E> View for Action<S, E> {
    type V = Seq<(Seq<char>, MethodRouter<S, E>)>;

    open spec fn view(&self) -> Self::V {
        entries(self.routers@)
    }
}

impl<S> Action<S, Infallible> where S: Clone {
    /// The empty group.
    pub fn new() -> (group: Self)
        ensures
            group@ == Seq::<(Seq<char>, MethodRouter<S>)>::empty(),
    {
        let group = Self { routers: Vec::new() };
        assert(group@ =~= Seq::<(Seq<char>, MethodRouter<S>)>::empty());
        group
    }

    /// The group with one more entry at its end: `method_router` under the
    /// action `name`.
    pub fn on(self, name: &str, method_router: MethodRouter<S>) -> (group: Self)
        ensures
            group@ == self@.push((name@, method_router)),
    {
        let mut group = self;
        group.routers.push((name.to_owned(), method_router));
        assert(group@ =~= self@.push((name@, method_router)));
        group
    }

    /// A copy of the entries, in the order in which they were added.
    pub fn routers(&self) -> (list: Vec<(String, MethodRouter<S>)>)
        ensures
            entries(list@) == self@,
    {
        let mut list: Vec<(String, MethodRouter<S>)> = Vec::new();
        let mut i: usize = 0;
        while i < self.routers.len()
            invariant
                i <= self.routers@.len(),
                list@.len() == i,
                forall|k: int| 0 <= k < i ==> (#[trigger] list@[k]).0@ == self.routers@[k].0@,
                forall|k: int| 0 <= k < i ==> (#[trigger] list@[k]).1 == self.routers@[k].1,
            decreases self.routers@.len() - i,
        {
            let entry = &self.routers[i];
            list.push((entry.0.clone(), crate::host::copy_handlers(&entry.1)));
            i += 1;
        }
        assert(entries(list@) =~= self@);
        list
    }

    /// The group that holds `method_router` under the action `name` and
    /// nothing else.
    pub fn create(name: &str, method_router: MethodRouter<S>) -> (group: Self)
        ensures
            group@ == seq![(name@, method_router)],
    {
        let mut routers: Vec<(String, MethodRouter<S>)> = Vec::new();
        routers.push((name.to_owned(), method_router));
        let group = Self { routers };
        assert(group@ =~= seq![(name@, method_router)]);
        group
    }
}

} // verus!
