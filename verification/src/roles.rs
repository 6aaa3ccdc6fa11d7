//! Role lists: what they denote, and how they are copied.

use vstd::prelude::*;

verus! {

/// The names of a role list, each as the text it holds.
pub open spec fn role_names(roles: Seq<String>) -> Seq<Seq<char>> {
    roles.map_values(|name: String| name@)
}

/// An optional role list as the names it holds.
pub open spec fn role_list(roles: Option<Vec<String>>) -> Option<Seq<Seq<char>>> {
    match roles {
        Some(list) => Some(role_names(list@)),
        None => None,
    }
}

/// Is a role check called for: is the list present, with at least one role
/// in it? An absent list and an empty one both mean that no roles are checked.
pub open spec fn roles_configured(roles: Option<Seq<Seq<char>>>) -> bool {
    roles matches Some(list) && list.len() > 0
}

/// A list of its own with the same names in the same order.
pub fn copy_roles(roles: &[String]) -> (copy: Vec<String>)
    ensures
        role_names(copy@) == role_names(roles@),
{
    let mut copy: Vec<String> = Vec::new();
    let mut i: usize = 0;
    while i < roles.len()
        invariant
            i <= roles@.len(),
            copy@.len() == i,
            forall|k: int| 0 <= k < i ==> copy@[k]@ == roles@[k]@,
        decreases roles@.len() - i,
    {
        copy.push(roles[i].clone());
        i += 1;
    }
    assert(role_names(copy@) =~= role_names(roles@));
    copy
}

/// A copy of an optional role list: absent where the given one is absent.
pub fn copy_role_list(roles: &Option<Vec<String>>) -> (copy: Option<Vec<String>>)
    ensures
        role_list(copy) == role_list(*roles),
{
    match roles {
        Some(list) => Some(copy_roles(list.as_slice())),
        None => None,
    }
}

} // verus!
