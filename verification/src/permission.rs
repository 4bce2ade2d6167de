//! The permission resolver: from the grants a user holds on a document to
//! the one role that counts.

use crate::protocol::{Event, EventView};
use crate::role::{role_of_label, Role};
use vstd::prelude::*;

verus! {

/// The role that a user holds on a document, given the roles granted to the
/// user directly and the roles inherited through groups: owner if any grant
/// is an owner grant, else editor if any is an editor grant, else reader if
/// there is any grant at all, else none.
pub open spec fn effective_role(direct: Seq<Role>, inherited: Seq<Role>) -> Option<Role> {
    let grants = direct + inherited;
    if grants.contains(Role::Owner) {
        Some(Role::Owner)
    } else if grants.contains(Role::Editor) {
        Some(Role::Editor)
    } else if grants.len() > 0 {
        Some(Role::Reader)
    } else {
        None
    }
}

/// The roles that a list of stored labels confers, one for one.
pub open spec fn roles_of_labels(labels: Seq<String>) -> Seq<Role> {
    Seq::new(labels.len(), |i: int| role_of_label(labels[i]@))
}

/// The highest-ranking role in a list of grants; `None` for an empty list.
pub fn strongest(grants: &Vec<Role>) -> (best: Option<Role>)
    ensures
        best == effective_role(grants@, Seq::<Role>::empty()),
{
    let mut best: Option<Role> = None;
    let mut i: usize = 0;
    while i < grants.len()
        invariant
            i <= grants.len(),
            best == effective_role(grants@.take(i as int), Seq::<Role>::empty()),
        decreases grants.len() - i,
    {
        let next = match best {
            Some(role) => role.stronger(grants[i]),
            None => grants[i],
        };
        proof {
            assert(grants@.take(i + 1)[i as int] == grants@[i as int]);
        }
        best = Some(next);
        i += 1;
    }
    proof {
        assert(grants@.take(grants.len() as int) =~= grants@);
    }
    best
}

/// Resolves the effective role from the two sources of grants. `None` means
/// that the user has no access to the document.
pub fn resolve(direct: &Vec<Role>, inherited: &Vec<Role>) -> (role: Option<Role>)
    ensures
        role == effective_role(direct@, inherited@),
{
    let from_direct = strongest(direct);
    let from_groups = strongest(inherited);
    proof {
        let all = direct@ + inherited@;
        assert forall|r: Role| all.contains(r) <==> direct@.contains(r) || inherited@.contains(
            r,
        ) by {
            if direct@.contains(r) {
                let k = choose|k: int| 0 <= k < direct@.len() && direct@[k] == r;
                assert(all[k] == r);
            }
            if inherited@.contains(r) {
                let k = choose|k: int| 0 <= k < inherited@.len() && inherited@[k] == r;
                assert(all[direct@.len() + k] == r);
            }
        }
    }
    match (from_direct, from_groups) {
        (Some(a), Some(b)) => Some(a.stronger(b)),
        (Some(a), None) => Some(a),
        (None, other) => other,
    }
}

/// Reads the roles out of the labels of stored grants.
pub fn roles_from_labels(labels: &Vec<String>) -> (roles: Vec<Role>)
    ensures
        roles@ == roles_of_labels(labels@),
{
    let mut roles: Vec<Role> = Vec::new();
    let mut i: usize = 0;
    while i < labels.len()
        invariant
            i <= labels.len(),
            roles@ == roles_of_labels(labels@.take(i as int)),
        decreases labels.len() - i,
    {
        roles.push(Role::from_label(labels[i].as_str()));
        i += 1;
    }
    roles
}

/// Decides what a user may do with a document from the labels of the grants
/// that the two relations hold for the pair: the rows granted to the user
/// directly and the rows granted to groups that the user is a member of.
/// `None` is returned exactly when neither relation holds a row.
pub fn user_has_access(direct_labels: &Vec<String>, group_labels: &Vec<String>) -> (role: Option<
    Role,
>)
    ensures
        role == effective_role(roles_of_labels(direct_labels@), roles_of_labels(group_labels@)),
        role is None <==> direct_labels.len() == 0 && group_labels.len() == 0,
{
    let direct = roles_from_labels(direct_labels);
    let inherited = roles_from_labels(group_labels);
    proof {
        lemma_effective_role_is_highest(direct@, inherited@);
    }
    resolve(&direct, &inherited)
}

/// The event by which a resolved role is reported.
pub open spec fn admission_of(role: Option<Role>) -> EventView {
    match role {
        Some(role) => EventView::RoleGranted(role),
        None => EventView::RoleMissing,
    }
}

/// What the two grant relations answered, as the event to report to the
/// session that waits for its role. Each argument holds the labels of the
/// rows that one relation has for the user and the document, or `None` where
/// that relation could not be queried.
///
/// A relation that could not be queried is a backend failure, whatever the
/// other one holds: it is never taken for the absence of a grant.
pub fn admission(direct_labels: Option<Vec<String>>, group_labels: Option<Vec<String>>) -> (event:
    Event)
    ensures
        event@ == match (direct_labels, group_labels) {
            (Some(direct), Some(groups)) => admission_of(
                effective_role(roles_of_labels(direct@), roles_of_labels(groups@)),
            ),
            _ => EventView::BackendFailed,
        },
{
    match (direct_labels, group_labels) {
        (Some(direct), Some(groups)) => match user_has_access(&direct, &groups) {
            Some(role) => Event::RoleGranted(role),
            None => Event::RoleMissing,
        },
        _ => Event::BackendFailed,
    }
}

/// The effective role is a role that was granted, and no grant outranks it;
/// there is none exactly when there is no grant.
pub proof fn lemma_effective_role_is_highest(direct: Seq<Role>, inherited: Seq<Role>)
    ensures
        effective_role(direct, inherited) is None <==> direct.len() == 0 && inherited.len() == 0,
        effective_role(direct, inherited) matches Some(role) ==> {
            &&& (direct + inherited).contains(role)
            &&& forall|i: int|
                0 <= i < (direct + inherited).len() ==> (#[trigger] (direct + inherited)[i]).rank()
                    <= role.rank()
        },
{
    let grants = direct + inherited;
    if grants.len() > 0 && !grants.contains(Role::Owner) && !grants.contains(Role::Editor) {
        assert(grants[0] == Role::Reader);
    }
}

/// A group-derived owner grant prevails over a direct reader grant, whatever
/// else the two sources hold.
pub proof fn lemma_group_owner_prevails(direct: Seq<Role>, inherited: Seq<Role>)
    requires
        direct.contains(Role::Reader),
        inherited.contains(Role::Owner),
    ensures
        effective_role(direct, inherited) == Some(Role::Owner),
{
    let k = choose|k: int| 0 <= k < inherited.len() && inherited[k] == Role::Owner;
    assert((direct + inherited)[direct.len() + k] == Role::Owner);
}

/// The order in which the two sources are consulted does not matter.
pub proof fn lemma_sources_commute(direct: Seq<Role>, inherited: Seq<Role>)
    ensures
        effective_role(direct, inherited) == effective_role(inherited, direct),
{
    let a = direct + inherited;
    let b = inherited + direct;
    assert forall|r: Role| a.contains(r) <==> b.contains(r) by {
        if a.contains(r) {
            let k = choose|k: int| 0 <= k < a.len() && a[k] == r;
            if k < direct.len() {
                assert(b[inherited.len() + k] == r);
            } else {
                assert(b[k - direct.len()] == r);
            }
        }
        if b.contains(r) {
            let k = choose|k: int| 0 <= k < b.len() && b[k] == r;
            if k < inherited.len() {
                assert(a[direct.len() + k] == r);
            } else {
                assert(a[k - inherited.len()] == r);
            }
        }
    }
}

} // verus!
