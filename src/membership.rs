//! The membership state machine: who may move a member of a class from one
//! role to another, and an in-memory roster of memberships that applies it.

use crate::dto::MemberRole;
use crate::error::{Reason, ServiceErr};
use crate::ids::Id;
use vstd::prelude::*;

verus! {

/// The role of a user inside a class, with the name shown there.
#[derive(Debug, PartialEq, Eq)]
pub struct Membership {
    pub user: Id,
    pub class: Id,
    pub role: MemberRole,
    pub display_name: String,
}

impl Clone for Membership {
    fn clone(&self) -> (r: Membership)
        ensures
            r == *self,
    {
        Membership {
            user: self.user,
            class: self.class,
            role: self.role,
            display_name: self.display_name.clone(),
        }
    }
}

/// A change of a member's role that a privileged member performs.
#[derive(Debug, Clone, Copy, PartialEq, Eq, Structural)]
pub enum Transition {
    /// A pending join request becomes a membership.
    Accept,
    /// A pending join request is deleted.
    Reject,
    /// A member becomes an admin.
    Promote,
    /// An admin becomes a member.
    Demote,
    /// Any member but the owner is banned.
    Ban,
}

/// What a join request leads to, given the requester's current role in the
/// class: a pending membership, or a conflict when any membership exists.
pub open spec fn join_outcome(existing: Option<MemberRole>) -> Result<MemberRole, ServiceErr> {
    match existing {
        None => Ok(MemberRole::Pending),
        Some(_) => Err(ServiceErr::Conflict(Reason::AlreadyExists)),
    }
}

/// What a transition leads to: the target's new role, `None` when its record
/// is deleted, or the failure. A caller without elevated rights is always
/// refused; the owner can be neither demoted nor banned.
pub open spec fn transition_outcome(t: Transition, caller: MemberRole, target: Option<MemberRole>) -> Result<Option<MemberRole>, ServiceErr> {
    if !caller.elevated() {
        Err(ServiceErr::Forbidden)
    } else {
        match target {
            None => Err(ServiceErr::NotFound),
            Some(r) => match t {
                Transition::Accept => if r == MemberRole::Pending {
                    Ok(Some(MemberRole::Member))
                } else {
                    Err(ServiceErr::NotFound)
                },
                Transition::Reject => if r == MemberRole::Pending {
                    Ok(None)
                } else {
                    Err(ServiceErr::NotFound)
                },
                Transition::Promote => if r == MemberRole::Member {
                    Ok(Some(MemberRole::Admin))
                } else {
                    Err(ServiceErr::Conflict(Reason::InvalidTransition))
                },
                Transition::Demote => if r == MemberRole::Admin {
                    Ok(Some(MemberRole::Member))
                } else if r == MemberRole::Owner {
                    Err(ServiceErr::Forbidden)
                } else {
                    Err(ServiceErr::Conflict(Reason::InvalidTransition))
                },
                Transition::Ban => if r == MemberRole::Owner {
                    Err(ServiceErr::Forbidden)
                } else {
                    Ok(Some(MemberRole::Banned))
                },
            },
        }
    }
}

/// Decides a join request.
pub fn decide_join(existing: Option<MemberRole>) -> (r: Result<MemberRole, ServiceErr>)
    ensures
        r == join_outcome(existing),
{
    match existing {
        None => Ok(MemberRole::Pending),
        Some(_) => Err(ServiceErr::Conflict(Reason::AlreadyExists)),
    }
}

/// Decides a transition, against the target's role as currently stored.
pub fn decide_transition(t: Transition, caller: MemberRole, target: Option<MemberRole>) -> (r: Result<Option<MemberRole>, ServiceErr>)
    ensures
        r == transition_outcome(t, caller, target),
{
    if !caller.has_rights() {
        return Err(ServiceErr::Forbidden);
    }
    let r = match target {
        None => return Err(ServiceErr::NotFound),
        Some(r) => r,
    };
    match t {
        Transition::Accept => {
            if r == MemberRole::Pending {
                Ok(Some(MemberRole::Member))
            } else {
                Err(ServiceErr::NotFound)
            }
        },
        Transition::Reject => {
            if r == MemberRole::Pending {
                Ok(None)
            } else {
                Err(ServiceErr::NotFound)
            }
        },
        Transition::Promote => {
            if r == MemberRole::Member {
                Ok(Some(MemberRole::Admin))
            } else {
                Err(ServiceErr::Conflict(Reason::InvalidTransition))
            }
        },
        Transition::Demote => {
            if r == MemberRole::Admin {
                Ok(Some(MemberRole::Member))
            } else if r == MemberRole::Owner {
                Err(ServiceErr::Forbidden)
            } else {
                Err(ServiceErr::Conflict(Reason::InvalidTransition))
            }
        },
        Transition::Ban => {
            if r == MemberRole::Owner {
                Err(ServiceErr::Forbidden)
            } else {
                Ok(Some(MemberRole::Banned))
            }
        },
    }
}

/// A caller without elevated rights is refused every transition, whatever
/// the target's state.
pub proof fn lemma_unprivileged_caller_forbidden(t: Transition, caller: MemberRole, target: Option<MemberRole>)
    requires
        !caller.elevated(),
    ensures
        transition_outcome(t, caller, target) == Err::<Option<MemberRole>, ServiceErr>(ServiceErr::Forbidden),
{
}

/// A banned user cannot join again: the request conflicts.
pub proof fn lemma_banned_cannot_rejoin()
    ensures
        join_outcome(Some(MemberRole::Banned)) == Err::<MemberRole, ServiceErr>(
            ServiceErr::Conflict(Reason::AlreadyExists),
        ),
{
}

/// Accepting moves a pending request to a membership; a second accept, or a
/// reject after it, finds no pending request any more.
pub proof fn lemma_accept_then_again(caller: MemberRole)
    requires
        caller.elevated(),
    ensures
        transition_outcome(Transition::Accept, caller, Some(MemberRole::Pending)) == Ok::<
            Option<MemberRole>,
            ServiceErr,
        >(Some(MemberRole::Member)),
        transition_outcome(Transition::Accept, caller, Some(MemberRole::Member)) == Err::<
            Option<MemberRole>,
            ServiceErr,
        >(ServiceErr::NotFound),
        transition_outcome(Transition::Reject, caller, Some(MemberRole::Member)) == Err::<
            Option<MemberRole>,
            ServiceErr,
        >(ServiceErr::NotFound),
{
}

} // verus!
