//! An in-memory store of memberships that enforces the membership state
//! machine against the records it holds.

use crate::dto::MemberRole;
use crate::error::{Reason, ServiceErr};
use crate::ids::Id;
use crate::membership::{
    decide_join, decide_transition, join_outcome, transition_outcome, Membership, Transition,
};
use vstd::prelude::*;

verus! {

pub open spec fn holds_key(m: Membership, user: Id, class: Id) -> bool {
    m.user == user && m.class == class
}

/// The record of `(user, class)` in a sequence of records, searched from
/// the end.
pub open spec fn lookup(s: Seq<Membership>, user: Id, class: Id) -> Option<Membership>
    decreases s.len(),
{
    if s.len() == 0 {
        None
    } else if holds_key(s.last(), user, class) {
        Some(s.last())
    } else {
        lookup(s.drop_last(), user, class)
    }
}

/// No two records share a user and a class.
pub open spec fn keys_unique(s: Seq<Membership>) -> bool {
    forall|i: int, j: int|
        0 <= i < s.len() && 0 <= j < s.len() && i != j && #[trigger] holds_key(s[i], s[j].user, s[j].class)
            ==> false
}

pub open spec fn role_in(m: Option<Membership>) -> Option<MemberRole> {
    match m {
        Some(r) => Some(r.role),
        None => None,
    }
}

proof fn lemma_lookup_absent(s: Seq<Membership>, user: Id, class: Id)
    requires
        forall|i: int| 0 <= i < s.len() ==> !holds_key(#[trigger] s[i], user, class),
    ensures
        lookup(s, user, class) is None,
    decreases s.len(),
{
    if s.len() > 0 {
        assert(!holds_key(s[s.len() - 1], user, class));
        lemma_lookup_absent(s.drop_last(), user, class);
    }
}

proof fn lemma_lookup_at(s: Seq<Membership>, user: Id, class: Id, i: int)
    requires
        keys_unique(s),
        0 <= i < s.len(),
        holds_key(s[i], user, class),
    ensures
        lookup(s, user, class) == Some(s[i]),
    decreases s.len(),
{
    if i != s.len() - 1 {
        let last = s.len() - 1;
        assert(!holds_key(s[last], s[i].user, s[i].class));
        let t = s.drop_last();
        assert forall|a: int, b: int|
            0 <= a < t.len() && 0 <= b < t.len() && a != b && #[trigger] holds_key(t[a], t[b].user, t[b].class)
                implies false by {
            assert(holds_key(s[a], s[b].user, s[b].class));
        }
        lemma_lookup_at(t, user, class, i);
    }
}

/// Under unique keys, the record of a key is the one that holds it, if any.
proof fn lemma_lookup_unique(s: Seq<Membership>, user: Id, class: Id)
    requires
        keys_unique(s),
    ensures
        lookup(s, user, class) is None <==> forall|i: int| 0 <= i < s.len() ==> !holds_key(#[trigger] s[i], user, class),
        forall|i: int| 0 <= i < s.len() && holds_key(#[trigger] s[i], user, class) ==> lookup(s, user, class) == Some(s[i]),
{
    assert forall|i: int| 0 <= i < s.len() && holds_key(#[trigger] s[i], user, class) implies lookup(s, user, class) == Some(s[i]) by {
        lemma_lookup_at(s, user, class, i);
    }
    if forall|i: int| 0 <= i < s.len() ==> !holds_key(#[trigger] s[i], user, class) {
        lemma_lookup_absent(s, user, class);
    }
}

/// The memberships of all classes, at most one per user and class.
pub struct Roster {
    pub records: Vec<Membership>,
}

impl Roster {
    pub open spec fn wf(&self) -> bool {
        keys_unique(self.records@)
    }

    /// The membership of `user` in `class`, if any.
    pub open spec fn member(&self, user: Id, class: Id) -> Option<Membership> {
        lookup(self.records@, user, class)
    }

    /// The role of `user` in `class`, if any.
    pub open spec fn role_spec(&self, user: Id, class: Id) -> Option<MemberRole> {
        role_in(self.member(user, class))
    }

    /// Every membership but that of `(user, class)` is the same in both.
    pub open spec fn same_except(&self, other: &Roster, user: Id, class: Id) -> bool {
        forall|u: Id, c: Id| !(u == user && c == class) ==> #[trigger] other.member(u, c) == self.member(u, c)
    }

    pub fn new() -> (r: Roster)
        ensures
            r.wf(),
            forall|u: Id, c: Id| r.member(u, c) is None,
    {
        Roster { records: Vec::new() }
    }

    fn find(&self, user: Id, class: Id) -> (r: Option<usize>)
        requires
            self.wf(),
        ensures
            match r {
                Some(i) => i < self.records@.len() && self.member(user, class) == Some(self.records@[i as int])
                    && holds_key(self.records@[i as int], user, class),
                None => self.member(user, class) is None,
            },
    {
        let mut i: usize = 0;
        while i < self.records.len()
            invariant
                self.wf(),
                i <= self.records@.len(),
                forall|j: int| 0 <= j < i ==> !holds_key(#[trigger] self.records@[j], user, class),
            decreases self.records@.len() - i,
        {
            if self.records[i].user == user && self.records[i].class == class {
                proof {
                    lemma_lookup_unique(self.records@, user, class);
                }
                return Some(i);
            }
            i += 1;
        }
        proof {
            lemma_lookup_unique(self.records@, user, class);
        }
        None
    }

    /// The role of `user` in `class`, if a membership exists.
    pub fn role_of(&self, user: Id, class: Id) -> (r: Option<MemberRole>)
        requires
            self.wf(),
        ensures
            r == self.role_spec(user, class),
    {
        match self.find(user, class) {
            Some(i) => Some(self.records[i].role),
            None => None,
        }
    }

    /// A copy of the membership of `user` in `class`, if any.
    pub fn find_membership(&self, user: Id, class: Id) -> (r: Option<Membership>)
        requires
            self.wf(),
        ensures
            r == self.member(user, class),
    {
        match self.find(user, class) {
            Some(i) => Some(self.records[i].clone()),
            None => None,
        }
    }

    fn add(&mut self, m: Membership)
        requires
            old(self).wf(),
            old(self).member(m.user, m.class) is None,
        ensures
            final(self).wf(),
            final(self).member(m.user, m.class) == Some(m),
            old(self).same_except(final(self), m.user, m.class),
    {
        proof {
            lemma_lookup_unique(self.records@, m.user, m.class);
        }
        let ghost before = self.records@;
        self.records.push(m);
        proof {
            let after = self.records@;
            assert(after.drop_last() =~= before);
            assert forall|a: int, b: int|
                0 <= a < after.len() && 0 <= b < after.len() && a != b && #[trigger] holds_key(after[a], after[b].user, after[b].class)
                    implies false by {
                if a == before.len() {
                    assert(holds_key(before[b], m.user, m.class));
                } else if b == before.len() {
                    assert(holds_key(before[a], m.user, m.class));
                } else {
                    assert(holds_key(before[a], before[b].user, before[b].class));
                }
            }
        }
    }

    fn replace_role(&mut self, i: usize, role: MemberRole)
        requires
            old(self).wf(),
            i < old(self).records@.len(),
        ensures
            final(self).wf(),
            final(self).member(old(self).records@[i as int].user, old(self).records@[i as int].class) == Some(
                Membership { role, ..old(self).records@[i as int] },
            ),
            old(self).same_except(
                final(self),
                old(self).records@[i as int].user,
                old(self).records@[i as int].class,
            ),
    {
        let ghost before = self.records@;
        let m = self.records[i].clone();
        let updated = Membership { role, ..m };
        self.records.set(i, updated);
        proof {
            let after = self.records@;
            assert forall|a: int, b: int|
                0 <= a < after.len() && 0 <= b < after.len() && a != b && #[trigger] holds_key(after[a], after[b].user, after[b].class)
                    implies false by {
                assert(holds_key(before[a], before[b].user, before[b].class));
            }
            assert(after[i as int] == Membership { role, ..before[i as int] });
            assert(holds_key(after[i as int], before[i as int].user, before[i as int].class));
            lemma_lookup_unique(after, before[i as int].user, before[i as int].class);
            assert forall|u: Id, c: Id| !(u == before[i as int].user && c == before[i as int].class) implies
                lookup(after, u, c) == lookup(before, u, c) by {
                lemma_lookup_unique(before, u, c);
                lemma_lookup_unique(after, u, c);
                if lookup(before, u, c) is None {
                    assert forall|j: int| 0 <= j < after.len() implies !holds_key(#[trigger] after[j], u, c) by {
                        assert(!holds_key(before[j], u, c));
                    }
                } else {
                    let j = choose|j: int| 0 <= j < before.len() && holds_key(#[trigger] before[j], u, c);
                    assert(after[j] == before[j]);
                }
            }
        }
    }

    fn delete_at(&mut self, i: usize)
        requires
            old(self).wf(),
            i < old(self).records@.len(),
        ensures
            final(self).wf(),
            final(self).member(old(self).records@[i as int].user, old(self).records@[i as int].class) is None,
            old(self).same_except(
                final(self),
                old(self).records@[i as int].user,
                old(self).records@[i as int].class,
            ),
    {
        let ghost before = self.records@;
        let ghost gone = before[i as int];
        self.records.remove(i);
        proof {
            let after = self.records@;
            assert(after =~= before.remove(i as int));
            assert forall|a: int, b: int|
                0 <= a < after.len() && 0 <= b < after.len() && a != b && #[trigger] holds_key(after[a], after[b].user, after[b].class)
                    implies false by {
                let a0 = if a < i { a } else { a + 1 };
                let b0 = if b < i { b } else { b + 1 };
                assert(holds_key(before[a0], before[b0].user, before[b0].class));
            }
            assert forall|j: int| 0 <= j < after.len() implies !holds_key(#[trigger] after[j], gone.user, gone.class) by {
                let j0 = if j < i { j } else { j + 1 };
                assert(holds_key(before[i as int], before[i as int].user, before[i as int].class));
                assert(after[j] == before[j0]);
            }
            lemma_lookup_absent(after, gone.user, gone.class);
            assert forall|u: Id, c: Id| !(u == gone.user && c == gone.class) implies
                lookup(after, u, c) == lookup(before, u, c) by {
                lemma_lookup_unique(before, u, c);
                lemma_lookup_unique(after, u, c);
                if lookup(before, u, c) is None {
                    assert forall|j: int| 0 <= j < after.len() implies !holds_key(#[trigger] after[j], u, c) by {
                        let j0 = if j < i { j } else { j + 1 };
                        assert(!holds_key(before[j0], u, c));
                    }
                } else {
                    let j = choose|j: int| 0 <= j < before.len() && holds_key(#[trigger] before[j], u, c);
                    assert(j != i);
                    let j1 = if j < i { j } else { j - 1 };
                    assert(after[j1] == before[j]);
                }
            }
        }
    }

    /// What a transition by `caller` on `target` inside `class` leads to:
    /// the caller needs a membership there, and the transition is decided
    /// on the two roles as stored.
    pub open spec fn apply_outcome(&self, t: Transition, caller: Id, class: Id, target: Id) -> Result<Option<MemberRole>, ServiceErr> {
        match self.role_spec(caller, class) {
            None => Err(ServiceErr::NotFound),
            Some(cr) => transition_outcome(t, cr, self.role_spec(target, class)),
        }
    }

    /// Records that `owner` created `class`: the owner's membership.
    pub fn create_class(&mut self, owner: Id, class: Id, display_name: String) -> (r: Result<(), ServiceErr>)
        requires
            old(self).wf(),
        ensures
            final(self).wf(),
            r == (if old(self).member(owner, class) is None {
                Ok(())
            } else {
                Err(ServiceErr::Conflict(Reason::AlreadyExists))
            }),
            r is Ok ==> final(self).member(owner, class) == Some(
                Membership { user: owner, class, role: MemberRole::Owner, display_name },
            ) && old(self).same_except(final(self), owner, class),
            r is Err ==> final(self).records@ == old(self).records@,
    {
        if self.find(owner, class).is_some() {
            return Err(ServiceErr::Conflict(Reason::AlreadyExists));
        }
        self.add(Membership { user: owner, class, role: MemberRole::Owner, display_name });
        Ok(())
    }

    /// A user asks to join a class: a pending membership is created unless
    /// the user already has one, of any role.
    pub fn join(&mut self, user: Id, class: Id, display_name: String) -> (r: Result<(), ServiceErr>)
        requires
            old(self).wf(),
        ensures
            final(self).wf(),
            r == (match join_outcome(old(self).role_spec(user, class)) {
                Ok(_) => Ok(()),
                Err(e) => Err(e),
            }),
            r is Ok ==> final(self).member(user, class) == Some(
                Membership { user, class, role: MemberRole::Pending, display_name },
            ) && old(self).same_except(final(self), user, class),
            r is Err ==> final(self).records@ == old(self).records@,
    {
        let existing = self.role_of(user, class);
        match decide_join(existing) {
            Ok(role) => {
                self.add(Membership { user, class, role, display_name });
                Ok(())
            },
            Err(e) => Err(e),
        }
    }

    /// `caller` applies a transition to the membership of `target` in
    /// `class`. On failure nothing changes; on success only the target's
    /// record does, and it keeps its display name.
    pub fn apply(&mut self, t: Transition, caller: Id, class: Id, target: Id) -> (r: Result<(), ServiceErr>)
        requires
            old(self).wf(),
        ensures
            final(self).wf(),
            r == (match old(self).apply_outcome(t, caller, class, target) {
                Ok(_) => Ok(()),
                Err(e) => Err(e),
            }),
            r is Err ==> final(self).records@ == old(self).records@,
            r is Ok ==> old(self).same_except(final(self), target, class),
            old(self).apply_outcome(t, caller, class, target) matches Ok(Some(role)) ==> final(self).member(
                target,
                class,
            ) == Some(Membership { role, ..old(self).member(target, class)->Some_0 }),
            old(self).apply_outcome(t, caller, class, target) matches Ok(None) ==> final(self).member(
                target,
                class,
            ) is None,
    {
        let caller_role = match self.role_of(caller, class) {
            Some(cr) => cr,
            None => return Err(ServiceErr::NotFound),
        };
        let found = self.find(target, class);
        let target_role = match found {
            Some(i) => Some(self.records[i].role),
            None => None,
        };
        match decide_transition(t, caller_role, target_role) {
            Err(e) => Err(e),
            Ok(next) => {
                let i = found.unwrap();
                match next {
                    Some(role) => self.replace_role(i, role),
                    None => self.delete_at(i),
                }
                Ok(())
            },
        }
    }

    /// Deletes the membership of `user` in `class`; returns how many records
    /// were deleted.
    pub fn remove_membership(&mut self, user: Id, class: Id) -> (r: usize)
        requires
            old(self).wf(),
        ensures
            final(self).wf(),
            r == (if old(self).member(user, class) is Some {
                1usize
            } else {
                0usize
            }),
            final(self).member(user, class) is None,
            old(self).same_except(final(self), user, class),
    {
        match self.find(user, class) {
            Some(i) => {
                self.delete_at(i);
                1
            },
            None => 0,
        }
    }
}

/// A caller whose stored role lacks elevated rights is refused every
/// transition in its class, whatever the target's state.
pub proof fn lemma_roster_unprivileged_caller(roster: &Roster, t: Transition, caller: Id, class: Id, target: Id)
    requires
        roster.role_spec(caller, class) matches Some(r) && !r.elevated(),
    ensures
        roster.apply_outcome(t, caller, class, target) == Err::<Option<MemberRole>, ServiceErr>(
            ServiceErr::Forbidden,
        ),
{
}

} // verus!
