//! Values exchanged with clients: roles, event types and request bodies.

use crate::ids::Id;
use vstd::prelude::*;

verus! {

/// The role of a member inside a class, from the most to the least privileged.
///
/// `ServiceInternal` is reserved for trusted internal callers and is never
/// handed to end users.
#[derive(Debug, Clone, Copy, PartialEq, Eq, Structural, PartialOrd, Ord, Hash)]
pub enum MemberRole {
    ServiceInternal,
    Owner,
    Admin,
    Member,
    Pending,
    Banned,
}

impl MemberRole {
    /// The integer rank of a role: a lower rank means more privilege.
    pub open spec fn rank_of(self) -> int {
        match self {
            MemberRole::ServiceInternal => -1,
            MemberRole::Owner => 0,
            MemberRole::Admin => 1,
            MemberRole::Member => 2,
            MemberRole::Pending => 3,
            MemberRole::Banned => 4,
        }
    }

    /// Elevated rights: a rank at most that of `Admin`.
    pub open spec fn elevated(self) -> bool {
        self.rank_of() <= MemberRole::Admin.rank_of()
    }

    pub fn rank(&self) -> (r: i32)
        ensures
            r == self.rank_of(),
    {
        match self {
            MemberRole::ServiceInternal => -1,
            MemberRole::Owner => 0,
            MemberRole::Admin => 1,
            MemberRole::Member => 2,
            MemberRole::Pending => 3,
            MemberRole::Banned => 4,
        }
    }

    /// Whether a member with this role may manage the members of its class.
    pub fn has_rights(&self) -> (r: bool)
        ensures
            r == self.elevated(),
    {
        self.rank() <= 1
    }
}

/// Among the roles that can be held by a user, exactly `Owner` and `Admin`
/// carry elevated rights.
pub proof fn lemma_elevated_roles(r: MemberRole)
    requires
        r != MemberRole::ServiceInternal,
    ensures
        r.elevated() <==> (r == MemberRole::Owner || r == MemberRole::Admin),
{
}

/// The kind of a class event.
#[derive(Debug, Clone, Copy, PartialEq, Eq, Structural, Hash)]
pub enum EventType {
    Homework,
    Exam,
    Holidays,
    Other,
}

impl EventType {
    /// The wire name of an event type.
    pub open spec fn name_of(self) -> Seq<char> {
        match self {
            EventType::Homework => "homework"@,
            EventType::Exam => "exam"@,
            EventType::Holidays => "holidays"@,
            EventType::Other => "other"@,
        }
    }

    pub fn as_str(&self) -> (r: &'static str)
        ensures
            r@ == self.name_of(),
    {
        match self {
            EventType::Homework => "homework",
            EventType::Exam => "exam",
            EventType::Holidays => "holidays",
            EventType::Other => "other",
        }
    }
}

/// A class event. Times are Unix timestamps in milliseconds.
#[derive(Debug, Clone, PartialEq, Eq)]
pub struct Event {
    pub id: Id,
    pub kind: EventType,
    pub name: String,
    pub start: i64,
    pub end: Option<i64>,
    pub description: String,
    pub notification: Option<i64>,
}

/// A class, with the members that may see it.
#[derive(Debug, Clone, PartialEq, Eq)]
pub struct Class {
    pub id: Id,
    pub members: Vec<Member>,
    pub name: String,
    pub description: String,
    pub discord_id: Option<String>,
}

/// A user, with the classes it belongs to when asked for.
#[derive(Debug, Clone, PartialEq, Eq)]
pub struct User {
    pub id: Id,
    pub email: String,
    pub description: String,
    pub classes: Option<Vec<Class>>,
}

/// A user as sent to register, with a password that must never be logged.
#[derive(Debug, Clone, PartialEq, Eq)]
pub struct PostUser {
    pub id: Id,
    pub email: String,
    pub description: String,
    pub password: String,
}

/// The text that stands for a password in diagnostics.
pub open spec fn password_mask() -> Seq<char> {
    "**********"@
}

impl PostUser {
    /// Takes the password out of the body, leaving a mask in its place, so
    /// that the body can be logged.
    pub fn take_password(&mut self) -> (r: String)
        ensures
            r == old(self).password,
            final(self).password@ == password_mask(),
            final(self).id == old(self).id,
            final(self).email == old(self).email,
            final(self).description == old(self).description,
    {
        let password = self.password.clone();
        self.password = String::from_str("**********");
        password
    }
}

/// A user inside a class.
#[derive(Debug, Clone, PartialEq, Eq)]
pub struct Member {
    pub user: Id,
    pub display_name: String,
    pub email: Option<String>,
    pub role: MemberRole,
}

/// A lesson of a timetable day; times are seconds after midnight.
#[derive(Debug, Clone, PartialEq, Eq)]
pub struct Lesson {
    pub subject: String,
    pub description: String,
    pub start: i64,
    pub end: i64,
}

/// Lessons are ordered by their start alone.
pub open spec fn start_order(a: &Lesson, b: &Lesson) -> Option<std::cmp::Ordering> {
    if a.start < b.start {
        Some(std::cmp::Ordering::Less)
    } else if a.start > b.start {
        Some(std::cmp::Ordering::Greater)
    } else {
        Some(std::cmp::Ordering::Equal)
    }
}

impl PartialOrd for Lesson {
    fn partial_cmp(&self, other: &Lesson) -> (r: Option<std::cmp::Ordering>)
        ensures
            r == start_order(self, other),
    {
        if self.start < other.start {
            Some(std::cmp::Ordering::Less)
        } else if self.start > other.start {
            Some(std::cmp::Ordering::Greater)
        } else {
            Some(std::cmp::Ordering::Equal)
        }
    }
}

impl vstd::std_specs::cmp::PartialOrdSpecImpl for Lesson {
    open spec fn obeys_partial_cmp_spec() -> bool {
        true
    }

    open spec fn partial_cmp_spec(&self, other: &Lesson) -> Option<std::cmp::Ordering> {
        start_order(self, other)
    }
}

/// Response of a token refresh.
#[derive(Debug, Clone, Copy, PartialEq, Eq, Structural)]
pub struct RefreshResponse {
    pub expires: i64,
}

/// Response of a login.
#[derive(Debug, Clone, Copy, PartialEq, Eq, Structural)]
pub struct LoginResponse {
    pub userid: Id,
    pub expires: i64,
}

/// Body of a decision on a join request.
#[derive(Debug, Clone, Copy, PartialEq, Eq, Structural)]
pub struct MemberAcceptDto {
    pub accept: bool,
}

/// Body of a login; the password must never be logged.
#[derive(Debug, Clone, PartialEq, Eq)]
pub struct UserLogin {
    pub email: String,
    pub password: String,
}

/// Response of a registration.
#[derive(Debug, Clone, PartialEq, Eq)]
pub struct UserPostResponse {
    pub user: User,
    pub expires: i64,
}

/// A single Discord identifier.
#[derive(Debug, Clone, PartialEq, Eq)]
pub struct SingleSnowflake {
    pub snowflake: String,
}

/// Bounds of a query for events, in milliseconds.
#[derive(Debug, Clone, Copy, PartialEq, Eq, Structural)]
pub struct GetEventQueryParams {
    pub before: Option<i64>,
    pub after: Option<i64>,
}

/// Body of a password change; neither password may be logged.
#[derive(Debug, Clone, PartialEq, Eq)]
pub struct ChangePasswordReq {
    pub password: String,
    pub old_password: String,
}

/// A notification that the bot should send.
#[derive(Debug, Clone, PartialEq, Eq)]
pub struct Notification {
    pub event: Event,
    pub guild: String,
    pub channel: String,
    pub role_ping: Option<String>,
    pub everyone_ping: bool,
}

/// The notifications due since a time, and the time of the answer.
#[derive(Debug, Clone, PartialEq, Eq)]
pub struct NotificationRes {
    pub notifications: Vec<Notification>,
    pub time: i64,
}

/// Query of the notifications due since a time, in milliseconds.
#[derive(Debug, Clone, Copy, PartialEq, Eq, Structural)]
pub struct NotificationQueryParams {
    pub since: i64,
}

/// Notification settings of a Discord guild.
#[derive(Debug, Clone, PartialEq, Eq)]
pub struct Guild {
    pub id: String,
    pub notif_channel: Option<String>,
    pub notif_ping_role: Option<String>,
    pub notif_ping_everyone: bool,
}

/// The password change is made only when the old password was confirmed.
pub fn confirm_old_password(confirmed: bool) -> (r: Result<(), crate::error::ServiceErr>)
    ensures
        r == (if confirmed {
            Ok(())
        } else {
            Err(crate::error::ServiceErr::Unauthorized(crate::error::Reason::WrongPassword))
        }),
{
    if confirmed {
        Ok(())
    } else {
        Err(crate::error::ServiceErr::Unauthorized(crate::error::Reason::WrongPassword))
    }
}

/// Only a member of a class may see it.
pub fn require_class_member(class: &Class, caller: Id) -> (r: Result<(), crate::error::ServiceErr>)
    ensures
        r is Ok <==> exists|i: int| 0 <= i < class.members@.len() && (#[trigger] class.members@[i]).user == caller,
        r is Err ==> r == Err::<(), crate::error::ServiceErr>(
            crate::error::ServiceErr::Unauthorized(crate::error::Reason::NotClassMember),
        ),
{
    let mut i: usize = 0;
    while i < class.members.len()
        invariant
            i <= class.members@.len(),
            forall|j: int| 0 <= j < i ==> (#[trigger] class.members@[j]).user != caller,
        decreases class.members@.len() - i,
    {
        if class.members[i].user == caller {
            return Ok(());
        }
        i += 1;
    }
    Err(crate::error::ServiceErr::Unauthorized(crate::error::Reason::NotClassMember))
}

} // verus!
