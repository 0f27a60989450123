//! Records as the storage collaborator holds them, and their conversion to
//! the values exchanged with clients.

use crate::dto::{self, EventType as EventKind, MemberRole as Role};
use crate::error::ServiceErr;
use crate::ids::Id;
use vstd::prelude::*;

verus! {

/// Whether two texts are the same.
pub fn text_eq(a: &str, b: &str) -> (r: bool)
    ensures
        r == (a@ == b@),
{
    let n = a.unicode_len();
    if n != b.unicode_len() {
        return false;
    }
    let mut i: usize = 0;
    while i < n
        invariant
            n == a@.len(),
            n == b@.len(),
            i <= n,
            forall|j: int| 0 <= j < i ==> a@[j] == b@[j],
        decreases n - i,
    {
        if a.get_char(i) != b.get_char(i) {
            return false;
        }
        i += 1;
    }
    assert(a@ =~= b@);
    true
}

/// The stored integer code of each role that can be stored; the internal
/// service role has none.
pub open spec fn code_role(code: int) -> Option<Role> {
    if code == 0 {
        Some(Role::Owner)
    } else if code == 1 {
        Some(Role::Admin)
    } else if code == 2 {
        Some(Role::Member)
    } else if code == 3 {
        Some(Role::Pending)
    } else if code == 4 {
        Some(Role::Banned)
    } else {
        None
    }
}

/// The stored name of each role that can be stored.
pub open spec fn role_name(r: Role) -> Option<Seq<char>> {
    match r {
        Role::ServiceInternal => None,
        Role::Owner => Some("owner"@),
        Role::Admin => Some("admin"@),
        Role::Member => Some("member"@),
        Role::Pending => Some("pending"@),
        Role::Banned => Some("banned"@),
    }
}

/// The role that a stored name stands for.
pub open spec fn named_role(name: Seq<char>) -> Option<Role> {
    if name == "owner"@ {
        Some(Role::Owner)
    } else if name == "admin"@ {
        Some(Role::Admin)
    } else if name == "member"@ {
        Some(Role::Member)
    } else if name == "pending"@ {
        Some(Role::Pending)
    } else if name == "banned"@ {
        Some(Role::Banned)
    } else {
        None
    }
}

/// The stored integer code of each event type.
pub open spec fn code_event_type(code: int) -> Option<EventKind> {
    if code == 1 {
        Some(EventKind::Homework)
    } else if code == 2 {
        Some(EventKind::Exam)
    } else if code == 3 {
        Some(EventKind::Holidays)
    } else if code == 4 {
        Some(EventKind::Other)
    } else {
        None
    }
}

/// A row of the table of roles.
#[derive(Debug, Clone, PartialEq, Eq)]
pub struct MemberRole {
    pub id: i32,
    pub display: String,
}

impl MemberRole {
    pub const OWNER: i32 = 0;
    pub const ADMIN: i32 = 1;
    pub const MEMBER: i32 = 2;
    pub const PENDING: i32 = 3;
    pub const BANNED: i32 = 4;

    /// The role that the row names.
    pub fn into_dto(&self) -> (r: Result<Role, ServiceErr>)
        ensures
            match named_role(self.display@) {
                Some(role) => r == Ok::<Role, ServiceErr>(role),
                None => r matches Err(e) && e is Internal,
            },
    {
        let d = self.display.as_str();
        if text_eq(d, "owner") {
            Ok(Role::Owner)
        } else if text_eq(d, "admin") {
            Ok(Role::Admin)
        } else if text_eq(d, "member") {
            Ok(Role::Member)
        } else if text_eq(d, "pending") {
            Ok(Role::Pending)
        } else if text_eq(d, "banned") {
            Ok(Role::Banned)
        } else {
            Err(ServiceErr::Internal(String::from_str("invalid member role")))
        }
    }
}

/// A row of the table of event types.
#[derive(Debug, Clone, PartialEq, Eq)]
pub struct EventType {
    pub id: i32,
    pub display: String,
}

/// The role that a stored integer code stands for.
pub fn role_from_code(code: i32) -> (r: Result<Role, ServiceErr>)
    ensures
        match code_role(code as int) {
            Some(role) => r == Ok::<Role, ServiceErr>(role),
            None => r matches Err(e) && e is Internal,
        },
{
    if code == MemberRole::OWNER {
        Ok(Role::Owner)
    } else if code == MemberRole::ADMIN {
        Ok(Role::Admin)
    } else if code == MemberRole::MEMBER {
        Ok(Role::Member)
    } else if code == MemberRole::PENDING {
        Ok(Role::Pending)
    } else if code == MemberRole::BANNED {
        Ok(Role::Banned)
    } else {
        Err(ServiceErr::Internal(String::from_str("invalid member role")))
    }
}

/// The integer code under which a role is stored: its rank.
pub fn member_role_dto_to_int(dto: &Role) -> (r: i32)
    ensures
        r == dto.rank_of(),
{
    dto.rank()
}

/// The name under which a role is stored, if it can be stored.
pub fn role_display(role: Role) -> (r: Option<&'static str>)
    ensures
        match role_name(role) {
            Some(n) => r matches Some(s) && s@ == n,
            None => r is None,
        },
{
    match role {
        Role::ServiceInternal => None,
        Role::Owner => Some("owner"),
        Role::Admin => Some("admin"),
        Role::Member => Some("member"),
        Role::Pending => Some("pending"),
        Role::Banned => Some("banned"),
    }
}

/// The event type that a stored integer code stands for.
pub fn event_type_from_code(code: i32) -> (r: Result<EventKind, ServiceErr>)
    ensures
        match code_event_type(code as int) {
            Some(t) => r == Ok::<EventKind, ServiceErr>(t),
            None => r matches Err(e) && e is Internal,
        },
{
    if code == 1 {
        Ok(EventKind::Homework)
    } else if code == 2 {
        Ok(EventKind::Exam)
    } else if code == 3 {
        Ok(EventKind::Holidays)
    } else if code == 4 {
        Ok(EventKind::Other)
    } else {
        Err(ServiceErr::Internal(String::from_str("invalid event type")))
    }
}

/// Integer codes and names are each one table read both ways: every role
/// that can be stored comes back from its code and from its name.
pub proof fn lemma_role_tables_round_trip(r: Role)
    requires
        r != Role::ServiceInternal,
    ensures
        code_role(r.rank_of()) == Some(r),
        role_name(r) matches Some(n) && named_role(n) == Some(r),
{
    reveal_strlit("owner");
    reveal_strlit("admin");
    reveal_strlit("member");
    reveal_strlit("pending");
    reveal_strlit("banned");
    let (o, a, m, p, b) = ("owner"@, "admin"@, "member"@, "pending"@, "banned"@);
    assert(a != o) by { assert(a[0] != o[0]); }
    assert(m != o && m != a) by { assert(m[0] != o[0] && m[0] != a[0]); }
    assert(p != o && p != a && p != m) by { assert(p[0] != o[0] && p[0] != a[0] && p[0] != m[0]); }
    assert(b != o && b != a && b != m && b != p) by {
        assert(b[0] != o[0] && b[0] != a[0] && b[0] != m[0] && b[0] != p[0]);
    }
}

/// A stored user; its password never leaves this layer.
#[derive(Debug, Clone, PartialEq, Eq)]
pub struct User {
    pub id: Id,
    pub email: String,
    pub password: String,
    pub description: String,
    pub discord_id: Option<String>,
    pub token_version: i32,
}

/// A stored class.
#[derive(Debug, Clone, PartialEq, Eq)]
pub struct Class {
    pub id: Id,
    pub owner: Id,
    pub name: String,
    pub description: String,
    pub discord_id: Option<String>,
}

/// A stored membership; the role is its integer code.
#[derive(Debug, PartialEq, Eq)]
pub struct Member {
    pub user: Id,
    pub class: Id,
    pub display_name: String,
    pub role: i32,
}

impl Clone for Member {
    fn clone(&self) -> (r: Member)
        ensures
            r == *self,
    {
        Member {
            user: self.user,
            class: self.class,
            display_name: self.display_name.clone(),
            role: self.role,
        }
    }
}

/// A stored event; times are Unix timestamps in milliseconds, and an end of
/// zero stands for no end.
#[derive(Debug, Clone, PartialEq, Eq)]
pub struct Event {
    pub id: Id,
    pub class: Id,
    pub e_type: i32,
    pub name: String,
    pub start: i64,
    pub end: Option<i64>,
    pub description: String,
    pub notification: Option<i64>,
}

/// Stored notification settings of a Discord guild.
#[derive(Debug, Clone, PartialEq, Eq)]
pub struct Guild {
    pub id: String,
    pub notif_channel: Option<String>,
    pub notif_ping_role: Option<String>,
    pub notif_ping_everyone: bool,
}

/// Notification settings of a Discord guild, as written to storage.
#[derive(Debug, Clone, PartialEq, Eq)]
pub struct NewGuild {
    pub id: String,
    pub notif_channel: Option<String>,
    pub notif_ping_role: Option<String>,
    pub notif_ping_everyone: bool,
}

/// A member as clients see it.
pub open spec fn member_view(m: Member, email: Option<String>, role: Role) -> dto::Member {
    dto::Member { user: m.user, display_name: m.display_name, email, role }
}

/// A row is listed among a class's members when its code ranks above
/// `Pending`: pending and banned users are not members to be shown.
pub open spec fn listed(m: Member) -> bool {
    m.role < MemberRole::PENDING
}

/// The members that a class shows, from its rows of memberships and users'
/// e-mail addresses; `None` when a listed row holds no valid role code.
pub open spec fn listed_members(rows: Seq<(Member, String)>) -> Option<Seq<dto::Member>>
    decreases rows.len(),
{
    if rows.len() == 0 {
        Some(Seq::empty())
    } else {
        match listed_members(rows.drop_last()) {
            None => None,
            Some(prev) => {
                let (m, email) = rows.last();
                if listed(m) {
                    match code_role(m.role as int) {
                        Some(role) => Some(prev.push(member_view(m, Some(email), role))),
                        None => None,
                    }
                } else {
                    Some(prev)
                }
            },
        }
    }
}

proof fn lemma_listed_members_fail(rows: Seq<(Member, String)>, n: int)
    requires
        0 <= n <= rows.len(),
        listed_members(rows.subrange(0, n)) is None,
    ensures
        listed_members(rows) is None,
    decreases rows.len() - n,
{
    if n < rows.len() {
        assert(rows.subrange(0, n + 1).drop_last() =~= rows.subrange(0, n));
        lemma_listed_members_fail(rows, n + 1);
    } else {
        assert(rows.subrange(0, n) =~= rows);
    }
}

impl Member {
    /// The member as clients see it, without an e-mail address.
    pub fn into_dto(&self) -> (r: Result<dto::Member, ServiceErr>)
        ensures
            match code_role(self.role as int) {
                Some(role) => r == Ok::<dto::Member, ServiceErr>(member_view(*self, None, role)),
                None => r matches Err(e) && e is Internal,
            },
    {
        let role = role_from_code(self.role)?;
        Ok(dto::Member { user: self.user, display_name: self.display_name.clone(), email: None, role })
    }
}

impl Class {
    /// The class as clients see it, with its listed members in the order of
    /// the rows.
    pub fn into_dto(&self, rows: &Vec<(Member, String)>) -> (r: Result<dto::Class, ServiceErr>)
        ensures
            match listed_members(rows@) {
                Some(ms) => r matches Ok(c) && c.members@ == ms && c.id == self.id && c.name == self.name
                    && c.description == self.description && c.discord_id == self.discord_id,
                None => r matches Err(e) && e is Internal,
            },
    {
        let mut members: Vec<dto::Member> = Vec::new();
        let mut i: usize = 0;
        while i < rows.len()
            invariant
                i <= rows@.len(),
                listed_members(rows@.subrange(0, i as int)) == Some(members@),
            decreases rows@.len() - i,
        {
            let ghost prefix = rows@.subrange(0, i as int + 1);
            assert(prefix.drop_last() =~= rows@.subrange(0, i as int));
            let m = &rows[i].0;
            if m.role < MemberRole::PENDING {
                match role_from_code(m.role) {
                    Ok(role) => {
                        members.push(
                            dto::Member {
                                user: m.user,
                                display_name: m.display_name.clone(),
                                email: Some(rows[i].1.clone()),
                                role,
                            },
                        );
                    },
                    Err(e) => {
                        proof {
                            lemma_listed_members_fail(rows@, i as int + 1);
                        }
                        return Err(e);
                    },
                }
            }
            i += 1;
        }
        assert(rows@.subrange(0, rows@.len() as int) =~= rows@);
        Ok(
            dto::Class {
                id: self.id,
                members,
                name: self.name.clone(),
                description: self.description.clone(),
                discord_id: self.discord_id.clone(),
            },
        )
    }
}

impl Event {
    /// The event as clients see it; a stored end of zero means no end.
    pub fn into_dto(&self) -> (r: Result<dto::Event, ServiceErr>)
        ensures
            match code_event_type(self.e_type as int) {
                Some(kind) => r matches Ok(e) && e.id == self.id && e.kind == kind && e.name == self.name
                    && e.start == self.start && e.description == self.description
                    && e.notification == self.notification
                    && e.end == (if self.end == Some(0i64) { None } else { self.end }),
                None => r matches Err(e) && e is Internal,
            },
    {
        let kind = event_type_from_code(self.e_type)?;
        let end = match self.end {
            Some(0) => None,
            other => other,
        };
        Ok(
            dto::Event {
                id: self.id,
                kind,
                name: self.name.clone(),
                start: self.start,
                end,
                description: self.description.clone(),
                notification: self.notification,
            },
        )
    }
}

impl User {
    /// The stored form of a user sent by a client: no password, no Discord
    /// link and the first token version; the caller fills in what it knows.
    pub fn from_dto(user: dto::User) -> (r: User)
        ensures
            r.id == user.id,
            r.email == user.email,
            r.description == user.description,
            r.password@.len() == 0,
            r.discord_id is None,
            r.token_version == 0,
    {
        User {
            id: user.id,
            email: user.email,
            password: String::new(),
            description: user.description,
            discord_id: None,
            token_version: 0,
        }
    }

    /// The user as clients see it: without password, without classes.
    pub fn into_dto(&self) -> (r: dto::User)
        ensures
            r.id == self.id,
            r.email == self.email,
            r.description == self.description,
            r.classes is None,
    {
        dto::User {
            id: self.id,
            email: self.email.clone(),
            description: self.description.clone(),
            classes: None,
        }
    }
}

impl Guild {
    pub fn into_dto(&self) -> (r: dto::Guild)
        ensures
            r.id == self.id,
            r.notif_channel == self.notif_channel,
            r.notif_ping_role == self.notif_ping_role,
            r.notif_ping_everyone == self.notif_ping_everyone,
    {
        dto::Guild {
            id: self.id.clone(),
            notif_channel: self.notif_channel.clone(),
            notif_ping_role: self.notif_ping_role.clone(),
            notif_ping_everyone: self.notif_ping_everyone,
        }
    }
}

} // verus!
