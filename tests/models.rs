use classroom_auth::dto::{
    self, confirm_old_password, require_class_member, EventType, MemberRole, PostUser,
};
use classroom_auth::error::{Reason, ServiceErr};
use classroom_auth::ids::Id;
use classroom_auth::models::{
    event_type_from_code, member_role_dto_to_int, role_display, role_from_code, text_eq, Class,
    Event, Guild, Member, MemberRole as StoredRole, User,
};

fn row(user: u128, name: &str, role: i32) -> (Member, String) {
    let m = Member { user: Id { bits: user }, class: Id { bits: 9 }, display_name: name.to_string(), role };
    (m, format!("{}@example.org", name))
}

fn class() -> Class {
    Class {
        id: Id { bits: 9 },
        owner: Id { bits: 1 },
        name: "Maths".to_string(),
        description: "Grade 9".to_string(),
        discord_id: None,
    }
}

#[test]
fn event_type_names() {
    assert_eq!(EventType::Homework.as_str(), "homework");
    assert_eq!(EventType::Exam.as_str(), "exam");
    assert_eq!(EventType::Holidays.as_str(), "holidays");
    assert_eq!(EventType::Other.as_str(), "other");
}

#[test]
fn role_codes_both_ways() {
    for role in [MemberRole::Owner, MemberRole::Admin, MemberRole::Member, MemberRole::Pending, MemberRole::Banned] {
        assert_eq!(role_from_code(member_role_dto_to_int(&role)), Ok(role));
        let stored = StoredRole { id: role.rank(), display: role_display(role).unwrap().to_string() };
        assert_eq!(stored.into_dto(), Ok(role));
    }
    assert_eq!(member_role_dto_to_int(&MemberRole::ServiceInternal), -1);
    assert_eq!(role_display(MemberRole::ServiceInternal), None);
    assert!(matches!(role_from_code(5), Err(ServiceErr::Internal(_))));
    assert!(matches!(role_from_code(-1), Err(ServiceErr::Internal(_))));
    let unknown = StoredRole { id: 7, display: "superuser".to_string() };
    assert!(matches!(unknown.into_dto(), Err(ServiceErr::Internal(_))));
}

#[test]
fn event_type_codes() {
    assert_eq!(event_type_from_code(1), Ok(EventType::Homework));
    assert_eq!(event_type_from_code(4), Ok(EventType::Other));
    assert!(matches!(event_type_from_code(0), Err(ServiceErr::Internal(_))));
}

#[test]
fn class_lists_only_real_members() {
    let rows = vec![row(1, "ann", 0), row(2, "bob", 3), row(3, "cid", 2), row(4, "dee", 4), row(5, "eve", 1)];
    let c = class().into_dto(&rows).unwrap();
    let users: Vec<u128> = c.members.iter().map(|m| m.user.bits).collect();
    assert_eq!(users, vec![1, 3, 5]);
    assert_eq!(c.members[0].role, MemberRole::Owner);
    assert_eq!(c.members[1].email, Some("cid@example.org".to_string()));
    assert_eq!(c.name, "Maths");
}

#[test]
fn class_with_bad_role_code_fails() {
    let rows = vec![row(1, "ann", 0), row(2, "bob", -7)];
    assert!(matches!(class().into_dto(&rows), Err(ServiceErr::Internal(_))));
    let empty = class().into_dto(&vec![]).unwrap();
    assert!(empty.members.is_empty());
}

#[test]
fn member_without_email() {
    let (m, _) = row(3, "cid", 2);
    let d = m.into_dto().unwrap();
    assert_eq!(d, dto::Member { user: Id { bits: 3 }, display_name: "cid".to_string(), email: None, role: MemberRole::Member });
}

#[test]
fn event_end_zero_means_none() {
    let mut e = Event {
        id: Id { bits: 5 },
        class: Id { bits: 9 },
        e_type: 2,
        name: "Test".to_string(),
        start: 1000,
        end: Some(0),
        description: String::new(),
        notification: Some(500),
    };
    let d = e.into_dto().unwrap();
    assert_eq!(d.end, None);
    assert_eq!(d.kind, EventType::Exam);
    e.end = Some(2000);
    assert_eq!(e.into_dto().unwrap().end, Some(2000));
    e.e_type = 9;
    assert!(e.into_dto().is_err());
}

#[test]
fn user_and_guild_conversions() {
    let u = User {
        id: Id { bits: 1 },
        email: "a@b.c".to_string(),
        password: "secret".to_string(),
        description: "hi".to_string(),
        discord_id: None,
        token_version: 0,
    };
    let d = u.into_dto();
    assert_eq!(d.email, "a@b.c");
    assert_eq!(d.classes, None);
    let g = Guild { id: "1".to_string(), notif_channel: Some("2".to_string()), notif_ping_role: None, notif_ping_everyone: true };
    let dg = g.into_dto();
    assert_eq!(dg.notif_channel, Some("2".to_string()));
    assert!(dg.notif_ping_everyone);
}

#[test]
fn password_is_masked() {
    let mut body = PostUser {
        id: Id { bits: 1 },
        email: "a@b.c".to_string(),
        description: String::new(),
        password: "hunter2".to_string(),
    };
    assert_eq!(body.take_password(), "hunter2");
    assert_eq!(body.password, "**********");
    assert_eq!(body.email, "a@b.c");
}

#[test]
fn old_password_must_match() {
    assert_eq!(confirm_old_password(true), Ok(()));
    assert_eq!(confirm_old_password(false), Err(ServiceErr::Unauthorized(Reason::WrongPassword)));
}

#[test]
fn class_access_for_members_only() {
    let rows = vec![row(1, "ann", 0), row(2, "bob", 3)];
    let c = class().into_dto(&rows).unwrap();
    assert_eq!(require_class_member(&c, Id { bits: 1 }), Ok(()));
    assert_eq!(
        require_class_member(&c, Id { bits: 2 }),
        Err(ServiceErr::Unauthorized(Reason::NotClassMember))
    );
}

#[test]
fn texts_compare() {
    assert!(text_eq("owner", "owner"));
    assert!(!text_eq("owner", "owners"));
    assert!(!text_eq("owner", "Owner"));
    assert!(text_eq("", ""));
}

#[test]
fn lessons_order_by_start() {
    let lesson = |subject: &str, start: i64| dto::Lesson {
        subject: subject.to_string(),
        description: String::new(),
        start,
        end: start + 2700,
    };
    let mut day = vec![lesson("Physics", 36000), lesson("Maths", 28800), lesson("Art", 32400)];
    day.sort_by(|a, b| a.partial_cmp(b).unwrap());
    let order: Vec<&str> = day.iter().map(|l| l.subject.as_str()).collect();
    assert_eq!(order, vec!["Maths", "Art", "Physics"]);
    assert_eq!(lesson("A", 10).partial_cmp(&lesson("B", 10)), Some(std::cmp::Ordering::Equal));
}
