use std::cell::Cell;

use classroom_auth::dto::MemberRole;
use classroom_auth::error::{Infrastructure, Reason, ServiceErr, StorageFailure};
use classroom_auth::ids::Id;
use classroom_auth::models::MemberRole as StoredRole;
use classroom_auth::resolver::{resolve_role, role_from_lookup, role_lookup_key, Role, RoleLookup};
use classroom_auth::roster::Roster;
use classroom_auth::token::Claims;

const CLASS_TEXT: &str = "67e55044-10b1-426f-9247-bb680e5fe0c8";
const CLASS_BITS: u128 = 0x67e5504410b1426f9247bb680e5fe0c8;

fn caller() -> Claims {
    Claims { subject: Id { bits: 42 }, expires_at: 0, is_refresh: false }
}

#[test]
fn malformed_class_id_never_reaches_storage() {
    let calls = Cell::new(0);
    let r = resolve_role(Some("not-a-uuid"), Ok(caller()), |_, _| {
        calls.set(calls.get() + 1);
        Ok(StoredRole::OWNER)
    });
    assert_eq!(r, Err(ServiceErr::BadRequest(Reason::InvalidUuid)));
    assert_eq!(calls.get(), 0);
}

#[test]
fn missing_class_id_never_reaches_storage() {
    let calls = Cell::new(0);
    let r = resolve_role(None, Ok(caller()), |_, _| {
        calls.set(calls.get() + 1);
        Ok(StoredRole::OWNER)
    });
    assert_eq!(r, Err(ServiceErr::BadRequest(Reason::MissingClassId)));
    assert_eq!(calls.get(), 0);
}

#[test]
fn failed_authentication_never_reaches_storage() {
    let calls = Cell::new(0);
    let r = resolve_role(Some(CLASS_TEXT), Err(ServiceErr::Unauthorized(Reason::TokenExpired)), |_, _| {
        calls.set(calls.get() + 1);
        Ok(StoredRole::OWNER)
    });
    assert_eq!(r, Err(ServiceErr::Unauthorized(Reason::TokenExpired)));
    assert_eq!(calls.get(), 0);
}

#[test]
fn resolves_role_from_storage() {
    let calls = Cell::new(0);
    let r = resolve_role(Some(CLASS_TEXT), Ok(caller()), |user, class| {
        calls.set(calls.get() + 1);
        assert_eq!(user, Id { bits: 42 });
        assert_eq!(class, Id { bits: CLASS_BITS });
        Ok(StoredRole::ADMIN)
    });
    assert_eq!(r, Ok(Role(MemberRole::Admin)));
    assert_eq!(r.unwrap().role(), MemberRole::Admin);
    assert_eq!(calls.get(), 1);
}

#[test]
fn resolves_against_roster() {
    let class = Id { bits: CLASS_BITS };
    let mut roster = Roster::new();
    roster.create_class(Id { bits: 42 }, class, "Owner".to_string()).unwrap();
    let lookup = |u: Id, c: Id| match roster.role_of(u, c) {
        Some(role) => Ok(role.rank()),
        None => Err(StorageFailure::RowNotFound),
    };
    assert_eq!(resolve_role(Some(CLASS_TEXT), Ok(caller()), lookup), Ok(Role(MemberRole::Owner)));
    let stranger = Claims { subject: Id { bits: 7 }, ..caller() };
    assert_eq!(resolve_role(Some(CLASS_TEXT), Ok(stranger), lookup), Err(ServiceErr::NotFound));
}

#[test]
fn lookup_key_parses_class() {
    assert_eq!(
        role_lookup_key(Some(CLASS_TEXT), Ok(caller())),
        Ok(RoleLookup { user: Id { bits: 42 }, class: Id { bits: CLASS_BITS } })
    );
    assert_eq!(
        role_lookup_key(Some(""), Ok(caller())),
        Err(ServiceErr::BadRequest(Reason::InvalidUuid))
    );
}

#[test]
fn storage_answers_map_to_roles_and_errors() {
    assert_eq!(role_from_lookup(Ok(StoredRole::BANNED)), Ok(Role(MemberRole::Banned)));
    assert_eq!(role_from_lookup(Err(StorageFailure::RowNotFound)), Err(ServiceErr::NotFound));
    assert_eq!(
        role_from_lookup(Err(StorageFailure::Other)),
        Err(ServiceErr::TransientInfrastructureFailure(Infrastructure::Storage))
    );
    assert!(matches!(role_from_lookup(Ok(9)), Err(ServiceErr::Internal(_))));
}
