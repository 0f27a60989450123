//! The role resolver: the caller's role inside the class a request targets.
//!
//! Both inputs, the class identifier taken from the request path and the
//! caller's claims, are settled before the storage is asked, so that a
//! malformed request never costs a storage call.

use crate::dto::MemberRole;
use crate::error::{from_storage_spec, Reason, ServiceErr, StorageFailure};
use crate::ids::{parsed_uuid, Id};
use crate::models::{code_role, role_from_code};
use crate::token::Claims;
use vstd::prelude::*;

verus! {

/// The caller's role inside the class of the request.
#[derive(Debug, Clone, Copy, PartialEq, Eq, Structural)]
pub struct Role(pub MemberRole);

impl Role {
    pub fn role(&self) -> (r: MemberRole)
        ensures
            r == self.0,
    {
        self.0
    }
}

/// The storage read that role resolution needs.
#[derive(Debug, Clone, Copy, PartialEq, Eq, Structural)]
pub struct RoleLookup {
    pub user: Id,
    pub class: Id,
}

pub open spec fn text_view(t: Option<&str>) -> Option<Seq<char>> {
    match t {
        Some(s) => Some(s@),
        None => None,
    }
}

/// The lookup that a request leads to, or the failure that ends it first:
/// a missing or malformed class identifier, then a failed authentication.
pub open spec fn lookup_outcome(class_param: Option<Seq<char>>, claims: Result<Claims, ServiceErr>) -> Result<RoleLookup, ServiceErr> {
    match class_param {
        None => Err(ServiceErr::BadRequest(Reason::MissingClassId)),
        Some(t) => match parsed_uuid(t) {
            None => Err(ServiceErr::BadRequest(Reason::InvalidUuid)),
            Some(b) => match claims {
                Err(e) => Err(e),
                Ok(c) => Ok(RoleLookup { user: c.subject, class: Id { bits: b } }),
            },
        },
    }
}

/// The role that a storage answer yields: a stored code, or the storage
/// failure (a missing row is `NotFound`).
pub open spec fn found_outcome(found: Result<i32, StorageFailure>) -> Result<Role, ServiceErr> {
    match found {
        Err(f) => Err(from_storage_spec(f)),
        Ok(code) => match code_role(code as int) {
            Some(r) => Ok(Role(r)),
            None => Err(ServiceErr::Internal(arbitrary())),
        },
    }
}

/// Settles the two inputs of role resolution into one outcome.
pub fn role_lookup_key(class_param: Option<&str>, claims: Result<Claims, ServiceErr>) -> (r: Result<RoleLookup, ServiceErr>)
    ensures
        r == lookup_outcome(text_view(class_param), claims),
{
    let text = match class_param {
        Some(t) => t,
        None => return Err(ServiceErr::BadRequest(Reason::MissingClassId)),
    };
    let class = match Id::parse(text) {
        Some(id) => id,
        None => return Err(ServiceErr::BadRequest(Reason::InvalidUuid)),
    };
    match claims {
        Err(e) => Err(e),
        Ok(c) => Ok(RoleLookup { user: c.subject, class }),
    }
}

/// Turns the storage's answer into the caller's role.
pub fn role_from_lookup(found: Result<i32, StorageFailure>) -> (r: Result<Role, ServiceErr>)
    ensures
        match found_outcome(found) {
            Err(ServiceErr::Internal(_)) => r matches Err(e) && e is Internal,
            other => r == other,
        },
{
    match found {
        Err(f) => Err(ServiceErr::from_storage(f)),
        Ok(code) => match role_from_code(code) {
            Ok(role) => Ok(Role(role)),
            Err(e) => Err(e),
        },
    }
}

/// Resolves the caller's role, reading the storage through `lookup` only
/// once both inputs are settled.
pub fn resolve_role<F>(class_param: Option<&str>, claims: Result<Claims, ServiceErr>, lookup: F) -> (r: Result<Role, ServiceErr>)
    where
        F: FnOnce(Id, Id) -> Result<i32, StorageFailure>,
    requires
        lookup_outcome(text_view(class_param), claims) matches Ok(k) ==> lookup.requires((k.user, k.class)),
    ensures
        match lookup_outcome(text_view(class_param), claims) {
            Err(e) => r == Err::<Role, ServiceErr>(e),
            Ok(k) => exists|found: Result<i32, StorageFailure>|
                {
                    &&& lookup.ensures((k.user, k.class), found)
                    &&& match #[trigger] found_outcome(found) {
                        Err(ServiceErr::Internal(_)) => r matches Err(e) && e is Internal,
                        other => r == other,
                    }
                },
        },
{
    match role_lookup_key(class_param, claims) {
        Err(e) => Err(e),
        Ok(k) => {
            let found = lookup(k.user, k.class);
            role_from_lookup(found)
        },
    }
}

} // verus!
