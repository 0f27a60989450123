//! The failures that the service reports, and how lower-level failures map
//! onto them.

use diesel::result::DatabaseErrorKind as Kind;
use vstd::prelude::*;

verus! {

/// A short machine-readable tag that explains a failure.
#[derive(Debug, Clone, Copy, PartialEq, Eq, Structural, Hash)]
pub enum Reason {
    NoBearerToken,
    WrongPassword,
    TokenExpired,
    InvalidToken,
    RefreshTokenNotAllowed,
    AccessTokenNotAllowed,
    NotClassMember,
    AlreadyExists,
    DoesNotExist,
    InvalidUuid,
    MissingClassId,
    InvalidTransition,
}

impl Reason {
    pub open spec fn text(self) -> Seq<char> {
        match self {
            Reason::NoBearerToken => "no-bearer-token"@,
            Reason::WrongPassword => "wrong-password"@,
            Reason::TokenExpired => "token-expired"@,
            Reason::InvalidToken => "invalid-token"@,
            Reason::RefreshTokenNotAllowed => "refresh-token-not-allowed-here"@,
            Reason::AccessTokenNotAllowed => "access-token-not-allowed-here"@,
            Reason::NotClassMember => "cannot-access-other-class"@,
            Reason::AlreadyExists => "already-exists"@,
            Reason::DoesNotExist => "does-not-exist"@,
            Reason::InvalidUuid => "invalid-uuid"@,
            Reason::MissingClassId => "class-id-not-provided"@,
            Reason::InvalidTransition => "invalid-role-transition"@,
        }
    }

    pub fn as_str(&self) -> (r: &'static str)
        ensures
            r@ == self.text(),
    {
        match self {
            Reason::NoBearerToken => "no-bearer-token",
            Reason::WrongPassword => "wrong-password",
            Reason::TokenExpired => "token-expired",
            Reason::InvalidToken => "invalid-token",
            Reason::RefreshTokenNotAllowed => "refresh-token-not-allowed-here",
            Reason::AccessTokenNotAllowed => "access-token-not-allowed-here",
            Reason::NotClassMember => "cannot-access-other-class",
            Reason::AlreadyExists => "already-exists",
            Reason::DoesNotExist => "does-not-exist",
            Reason::InvalidUuid => "invalid-uuid",
            Reason::MissingClassId => "class-id-not-provided",
            Reason::InvalidTransition => "invalid-role-transition",
        }
    }
}

/// The piece of infrastructure that failed; a retry may succeed.
#[derive(Debug, Clone, Copy, PartialEq, Eq, Structural, Hash)]
pub enum Infrastructure {
    /// The storage rejected an operation for a reason other than a constraint.
    Storage,
    /// No storage connection could be taken from the pool.
    ConnectionPool,
    /// The worker pool is gone; work handed to it may have been abandoned
    /// mid-flight.
    WorkerPool,
}

/// How the storage collaborator reports a failed operation.
#[derive(Debug, Clone, Copy, PartialEq, Eq, Structural, Hash)]
pub enum StorageFailure {
    RowNotFound,
    UniqueViolation,
    ForeignKeyViolation,
    Other,
}

/// The single error channel of the service.
#[derive(Debug, Clone, PartialEq, Eq)]
pub enum ServiceErr {
    /// The referenced entity does not exist.
    NotFound,
    /// The caller has no identity, or one that does not fit the request.
    Unauthorized(Reason),
    /// A uniqueness or referential constraint would be violated.
    Conflict(Reason),
    /// The caller's input is malformed.
    BadRequest(Reason),
    /// The caller is known but lacks the privilege.
    Forbidden,
    /// Infrastructure failed; the caller may retry.
    TransientInfrastructureFailure(Infrastructure),
    /// An unexpected failure; the message is for the server's logs only.
    Internal(String),
}

/// Protocol status of each kind of failure.
pub open spec fn status_of(e: ServiceErr) -> u16 {
    match e {
        ServiceErr::NotFound => 404,
        ServiceErr::Unauthorized(_) => 401,
        ServiceErr::Conflict(_) => 409,
        ServiceErr::BadRequest(_) => 400,
        ServiceErr::Forbidden => 403,
        ServiceErr::TransientInfrastructureFailure(_) => 500,
        ServiceErr::Internal(_) => 500,
    }
}

/// The short body sent with each kind of failure; it never holds the
/// message of an internal failure.
pub open spec fn body_of(e: ServiceErr) -> Seq<char> {
    match e {
        ServiceErr::NotFound => "Not Found"@,
        ServiceErr::Unauthorized(r) => r.text(),
        ServiceErr::Conflict(r) => r.text(),
        ServiceErr::BadRequest(r) => r.text(),
        ServiceErr::Forbidden => "no-admin"@,
        ServiceErr::TransientInfrastructureFailure(_) => "internal-error"@,
        ServiceErr::Internal(_) => "internal-error"@,
    }
}

/// The text under which a failure is written to the server's logs.
pub open spec fn message_of(e: ServiceErr) -> Seq<char> {
    match e {
        ServiceErr::NotFound => "Not found"@,
        ServiceErr::Unauthorized(r) => r.text(),
        ServiceErr::Conflict(r) => r.text(),
        ServiceErr::BadRequest(r) => r.text(),
        ServiceErr::Forbidden => "perms/no-admin"@,
        ServiceErr::TransientInfrastructureFailure(i) => match i {
            Infrastructure::Storage => "DbActionFailed"@,
            Infrastructure::ConnectionPool => "ConnectionNotFound"@,
            Infrastructure::WorkerPool => "Internal Server Error: Thread pool is gone"@,
        },
        ServiceErr::Internal(msg) => "Internal Server Error: "@ + msg@,
    }
}

/// The failure that a storage failure becomes.
pub open spec fn from_storage_spec(f: StorageFailure) -> ServiceErr {
    match f {
        StorageFailure::RowNotFound => ServiceErr::NotFound,
        StorageFailure::UniqueViolation => ServiceErr::Conflict(Reason::AlreadyExists),
        StorageFailure::ForeignKeyViolation => ServiceErr::Conflict(Reason::DoesNotExist),
        StorageFailure::Other => ServiceErr::TransientInfrastructureFailure(Infrastructure::Storage),
    }
}

/// Declares diesel's error type, so that storage failures can be carried.
#[verifier::external_type_specification]
#[verifier::external_body]
pub struct ExDieselError(diesel::result::Error);

/// Declares r2d2's error type, which reports a connection pool failure.
#[verifier::external_type_specification]
#[verifier::external_body]
pub struct ExPoolError(r2d2::Error);

/// The kind of storage failure that a diesel error reports.
pub uninterp spec fn storage_kind(e: diesel::result::Error) -> StorageFailure;

/// Relies on the variants of `diesel::result::Error` and
/// `diesel::result::DatabaseErrorKind`: tells the failures that carry a
/// meaning for callers apart from the rest.
#[verifier::external_body]
fn storage_failure_of(e: &diesel::result::Error) -> (r: StorageFailure)
    ensures
        r == storage_kind(*e),
{
    match e {
        diesel::result::Error::NotFound => StorageFailure::RowNotFound,
        diesel::result::Error::DatabaseError(Kind::UniqueViolation, _) => {
            StorageFailure::UniqueViolation
        },
        diesel::result::Error::DatabaseError(Kind::ForeignKeyViolation, _) => {
            StorageFailure::ForeignKeyViolation
        },
        _ => StorageFailure::Other,
    }
}

impl ServiceErr {
    pub fn status(&self) -> (r: u16)
        ensures
            r == status_of(*self),
    {
        match self {
            ServiceErr::NotFound => 404,
            ServiceErr::Unauthorized(_) => 401,
            ServiceErr::Conflict(_) => 409,
            ServiceErr::BadRequest(_) => 400,
            ServiceErr::Forbidden => 403,
            ServiceErr::TransientInfrastructureFailure(_) => 500,
            ServiceErr::Internal(_) => 500,
        }
    }

    pub fn body(&self) -> (r: &'static str)
        ensures
            r@ == body_of(*self),
    {
        match self {
            ServiceErr::NotFound => "Not Found",
            ServiceErr::Unauthorized(r) => r.as_str(),
            ServiceErr::Conflict(r) => r.as_str(),
            ServiceErr::BadRequest(r) => r.as_str(),
            ServiceErr::Forbidden => "no-admin",
            ServiceErr::TransientInfrastructureFailure(_) => "internal-error",
            ServiceErr::Internal(_) => "internal-error",
        }
    }

    /// Whether the failure is one of infrastructure or an unexpected one,
    /// which the server logs in full.
    pub fn is_server_side(&self) -> (r: bool)
        ensures
            r == (status_of(*self) == 500),
    {
        match self {
            ServiceErr::TransientInfrastructureFailure(_) => true,
            ServiceErr::Internal(_) => true,
            _ => false,
        }
    }

    /// The text under which the failure is logged; it may hold the message
    /// of an internal failure, so it never goes on the wire.
    pub fn message(&self) -> (r: String)
        ensures
            r@ == message_of(*self),
    {
        match self {
            ServiceErr::NotFound => String::from_str("Not found"),
            ServiceErr::Unauthorized(r) => String::from_str(r.as_str()),
            ServiceErr::Conflict(r) => String::from_str(r.as_str()),
            ServiceErr::BadRequest(r) => String::from_str(r.as_str()),
            ServiceErr::Forbidden => String::from_str("perms/no-admin"),
            ServiceErr::TransientInfrastructureFailure(i) => match i {
                Infrastructure::Storage => String::from_str("DbActionFailed"),
                Infrastructure::ConnectionPool => String::from_str("ConnectionNotFound"),
                Infrastructure::WorkerPool => String::from_str("Internal Server Error: Thread pool is gone"),
            },
            ServiceErr::Internal(msg) => String::from_str("Internal Server Error: ").concat(msg.as_str()),
        }
    }

    pub fn from_storage(f: StorageFailure) -> (r: ServiceErr)
        ensures
            r == from_storage_spec(f),
    {
        match f {
            StorageFailure::RowNotFound => ServiceErr::NotFound,
            StorageFailure::UniqueViolation => ServiceErr::Conflict(Reason::AlreadyExists),
            StorageFailure::ForeignKeyViolation => ServiceErr::Conflict(Reason::DoesNotExist),
            StorageFailure::Other => ServiceErr::TransientInfrastructureFailure(
                Infrastructure::Storage,
            ),
        }
    }

    /// Converts a failure of the storage layer, once, where it is observed.
    pub fn from_diesel(e: &diesel::result::Error) -> (r: ServiceErr)
        ensures
            r == from_storage_spec(storage_kind(*e)),
    {
        ServiceErr::from_storage(storage_failure_of(e))
    }

    /// A connection pool failure is one of infrastructure.
    pub fn from_pool(_e: r2d2::Error) -> (r: ServiceErr)
        ensures
            r == ServiceErr::TransientInfrastructureFailure(Infrastructure::ConnectionPool),
    {
        ServiceErr::TransientInfrastructureFailure(Infrastructure::ConnectionPool)
    }

    /// The worker pool went away before it delivered a result.
    pub fn worker_pool_gone() -> (r: ServiceErr)
        ensures
            r == ServiceErr::TransientInfrastructureFailure(Infrastructure::WorkerPool),
    {
        ServiceErr::TransientInfrastructureFailure(Infrastructure::WorkerPool)
    }
}

} // verus!
