//! Issuing and validating signed, time-bounded credentials.
//!
//! A token carries the subject's identifier, the second at which it expires
//! and whether it is a refresh token. Expiry is decided here against an
//! explicit current time, not inside the signature check.

use crate::error::{Reason, ServiceErr};
use crate::ids::Id;
use vstd::prelude::*;

verus! {

/// Lifetime of an access token, in seconds.
pub const ACCESS_TOKEN_LIFETIME: i64 = 3600;

/// Lifetime of a refresh token, in seconds.
pub const REFRESH_TOKEN_LIFETIME: i64 = 2592000;

/// The identity and metadata carried by a verified token.
#[derive(Debug, Clone, Copy, PartialEq, Eq, Structural)]
pub struct Claims {
    pub subject: Id,
    /// Unix time, in seconds, after which the token is no longer accepted.
    pub expires_at: i64,
    /// A refresh token only serves to obtain a new access token.
    pub is_refresh: bool,
}

/// The secret that signs and verifies tokens; loaded once and shared.
#[derive(Debug, Clone)]
pub struct KeyMaterial {
    pub secret: Vec<u8>,
}

/// An access token and a refresh token, issued together.
#[derive(Debug, Clone, PartialEq, Eq)]
pub struct CredentialPair {
    pub access: String,
    pub refresh: String,
    /// When the access token expires.
    pub expires_at: i64,
}

/// The token that `jsonwebtoken::encode` signs (HS256) for the given claims
/// and secret.
pub uninterp spec fn signed_token(subject: u128, expires_at: i64, is_refresh: bool, secret: Seq<u8>) -> Seq<char>;

/// The claims that `jsonwebtoken::decode` (HS256, expiry not checked) reads
/// from a token under a secret, if its signature and shape are valid.
pub uninterp spec fn token_claims(token: Seq<char>, secret: Seq<u8>) -> Option<(u128, i64, bool)>;

/// A character of a compact token: base64url or the dot between parts.
pub open spec fn token_char(c: char) -> bool {
    ('a' <= c && c <= 'z') || ('A' <= c && c <= 'Z') || ('0' <= c && c <= '9') || c == '-' || c == '_'
        || c == '.'
}

/// A non-empty text of token characters.
pub open spec fn token_text(t: Seq<char>) -> bool {
    t.len() > 0 && forall|i: int| 0 <= i < t.len() ==> token_char(#[trigger] t[i])
}

/// Relies on `jsonwebtoken::encode` with the default header (HS256) and an
/// HMAC key: it cannot fail, the token is a function of the claims and the
/// secret, and it is three base64url parts joined by dots. The claims are
/// the JSON object `{"uid", "exp", "refresh"}`.
#[verifier::external_body]
fn sign_token(subject: u128, expires_at: i64, is_refresh: bool, secret: &[u8]) -> (r: Result<String, String>)
    ensures
        r is Ok,
        r matches Ok(t) ==> t@ == signed_token(subject, expires_at, is_refresh, secret@) && token_text(t@),
{
    let mut claims = serde_json::Map::new();
    claims.insert("uid".to_string(), uuid::Uuid::from_u128(subject).to_string().into());
    claims.insert("exp".to_string(), expires_at.into());
    claims.insert("refresh".to_string(), is_refresh.into());
    let key = jsonwebtoken::EncodingKey::from_secret(secret);
    jsonwebtoken::encode(&jsonwebtoken::Header::default(), &claims, &key).map_err(|e| e.to_string())
}

/// Relies on `jsonwebtoken::decode` with HS256 and `validate_exp` off: the
/// outcome depends on the token and the secret alone, and a token that
/// `jsonwebtoken::encode` signed under the same secret reads back as the
/// claims it was signed with.
#[verifier::external_body]
fn read_token(token: &str, secret: &[u8]) -> (r: Option<(u128, i64, bool)>)
    ensures
        r == token_claims(token@, secret@),
        forall|s: u128, e: i64, f: bool|
            token@ == #[trigger] signed_token(s, e, f, secret@) ==> r == Some((s, e, f)),
{
    let validation = jsonwebtoken::Validation { validate_exp: false, ..Default::default() };
    let key = jsonwebtoken::DecodingKey::from_secret(secret);
    let data = jsonwebtoken::decode::<serde_json::Map<String, serde_json::Value>>(token, &key, &validation).ok()?;
    let uid = uuid::Uuid::parse_str(data.claims.get("uid")?.as_str()?).ok()?;
    let exp = data.claims.get("exp")?.as_i64()?;
    Some((uid.as_u128(), exp, data.claims.get("refresh")?.as_bool()?))
}

/// Relies on `chrono::Utc::now`: the current Unix time in seconds, which is
/// not before 1970 (chrono panics on a clock set earlier).
#[verifier::external_body]
pub(crate) fn unix_now() -> (r: i64)
    ensures
        r >= 0,
{
    chrono::Utc::now().timestamp()
}

/// What a decoded token yields at time `now`: a token past its expiry is
/// refused, one at or before it is accepted.
pub open spec fn claims_outcome(decoded: Option<(u128, i64, bool)>, now: i64) -> Result<Claims, ServiceErr> {
    match decoded {
        None => Err(ServiceErr::Unauthorized(Reason::InvalidToken)),
        Some((s, e, f)) => if now > e {
            Err(ServiceErr::Unauthorized(Reason::TokenExpired))
        } else {
            Ok(Claims { subject: Id { bits: s }, expires_at: e, is_refresh: f })
        },
    }
}

/// The outcome of validating a token that was signed with the given claims.
pub open spec fn issued_outcome(subject: u128, expires_at: i64, is_refresh: bool, now: i64) -> Result<Claims, ServiceErr> {
    claims_outcome(Some((subject, expires_at, is_refresh)), now)
}

/// A token issued for a subject validates to exactly its claims up to and
/// including its expiry second, and fails as expired one second later.
pub proof fn lemma_issued_token_outcome(subject: u128, expires_at: i64, is_refresh: bool, now: i64)
    ensures
        now <= expires_at ==> issued_outcome(subject, expires_at, is_refresh, now) == Ok::<Claims, ServiceErr>(
            Claims { subject: Id { bits: subject }, expires_at, is_refresh },
        ),
        now > expires_at ==> issued_outcome(subject, expires_at, is_refresh, now) == Err::<Claims, ServiceErr>(
            ServiceErr::Unauthorized(Reason::TokenExpired),
        ),
{
}

impl KeyMaterial {
    pub fn new(secret: Vec<u8>) -> (r: KeyMaterial)
        ensures
            r.secret@ == secret@,
    {
        KeyMaterial { secret }
    }
}

/// Decides on the claims read from a token, at time `now`.
pub fn check_claims(decoded: Option<(u128, i64, bool)>, now: i64) -> (r: Result<Claims, ServiceErr>)
    ensures
        r == claims_outcome(decoded, now),
{
    match decoded {
        None => Err(ServiceErr::Unauthorized(Reason::InvalidToken)),
        Some((s, e, f)) => {
            if now > e {
                Err(ServiceErr::Unauthorized(Reason::TokenExpired))
            } else {
                Ok(Claims { subject: Id { bits: s }, expires_at: e, is_refresh: f })
            }
        },
    }
}

/// Verifies a token's signature and expiry at time `now`.
///
/// A token issued for some claims validates, up to and including its expiry
/// second, to exactly those claims; one second later it fails as expired.
pub fn validate_token(token: &str, key: &KeyMaterial, now: i64) -> (r: Result<Claims, ServiceErr>)
    ensures
        r == claims_outcome(token_claims(token@, key.secret@), now),
        forall|s: u128, e: i64, f: bool|
            token@ == #[trigger] signed_token(s, e, f, key.secret@) ==> r == issued_outcome(s, e, f, now),
{
    check_claims(read_token(token, key.secret.as_slice()), now)
}

/// The token that signs the given claims.
fn sign(subject: u128, expires_at: i64, is_refresh: bool, secret: &[u8]) -> (r: String)
    ensures
        r@ == signed_token(subject, expires_at, is_refresh, secret@),
        token_text(r@),
{
    match sign_token(subject, expires_at, is_refresh, secret) {
        Ok(t) => t,
        Err(_) => {
            proof {
                assert(false);
            }
            String::new()
        },
    }
}

/// Issues a short-lived access token for `subject` at time `now`; returns it
/// with its expiry.
pub fn issue_access_token(subject: Id, now: i64, key: &KeyMaterial) -> (r: (String, i64))
    requires
        now <= i64::MAX - ACCESS_TOKEN_LIFETIME,
    ensures
        r.1 == now + ACCESS_TOKEN_LIFETIME,
        r.0@ == signed_token(subject.bits, r.1, false, key.secret@),
        token_text(r.0@),
{
    let expires_at = now + ACCESS_TOKEN_LIFETIME;
    (sign(subject.bits, expires_at, false, key.secret.as_slice()), expires_at)
}

/// Issues a long-lived refresh token for `subject` at time `now`.
pub fn issue_refresh_token(subject: Id, now: i64, key: &KeyMaterial) -> (r: String)
    requires
        now <= i64::MAX - REFRESH_TOKEN_LIFETIME,
    ensures
        r@ == signed_token(subject.bits, (now + REFRESH_TOKEN_LIFETIME) as i64, true, key.secret@),
        token_text(r@),
{
    sign(subject.bits, now + REFRESH_TOKEN_LIFETIME, true, key.secret.as_slice())
}

/// The pair of tokens issued for `subject` at time `now`.
pub open spec fn issued_pair(p: CredentialPair, subject: u128, now: i64, secret: Seq<u8>) -> bool {
    &&& p.expires_at == now + ACCESS_TOKEN_LIFETIME
    &&& p.access@ == signed_token(subject, p.expires_at, false, secret)
    &&& p.refresh@ == signed_token(subject, (now + REFRESH_TOKEN_LIFETIME) as i64, true, secret)
    &&& token_text(p.access@)
    &&& token_text(p.refresh@)
}

/// Issues the access and refresh tokens handed out at login or registration.
pub fn issue_credentials(subject: Id, now: i64, key: &KeyMaterial) -> (r: CredentialPair)
    requires
        now <= i64::MAX - REFRESH_TOKEN_LIFETIME,
    ensures
        issued_pair(r, subject.bits, now, key.secret@),
{
    let (access, expires_at) = issue_access_token(subject, now, key);
    let refresh = issue_refresh_token(subject, now, key);
    CredentialPair { access, refresh, expires_at }
}

/// What issuing credentials yields at a clock reading: the pair, or an
/// internal failure when the clock is too far ahead for the refresh token's
/// expiry to be written.
pub open spec fn credentials_at(r: Result<CredentialPair, ServiceErr>, subject: u128, now: i64, secret: Seq<u8>) -> bool {
    if now <= i64::MAX - REFRESH_TOKEN_LIFETIME {
        r matches Ok(p) && issued_pair(p, subject, now, secret)
    } else {
        r matches Err(e) && e is Internal
    }
}

/// Issues credentials at the current time of the system clock.
pub fn issue_credentials_now(subject: Id, key: &KeyMaterial) -> (r: Result<CredentialPair, ServiceErr>)
    ensures
        exists|now: i64| now >= 0 && #[trigger] credentials_at(r, subject.bits, now, key.secret@),
{
    let now = unix_now();
    if now > i64::MAX - REFRESH_TOKEN_LIFETIME {
        let r = Err(ServiceErr::Internal(String::from_str("clock out of range")));
        assert(credentials_at(r, subject.bits, now, key.secret@));
        return r;
    }
    let r = Ok(issue_credentials(subject, now, key));
    assert(credentials_at(r, subject.bits, now, key.secret@));
    r
}

/// Validates a token at the current time of the system clock.
pub fn validate_token_now(token: &str, key: &KeyMaterial) -> (r: Result<Claims, ServiceErr>)
    ensures
        exists|now: i64| r == #[trigger] claims_outcome(token_claims(token@, key.secret@), now),
{
    validate_token(token, key, unix_now())
}

} // verus!
