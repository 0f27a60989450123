//! The request authenticator: from an authorization header to the caller's
//! claims.

use crate::error::{Reason, ServiceErr};
use crate::ids::Id;
use crate::token::{
    claims_outcome, issue_access_token, signed_token, token_claims, token_text, unix_now,
    validate_token, Claims, KeyMaterial, ACCESS_TOKEN_LIFETIME,
};
use actix_web_httpauth::headers::authorization::Scheme;
use vstd::prelude::*;

verus! {

/// A character that an HTTP header value may hold as text: visible ASCII
/// or a tab.
pub open spec fn header_text_char(c: char) -> bool {
    (' ' <= c && c <= '~') || c == '\t'
}

/// The credential of a header value of the bearer scheme: the text after
/// `"Bearer "`, which must not be empty.
pub open spec fn bearer_credential(h: Seq<char>) -> Option<Seq<char>> {
    if h.len() >= 8 && (forall|i: int| 0 <= i < h.len() ==> header_text_char(#[trigger] h[i]))
        && h.subrange(0, 7) == seq!['B', 'e', 'a', 'r', 'e', 'r', ' '] {
        Some(h.subrange(7, h.len() as int))
    } else {
        None
    }
}

/// Relies on `HeaderValue::from_str` of actix-web and
/// `Bearer::parse` of actix-web-httpauth: a value of at least eight bytes,
/// all visible ASCII or tabs, whose first space-separated part is `Bearer`,
/// yields the text after that space.
#[verifier::external_body]
fn parse_bearer(header: &str) -> (r: Option<String>)
    ensures
        match bearer_credential(header@) {
            Some(t) => r matches Some(s) && s@ == t,
            None => r is None,
        },
{
    let value = actix_web::http::HeaderValue::from_str(header).ok()?;
    let bearer = actix_web_httpauth::headers::authorization::Bearer::parse(&value).ok()?;
    Some(bearer.token().to_string())
}

pub open spec fn header_view(header: Option<&str>) -> Option<Seq<char>> {
    match header {
        Some(h) => Some(h@),
        None => None,
    }
}

/// Claims read from a token are admitted for ordinary requests when they are
/// valid at `now` and do not belong to a refresh token.
pub open spec fn admission(decoded: Option<(u128, i64, bool)>, now: i64) -> Result<Claims, ServiceErr> {
    match claims_outcome(decoded, now) {
        Ok(c) => if c.is_refresh {
            Err(ServiceErr::Unauthorized(Reason::RefreshTokenNotAllowed))
        } else {
            Ok(c)
        },
        Err(e) => Err(e),
    }
}

/// The claims of the bearer token of a header, valid at `now`.
pub open spec fn bearer_outcome(header: Option<Seq<char>>, secret: Seq<u8>, now: i64) -> Result<Claims, ServiceErr> {
    match header {
        None => Err(ServiceErr::Unauthorized(Reason::NoBearerToken)),
        Some(h) => match bearer_credential(h) {
            None => Err(ServiceErr::Unauthorized(Reason::NoBearerToken)),
            Some(t) => claims_outcome(token_claims(t, secret), now),
        },
    }
}

/// The outcome of authenticating an ordinary request by its authorization
/// header: refresh tokens are refused.
pub open spec fn authentication_outcome(header: Option<Seq<char>>, secret: Seq<u8>, now: i64) -> Result<Claims, ServiceErr> {
    match bearer_outcome(header, secret, now) {
        Ok(c) => if c.is_refresh {
            Err(ServiceErr::Unauthorized(Reason::RefreshTokenNotAllowed))
        } else {
            Ok(c)
        },
        Err(e) => Err(e),
    }
}

/// Claims read from a token are admitted for token renewal when they are
/// valid at `now` and belong to a refresh token.
pub open spec fn renewal_admission(decoded: Option<(u128, i64, bool)>, now: i64) -> Result<Claims, ServiceErr> {
    match claims_outcome(decoded, now) {
        Ok(c) => if c.is_refresh {
            Ok(c)
        } else {
            Err(ServiceErr::Unauthorized(Reason::AccessTokenNotAllowed))
        },
        Err(e) => Err(e),
    }
}

/// The outcome of authenticating a token renewal: only refresh tokens serve.
pub open spec fn renewal_outcome(header: Option<Seq<char>>, secret: Seq<u8>, now: i64) -> Result<Claims, ServiceErr> {
    match bearer_outcome(header, secret, now) {
        Ok(c) => if c.is_refresh {
            Ok(c)
        } else {
            Err(ServiceErr::Unauthorized(Reason::AccessTokenNotAllowed))
        },
        Err(e) => Err(e),
    }
}

/// The header value that carries a token under the bearer scheme.
pub open spec fn bearer_prefix() -> Seq<char> {
    seq!['B', 'e', 'a', 'r', 'e', 'r', ' ']
}

/// A token put after `"Bearer "` is the credential read back from the
/// header.
pub proof fn lemma_bearer_header(t: Seq<char>)
    requires
        token_text(t),
    ensures
        bearer_credential(bearer_prefix() + t) == Some(t),
{
    let h = bearer_prefix() + t;
    assert forall|i: int| 0 <= i < h.len() implies header_text_char(#[trigger] h[i]) by {
        if i >= 7 {
            assert(h[i] == t[i - 7]);
        }
    }
    assert(h.subrange(0, 7) =~= bearer_prefix());
    assert(h.subrange(7, h.len() as int) =~= t);
}

/// The header value that presents a token under the bearer scheme.
pub fn bearer_header(token: &str) -> (r: String)
    ensures
        r@ == bearer_prefix() + token@,
        token_text(token@) ==> bearer_credential(r@) == Some(token@),
{
    let r = String::from_str("Bearer ").concat(token);
    proof {
        reveal_strlit("Bearer ");
        assert("Bearer "@ =~= bearer_prefix());
        if token_text(token@) {
            lemma_bearer_header(token@);
        }
    }
    r
}

/// Reads the bearer token of a header and validates it at `now`.
fn bearer_claims(header: Option<&str>, key: &KeyMaterial, now: i64) -> (r: Result<Claims, ServiceErr>)
    ensures
        r == bearer_outcome(header_view(header), key.secret@, now),
        forall|s: u128, e: i64, f: bool|
            header_view(header) matches Some(h) && bearer_credential(h) == Some(
                #[trigger] signed_token(s, e, f, key.secret@),
            ) ==> r == claims_outcome(Some((s, e, f)), now),
{
    let h = match header {
        Some(h) => h,
        None => return Err(ServiceErr::Unauthorized(Reason::NoBearerToken)),
    };
    let token = match parse_bearer(h) {
        Some(t) => t,
        None => return Err(ServiceErr::Unauthorized(Reason::NoBearerToken)),
    };
    validate_token(token.as_str(), key, now)
}

/// Decides whether claims read from a token admit an ordinary request.
pub fn admit_claims(decoded: Option<(u128, i64, bool)>, now: i64) -> (r: Result<Claims, ServiceErr>)
    ensures
        r == admission(decoded, now),
{
    match crate::token::check_claims(decoded, now) {
        Ok(c) => {
            if c.is_refresh {
                Err(ServiceErr::Unauthorized(Reason::RefreshTokenNotAllowed))
            } else {
                Ok(c)
            }
        },
        Err(e) => Err(e),
    }
}

/// Authenticates a request by its authorization header at time `now`.
///
/// Claims that are returned never belong to a refresh token, and a header
/// that carries a token issued for some claims authenticates as those claims
/// would be admitted.
pub fn authenticate(header: Option<&str>, key: &KeyMaterial, now: i64) -> (r: Result<Claims, ServiceErr>)
    ensures
        r == authentication_outcome(header_view(header), key.secret@, now),
        r matches Ok(c) ==> !c.is_refresh,
        forall|s: u128, e: i64, f: bool|
            header_view(header) matches Some(h) && bearer_credential(h) == Some(
                #[trigger] signed_token(s, e, f, key.secret@),
            ) ==> r == admission(Some((s, e, f)), now),
{
    match bearer_claims(header, key, now) {
        Ok(c) => {
            if c.is_refresh {
                Err(ServiceErr::Unauthorized(Reason::RefreshTokenNotAllowed))
            } else {
                Ok(c)
            }
        },
        Err(e) => Err(e),
    }
}

/// Decides whether claims read from a token admit a token renewal.
pub fn admit_renewal(decoded: Option<(u128, i64, bool)>, now: i64) -> (r: Result<Claims, ServiceErr>)
    ensures
        r == renewal_admission(decoded, now),
{
    match crate::token::check_claims(decoded, now) {
        Ok(c) => {
            if c.is_refresh {
                Ok(c)
            } else {
                Err(ServiceErr::Unauthorized(Reason::AccessTokenNotAllowed))
            }
        },
        Err(e) => Err(e),
    }
}

/// Authenticates a token renewal by its authorization header at time `now`:
/// only a valid refresh token is accepted.
pub fn authenticate_renewal(header: Option<&str>, key: &KeyMaterial, now: i64) -> (r: Result<Claims, ServiceErr>)
    ensures
        r == renewal_outcome(header_view(header), key.secret@, now),
        r matches Ok(c) ==> c.is_refresh,
        forall|s: u128, e: i64, f: bool|
            header_view(header) matches Some(h) && bearer_credential(h) == Some(
                #[trigger] signed_token(s, e, f, key.secret@),
            ) ==> r == renewal_admission(Some((s, e, f)), now),
{
    match bearer_claims(header, key, now) {
        Ok(c) => {
            if c.is_refresh {
                Ok(c)
            } else {
                Err(ServiceErr::Unauthorized(Reason::AccessTokenNotAllowed))
            }
        },
        Err(e) => Err(e),
    }
}

/// Renews the access token of the holder of a refresh token, at time `now`.
pub fn renew_access_token(header: Option<&str>, key: &KeyMaterial, now: i64) -> (r: Result<(String, i64), ServiceErr>)
    requires
        now <= i64::MAX - ACCESS_TOKEN_LIFETIME,
    ensures
        match renewal_outcome(header_view(header), key.secret@, now) {
            Ok(c) => r matches Ok((t, e)) && e == now + ACCESS_TOKEN_LIFETIME && t@ == signed_token(
                c.subject.bits,
                e,
                false,
                key.secret@,
            ),
            Err(err) => r == Err::<(String, i64), ServiceErr>(err),
        },
{
    let claims = authenticate_renewal(header, key, now)?;
    Ok(issue_access_token(claims.subject, now, key))
}

/// Authenticates a request at the current time of the system clock.
pub fn authenticate_now(header: Option<&str>, key: &KeyMaterial) -> (r: Result<Claims, ServiceErr>)
    ensures
        exists|now: i64| r == #[trigger] authentication_outcome(header_view(header), key.secret@, now),
        r matches Ok(c) ==> !c.is_refresh,
{
    authenticate(header, key, unix_now())
}

/// A refresh token never authenticates an ordinary request, whether or not
/// its signature is valid and whatever the time: claims that authenticate
/// never belong to a refresh token, and a header whose token reads as a
/// refresh token is refused.
pub proof fn lemma_refresh_token_refused(header: Option<Seq<char>>, secret: Seq<u8>, now: i64)
    ensures
        authentication_outcome(header, secret, now) matches Ok(c) ==> !c.is_refresh,
        (header matches Some(h) && bearer_credential(h) matches Some(t) && token_claims(t, secret) matches Some(
            d,
        ) && d.2) ==> authentication_outcome(header, secret, now) is Err,
{
}

/// Routes reserved for the internal service answer as if absent to any
/// other caller.
pub fn require_service_caller(claims: &Claims) -> (r: Result<(), ServiceErr>)
    ensures
        r == (if claims.subject == Id::nil_spec() {
            Ok(())
        } else {
            Err(ServiceErr::NotFound)
        }),
{
    if claims.subject.is_nil() {
        Ok(())
    } else {
        Err(ServiceErr::NotFound)
    }
}

} // verus!
