use classroom_auth::auth::{
    admit_claims, admit_renewal, authenticate, authenticate_renewal, bearer_header, renew_access_token,
    require_service_caller,
};
use classroom_auth::error::{Reason, ServiceErr};
use classroom_auth::ids::Id;
use classroom_auth::token::{
    check_claims, issue_access_token, issue_credentials, issue_credentials_now, issue_refresh_token,
    validate_token, validate_token_now,
    Claims, KeyMaterial, ACCESS_TOKEN_LIFETIME, REFRESH_TOKEN_LIFETIME,
};

const NOW: i64 = 1_600_000_000;

fn key() -> KeyMaterial {
    KeyMaterial::new(b"a-test-secret".to_vec())
}

fn subject() -> Id {
    Id { bits: 0x0123_4567_89ab_cdef_0123_4567_89ab_cdef }
}

#[test]
fn access_token_validates_to_its_subject() {
    let (token, expires) = issue_access_token(subject(), NOW, &key());
    assert_eq!(expires, NOW + ACCESS_TOKEN_LIFETIME);
    let claims = validate_token(&token, &key(), NOW).unwrap();
    assert_eq!(claims, Claims { subject: subject(), expires_at: expires, is_refresh: false });
}

#[test]
fn token_is_not_its_input() {
    let (token, _) = issue_access_token(subject(), NOW, &key());
    assert_eq!(token.split('.').count(), 3);
    assert!(!token.contains("a-test-secret"));
}

#[test]
fn token_expiry_boundary() {
    let (token, expires) = issue_access_token(subject(), NOW, &key());
    assert!(validate_token(&token, &key(), expires - 1).is_ok());
    assert!(validate_token(&token, &key(), expires).is_ok());
    assert_eq!(
        validate_token(&token, &key(), expires + 1),
        Err(ServiceErr::Unauthorized(Reason::TokenExpired))
    );
}

#[test]
fn token_under_other_secret_is_invalid() {
    let (token, _) = issue_access_token(subject(), NOW, &key());
    let other = KeyMaterial::new(b"another-secret".to_vec());
    assert_eq!(
        validate_token(&token, &other, NOW),
        Err(ServiceErr::Unauthorized(Reason::InvalidToken))
    );
}

#[test]
fn garbage_token_is_invalid() {
    assert_eq!(
        validate_token("not.a.token", &key(), NOW),
        Err(ServiceErr::Unauthorized(Reason::InvalidToken))
    );
    assert_eq!(validate_token("", &key(), NOW), Err(ServiceErr::Unauthorized(Reason::InvalidToken)));
}

#[test]
fn refresh_token_is_marked() {
    let token = issue_refresh_token(subject(), NOW, &key());
    let claims = validate_token(&token, &key(), NOW).unwrap();
    assert!(claims.is_refresh);
    assert_eq!(claims.expires_at, NOW + REFRESH_TOKEN_LIFETIME);
}

#[test]
fn credentials_pair() {
    let pair = issue_credentials(subject(), NOW, &key());
    assert_eq!(pair.expires_at, NOW + ACCESS_TOKEN_LIFETIME);
    assert!(!validate_token(&pair.access, &key(), NOW).unwrap().is_refresh);
    assert!(validate_token(&pair.refresh, &key(), NOW).unwrap().is_refresh);
}

#[test]
fn authenticate_accepts_access_token() {
    let (token, expires) = issue_access_token(subject(), NOW, &key());
    let header = format!("Bearer {}", token);
    assert_eq!(
        authenticate(Some(&header), &key(), NOW),
        Ok(Claims { subject: subject(), expires_at: expires, is_refresh: false })
    );
}

#[test]
fn authenticate_refuses_refresh_token() {
    let token = issue_refresh_token(subject(), NOW, &key());
    let header = format!("Bearer {}", token);
    assert_eq!(
        authenticate(Some(&header), &key(), NOW),
        Err(ServiceErr::Unauthorized(Reason::RefreshTokenNotAllowed))
    );
    let other = KeyMaterial::new(b"another-secret".to_vec());
    assert!(authenticate(Some(&header), &other, NOW).is_err());
}

#[test]
fn authenticate_without_bearer() {
    let none = Err(ServiceErr::Unauthorized(Reason::NoBearerToken));
    assert_eq!(authenticate(None, &key(), NOW), none);
    assert_eq!(authenticate(Some("Basic dXNlcjpwdw=="), &key(), NOW), none);
    assert_eq!(authenticate(Some("Bearer "), &key(), NOW), none);
    assert_eq!(authenticate(Some("bearer abcdefgh"), &key(), NOW), none);
}

#[test]
fn authenticate_expired_token() {
    let (token, expires) = issue_access_token(subject(), NOW, &key());
    let header = format!("Bearer {}", token);
    assert_eq!(
        authenticate(Some(&header), &key(), expires + 1),
        Err(ServiceErr::Unauthorized(Reason::TokenExpired))
    );
}

#[test]
fn admit_claims_outcomes() {
    assert_eq!(admit_claims(None, NOW), Err(ServiceErr::Unauthorized(Reason::InvalidToken)));
    assert_eq!(
        admit_claims(Some((7, NOW, true)), NOW),
        Err(ServiceErr::Unauthorized(Reason::RefreshTokenNotAllowed))
    );
    assert_eq!(
        admit_claims(Some((7, NOW, false)), NOW),
        Ok(Claims { subject: Id { bits: 7 }, expires_at: NOW, is_refresh: false })
    );
    assert_eq!(check_claims(Some((7, NOW, false)), NOW + 1), Err(ServiceErr::Unauthorized(Reason::TokenExpired)));
}

#[test]
fn service_caller_only() {
    let service = Claims { subject: Id::nil(), expires_at: NOW, is_refresh: false };
    let user = Claims { subject: subject(), expires_at: NOW, is_refresh: false };
    assert_eq!(require_service_caller(&service), Ok(()));
    assert_eq!(require_service_caller(&user), Err(ServiceErr::NotFound));
}

#[test]
fn bearer_header_round_trip() {
    let (token, expires) = issue_access_token(subject(), NOW, &key());
    let header = bearer_header(&token);
    assert_eq!(header, format!("Bearer {}", token));
    assert_eq!(
        authenticate(Some(&header), &key(), NOW),
        Ok(Claims { subject: subject(), expires_at: expires, is_refresh: false })
    );
}

#[test]
fn issued_tokens_are_header_safe() {
    let pair = issue_credentials(subject(), NOW, &key());
    for t in [&pair.access, &pair.refresh] {
        assert!(!t.is_empty());
        assert!(t.chars().all(|c| c.is_ascii_alphanumeric() || c == '-' || c == '_' || c == '.'));
    }
    assert_ne!(pair.access, pair.refresh);
}

#[test]
fn renewal_needs_refresh_token() {
    let refresh = issue_refresh_token(subject(), NOW, &key());
    let (access, _) = issue_access_token(subject(), NOW, &key());
    let claims = authenticate_renewal(Some(&bearer_header(&refresh)), &key(), NOW).unwrap();
    assert!(claims.is_refresh);
    assert_eq!(claims.subject, subject());
    assert_eq!(
        authenticate_renewal(Some(&bearer_header(&access)), &key(), NOW),
        Err(ServiceErr::Unauthorized(Reason::AccessTokenNotAllowed))
    );
    assert_eq!(authenticate_renewal(None, &key(), NOW), Err(ServiceErr::Unauthorized(Reason::NoBearerToken)));
    assert_eq!(
        admit_renewal(Some((7, NOW, false)), NOW),
        Err(ServiceErr::Unauthorized(Reason::AccessTokenNotAllowed))
    );
    assert!(admit_renewal(Some((7, NOW, true)), NOW).is_ok());
}

#[test]
fn renewal_issues_new_access_token() {
    let refresh = issue_refresh_token(subject(), NOW, &key());
    let later = NOW + 100;
    let (token, expires) = renew_access_token(Some(&bearer_header(&refresh)), &key(), later).unwrap();
    assert_eq!(expires, later + ACCESS_TOKEN_LIFETIME);
    let claims = validate_token(&token, &key(), later).unwrap();
    assert_eq!(claims, Claims { subject: subject(), expires_at: expires, is_refresh: false });
    let (access, _) = issue_access_token(subject(), NOW, &key());
    assert_eq!(
        renew_access_token(Some(&bearer_header(&access)), &key(), later),
        Err(ServiceErr::Unauthorized(Reason::AccessTokenNotAllowed))
    );
}

#[test]
fn clock_based_issuance() {
    let pair = issue_credentials_now(subject(), &key()).unwrap();
    let claims = validate_token_now(&pair.access, &key()).unwrap();
    assert_eq!(claims.subject, subject());
    assert_eq!(claims.expires_at, pair.expires_at);
}
