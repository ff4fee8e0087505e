use confhub::auth::admin_jwt::{AdminClaims, TokenError, SESSION_DAYS};
use confhub::auth::admin_login::AdminLoginGuard;
use confhub::auth::pwd::{new_password, verify_password};
use confhub::database::models::admin::Admin;
use confhub::http::{DbError, Outcome, Status};
use confhub::time::{MAX_TIMESTAMP, MIN_TIMESTAMP};

fn claims(exp: usize) -> AdminClaims {
    AdminClaims { exp, id: -5, superuser: true, session_version: 2 }
}

#[test]
fn claims_json_is_compact_in_field_order() {
    assert_eq!(claims(123).to_json(), r#"{"exp":123,"id":-5,"superuser":true,"session_version":2}"#);
    let c = AdminClaims { exp: 0, id: 7, superuser: false, session_version: -1 };
    assert_eq!(c.to_json(), r#"{"exp":0,"id":7,"superuser":false,"session_version":-1}"#);
}

#[test]
fn token_round_trip() {
    let c = claims(4_000_000_000);
    let token = c.gen_jwt_token(b"top secret");
    assert_eq!(token.split('.').count(), 3);
    assert_eq!(AdminClaims::decode_token(&token, b"top secret"), Ok(c.to_json()));
}

#[test]
fn token_with_other_secret_is_invalid() {
    let token = claims(4_000_000_000).gen_jwt_token(b"top secret");
    assert_eq!(AdminClaims::decode_token(&token, b"other secret"), Err(TokenError::Invalid));
}

#[test]
fn old_token_still_decodes_but_has_expired() {
    let token = claims(1000).gen_jwt_token(b"top secret");
    assert_eq!(AdminClaims::decode_token(&token, b"top secret"), Ok(claims(1000).to_json()));
    assert_eq!(claims(1000).check_expiry(), Err(TokenError::Expired));
    assert_eq!(claims(4_000_000_000).check_expiry(), Ok(claims(4_000_000_000)));
}

#[test]
fn expiry_leeway_is_sixty_seconds() {
    assert_eq!(claims(1000).check_expiry_at(1060), Ok(claims(1000)));
    assert_eq!(claims(1000).check_expiry_at(1061), Err(TokenError::Expired));
    assert_eq!(claims(1000).check_expiry_at(-5), Ok(claims(1000)));
    assert_eq!(claims(usize::MAX).check_expiry_at(i64::MAX), Ok(claims(usize::MAX)));
}

#[test]
fn garbage_token_is_invalid() {
    assert_eq!(AdminClaims::decode_token("not.a.token", b"s"), Err(TokenError::Invalid));
    assert_eq!(AdminClaims::decode_token("not-a-jwt", b"secret"), Err(TokenError::Invalid));
    assert_eq!(AdminClaims::decode_token("", b"s"), Err(TokenError::Invalid));
    assert_eq!(AdminClaims::decode_token("a.b.c.d", b"s"), Err(TokenError::Invalid));
}

#[test]
fn token_has_the_hs256_header_and_three_parts() {
    let token = claims(5).gen_jwt_token(b"k");
    assert!(token.starts_with("eyJ0eXAiOiJKV1QiLCJhbGciOiJIUzI1NiJ9."));
    assert_eq!(token.matches('.').count(), 2);
    assert!(token.chars().all(|c| c.is_ascii_alphanumeric() || c == '-' || c == '_' || c == '.'));
    assert_eq!(token, claims(5).gen_jwt_token(b"k"));
}

#[test]
fn claims_expire_after_session_days() {
    let c = AdminClaims::issued_at(1_700_000_000, 3, false, 9).unwrap();
    assert_eq!(c, AdminClaims { exp: 1_700_000_000 + 86_400 * SESSION_DAYS as usize, id: 3, superuser: false, session_version: 9 });
    assert_eq!(AdminClaims::issued_at(MAX_TIMESTAMP, 3, false, 9), None);
    assert_eq!(AdminClaims::issued_at(MAX_TIMESTAMP - 14 * 86_400, 3, false, 9).map(|c| c.exp), Some(MAX_TIMESTAMP as usize));
    assert_eq!(AdminClaims::issued_at(MAX_TIMESTAMP - 14 * 86_400 + 1, 3, false, 9), None);
    assert_eq!(AdminClaims::issued_at(MIN_TIMESTAMP, 3, false, 9).map(|c| c.exp), Some((MIN_TIMESTAMP + 14 * 86_400) as usize));
}

#[test]
fn new_claims_expire_in_about_two_weeks() {
    let c = AdminClaims::new(1, true, 0).unwrap();
    let now = std::time::SystemTime::now().duration_since(std::time::UNIX_EPOCH).unwrap().as_secs() as usize;
    assert!(c.exp >= now + 14 * 86_400 - 5 && c.exp <= now + 14 * 86_400 + 5);
    assert_eq!((c.id, c.superuser, c.session_version), (1, true, 0));
}

#[test]
fn session_check() {
    let c = claims(10);
    assert!(matches!(AdminClaims::require_claims(None), Err(Status::Unauthorized)));
    assert_eq!(AdminClaims::require_claims(Some(c)), Ok(c));
    assert!(matches!(c.check_session(Ok(2)), Outcome::Success(x) if x == c));
    assert!(matches!(c.check_session(Ok(3)), Outcome::Failure(Status::Unauthorized)));
    assert!(matches!(c.check_session(Err(DbError::Other)), Outcome::Failure(Status::InternalServerError)));
    assert!(matches!(c.check_session(Err(DbError::RowNotFound)), Outcome::Failure(Status::InternalServerError)));
}

#[test]
fn password_round_trip() {
    let hash = new_password("hunter42").unwrap();
    assert!(hash.starts_with("$argon2id$v=19$m=19456,t=2,p=1$"));
    assert!(matches!(verify_password("hunter42", &hash), Ok(true)));
}

#[test]
fn wrong_password_is_refused() {
    let hash = new_password("hunter42").unwrap();
    assert!(matches!(verify_password("hunter43", &hash), Ok(false)));
}

#[test]
fn malformed_hash_is_an_error() {
    let err = verify_password("hunter42", "not a phc string").unwrap_err();
    assert!(!err.message.is_empty());
    assert!(verify_password("x", "").is_err());
    assert!(verify_password("pw", "not-a-hash").is_err());
    assert!(verify_password("pw", "argon2id$v=19$").is_err());
}

#[test]
fn salts_differ_between_hashes() {
    assert_ne!(new_password("same").unwrap(), new_password("same").unwrap());
}

fn admin(hash: String) -> Admin {
    Admin { id: 4, username: "ada".to_string(), password_hash: hash, session_version: 1, superuser: false }
}

#[test]
fn login_steps() {
    assert!(matches!(AdminLoginGuard::credentials(None, Some("p".into())), Err(Status::BadRequest)));
    assert!(matches!(AdminLoginGuard::credentials(Some("u".into()), None), Err(Status::BadRequest)));
    assert!(matches!(AdminLoginGuard::credentials(Some("u".into()), Some("p".into())), Ok((u, p)) if u == "u" && p == "p"));
    assert!(matches!(AdminLoginGuard::lookup(Err(DbError::RowNotFound)), Err(Status::Unauthorized)));
    assert!(matches!(AdminLoginGuard::lookup(Err(DbError::Other)), Err(Status::InternalServerError)));
    assert!(matches!(AdminLoginGuard::lookup(Ok(admin(String::new()))), Ok(a) if a.id == 4));
}

#[test]
fn login_checks_the_password() {
    let hash = new_password("pw").unwrap();
    assert!(matches!(AdminLoginGuard::check_password(admin(hash.clone()), "pw"), Outcome::Success(AdminLoginGuard(a)) if a.id == 4));
    assert!(matches!(AdminLoginGuard::check_password(admin(hash), "wrong"), Outcome::Failure(Status::Unauthorized)));
}

#[test]
fn login_with_broken_hash_is_a_server_error() {
    assert!(matches!(AdminLoginGuard::check_password(admin("garbage".into()), "pw"), Outcome::Failure(Status::InternalServerError)));
}

#[test]
fn hash_uses_a_sixteen_byte_salt() {
    let hash = new_password("").unwrap();
    let salt = hash.split('$').nth(4).unwrap();
    assert_eq!(salt.len(), 22);
    assert!(matches!(salt.chars().last(), Some('A' | 'Q' | 'g' | 'w')));
    assert!(matches!(verify_password("", &hash), Ok(true)));
}
