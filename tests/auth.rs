use auth_service::{
    create_auth_cookie, generate_auth_cookie, generate_auth_token, generate_auth_token_at,
    validate_token, validate_token_at, BannedTokenStore, Email, HashSetBannedTokenStore, SameSite,
    TokenError, JWT_COOKIE_NAME,
};
use chrono::Utc;

const SECRET: &str = "secret654321";

#[test]
fn test_generate_auth_cookie() {
    let email = Email::parse("test@example.com".to_string()).unwrap();

    let cookie = generate_auth_cookie(&email, SECRET).unwrap();

    assert_eq!(cookie.name(), JWT_COOKIE_NAME);
    assert_eq!(cookie.value().split('.').count(), 3);
    assert_eq!(cookie.path(), Some("/"));
    assert_eq!(cookie.http_only(), Some(true));
    assert_eq!(cookie.same_site(), Some(SameSite::Lax));
}

#[test]
fn test_create_auth_cookie() {
    let token = "test_token".to_owned();

    let cookie = create_auth_cookie(token.clone());

    assert_eq!(cookie.name(), JWT_COOKIE_NAME);
    assert_eq!(cookie.value(), token);
    assert_eq!(cookie.path(), Some("/"));
    assert_eq!(cookie.http_only(), Some(true));
    assert_eq!(cookie.same_site(), Some(SameSite::Lax));
}

#[test]
fn test_generate_auth_token() {
    let email = Email::parse("test@example.com".to_string()).unwrap();

    let result = generate_auth_token(&email, SECRET).unwrap();

    assert_eq!(result.split('.').count(), 3);
}

#[test]
fn test_validate_token_with_valid_token() {
    let email = Email::parse("test@example.com".to_string()).unwrap();
    let token = generate_auth_token(&email, SECRET).unwrap();
    let banned_token_store = HashSetBannedTokenStore::default();

    let result = validate_token(&token, &banned_token_store, SECRET).unwrap();

    let exp = Utc::now()
        .checked_add_signed(chrono::Duration::try_minutes(9).expect("valid duration"))
        .expect("valid timestamp")
        .timestamp();

    assert_eq!(result.sub, "test@example.com");
    assert!(result.exp > exp as u64);
}

#[test]
fn test_validate_token_with_invalid_token() {
    let token = "invalid_token".to_owned();
    let banned_token_store = HashSetBannedTokenStore::default();

    let result = validate_token(&token, &banned_token_store, SECRET);

    assert!(result.is_err());
}

#[test]
fn token_issued_at_a_time_expires_ten_minutes_later() {
    let email = Email::parse("a@x.com".to_string()).unwrap();
    let now: i64 = 1_700_000_000;
    let token = generate_auth_token_at(&email, SECRET, now).unwrap();
    let store = HashSetBannedTokenStore::new();
    let claims = validate_token_at(&token, &store, SECRET, now).unwrap();
    assert_eq!(claims.sub, "a@x.com");
    assert_eq!(claims.exp, 1_700_000_600);
    // still accepted within the leeway, rejected after it
    assert!(validate_token_at(&token, &store, SECRET, now + 660).is_ok());
    assert!(matches!(validate_token_at(&token, &store, SECRET, now + 661), Err(TokenError::Expired)));
}

#[test]
fn revocation_is_checked_before_signature_and_expiry() {
    let email = Email::parse("a@x.com".to_string()).unwrap();
    let now: i64 = 1_700_000_000;
    let token = generate_auth_token_at(&email, SECRET, now).unwrap();
    let mut store = HashSetBannedTokenStore::new();
    store.add_banned_token(token.clone()).unwrap();
    assert!(matches!(validate_token_at(&token, &store, SECRET, now), Err(TokenError::Revoked)));
    assert!(matches!(validate_token_at(&token, &store, SECRET, now + 10_000), Err(TokenError::Revoked)));
    store.add_banned_token("garbage".to_string()).unwrap();
    assert!(matches!(validate_token_at("garbage", &store, SECRET, now), Err(TokenError::Revoked)));
}

#[test]
fn token_signed_with_another_secret_is_malformed() {
    let email = Email::parse("a@x.com".to_string()).unwrap();
    let now: i64 = 1_700_000_000;
    let token = generate_auth_token_at(&email, "other-secret", now).unwrap();
    let store = HashSetBannedTokenStore::new();
    assert!(matches!(validate_token_at(&token, &store, SECRET, now), Err(TokenError::Malformed)));
    assert!(matches!(validate_token_at("a.b.c", &store, SECRET, now), Err(TokenError::Malformed)));
}

#[test]
fn token_cannot_be_issued_before_the_epoch_or_past_the_range() {
    let email = Email::parse("a@x.com".to_string()).unwrap();
    assert!(matches!(generate_auth_token_at(&email, SECRET, -601), Err(TokenError::Unexpected)));
    assert!(matches!(generate_auth_token_at(&email, SECRET, i64::MAX - 599), Err(TokenError::Unexpected)));
    assert!(generate_auth_token_at(&email, SECRET, -600).is_ok());
}

#[test]
fn token_answer_follows_the_revocation_lookup() {
    use_token_answer();
}

fn use_token_answer() {
    let email = Email::parse("a@x.com".to_string()).unwrap();
    let now: i64 = 1_700_000_000;
    let token = generate_auth_token_at(&email, SECRET, now).unwrap();
    let failed = auth_service::auth::token_answer(
        Err(auth_service::BannedTokenStoreError::UnexpectedError("down".to_string())),
        &token,
        SECRET,
        now,
    );
    assert!(matches!(failed, Err(TokenError::Unexpected)));
    assert!(matches!(auth_service::auth::token_answer(Ok(true), &token, SECRET, now), Err(TokenError::Revoked)));
    let ok = auth_service::auth::token_answer(Ok(false), &token, SECRET, now).unwrap();
    assert_eq!(ok.sub, "a@x.com");
    assert!(matches!(auth_service::auth::token_answer(Ok(false), &token, SECRET, now + 661), Err(TokenError::Expired)));
}
