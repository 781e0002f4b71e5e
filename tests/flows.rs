use auth_service::app_service::{get_auth_address, protected_response, CERTIFICATE_IMAGE_URL};
use auth_service::email_client::relay_message_text;
use auth_service::password_hash::{compute_password_hash, user_from_row, verify_password_hash};
use auth_service::redis_banned_token_store;
use auth_service::EmailClient;
use auth_service::redis_two_fa_code_store::{self, decode_code_entry, encode_code_entry};
use auth_service::{
    login, login_with, logout, logout_at, signup, validate_credentials, verify_2fa, verify_2fa_at,
    verify_token, verify_token_at, AuthAPIError, Email, HashMapTwoFACodeStore, HashMapUserStore,
    HashSetBannedTokenStore, LoginAttemptId, LoginResponse, MockEmailClient, Password, TwoFACode,
    TwoFACodeStore, TwoFACodeStoreError, UserStore, UserStoreError,
};

const SECRET: &str = "secret654321";

fn email(raw: &str) -> Email {
    Email::parse(raw.to_string()).unwrap()
}

#[test]
fn validate_credentials_checks_shape() {
    assert_eq!(validate_credentials("a@x.com", "password123"), Ok(()));
    assert_eq!(validate_credentials("", "password123"), Err(AuthAPIError::InvalidCredentials));
    assert_eq!(validate_credentials("ax.com", "password123"), Err(AuthAPIError::InvalidCredentials));
    assert_eq!(validate_credentials("a@x.com", "short"), Err(AuthAPIError::InvalidCredentials));
}

#[test]
fn signup_then_get_user_and_duplicate_signup() {
    let mut users = HashMapUserStore::new();
    let created = signup(&mut users, "a@x.com".to_string(), "password123".to_string(), true).unwrap();
    assert_eq!(created.message, "User created successfully");
    let user = users.get_user(&email("a@x.com")).unwrap();
    assert_eq!(user.email.as_ref(), "a@x.com");
    assert!(user.requires_2fa);
    let again = signup(&mut users, "a@x.com".to_string(), "password123".to_string(), true);
    assert!(matches!(again, Err(AuthAPIError::UserAlreadyExists)));
}

#[test]
fn signup_rejects_invalid_input() {
    let mut users = HashMapUserStore::new();
    for (e, p) in [("", "password123"), ("ax.com", "password123"), ("a@x.com", "1234567"), ("@domain.com", "password123")] {
        let r = signup(&mut users, e.to_string(), p.to_string(), false);
        assert!(matches!(r, Err(AuthAPIError::InvalidCredentials)), "input {} {}", e, p);
    }
    assert!(users.get_user(&email("a@x.com")).is_err());
}

#[test]
fn login_without_2fa_issues_session_cookie() {
    let mut users = HashMapUserStore::new();
    let mut codes = HashMapTwoFACodeStore::new();
    let banned = HashSetBannedTokenStore::new();
    signup(&mut users, "a@x.com".to_string(), "password123".to_string(), false).unwrap();
    let now: i64 = 1_700_000_000;
    let out = login_with(
        &users,
        &mut codes,
        &mut MockEmailClient::new(),
        SECRET,
        "a@x.com".to_string(),
        "password123".to_string(),
        LoginAttemptId::default(),
        TwoFACode::default(),
        now,
    )
    .unwrap();
    assert!(matches!(out.response, LoginResponse::RegularAuth));
    let cookie = out.cookie.unwrap();
    assert_eq!(cookie.name(), "jwt");
    let claims = auth_service::validate_token_at(cookie.value(), &banned, SECRET, now).unwrap();
    assert_eq!(claims.sub, "a@x.com");
    assert_eq!(claims.exp, 1_700_000_600);
    assert!(codes.get_code(&email("a@x.com")).is_err());
}

#[test]
fn login_rejects_bad_credentials_uniformly() {
    let mut users = HashMapUserStore::new();
    let mut codes = HashMapTwoFACodeStore::new();
    signup(&mut users, "a@x.com".to_string(), "password123".to_string(), false).unwrap();
    let wrong = login(&users, &mut codes, &mut MockEmailClient::new(), SECRET, "a@x.com".to_string(), "password999".to_string());
    let unknown = login(&users, &mut codes, &mut MockEmailClient::new(), SECRET, "b@x.com".to_string(), "password123".to_string());
    assert!(matches!(wrong, Err(AuthAPIError::IncorrectCredentials)));
    assert!(matches!(unknown, Err(AuthAPIError::IncorrectCredentials)));
    let invalid = login(&users, &mut codes, &mut MockEmailClient::new(), SECRET, "a@x.com".to_string(), "short".to_string());
    assert!(matches!(invalid, Err(AuthAPIError::InvalidCredentials)));
}

#[test]
fn login_with_2fa_returns_the_stored_attempt_id() {
    let mut users = HashMapUserStore::new();
    let mut codes = HashMapTwoFACodeStore::new();
    signup(&mut users, "a@x.com".to_string(), "password123".to_string(), true).unwrap();
    let out = login(&users, &mut codes, &mut MockEmailClient::new(), SECRET, "a@x.com".to_string(), "password123".to_string()).unwrap();
    assert!(out.cookie.is_none());
    let body = match out.response {
        LoginResponse::TwoFactorAuth(body) => body,
        LoginResponse::RegularAuth => panic!("expected a challenge"),
    };
    assert_eq!(body.message, "2FA required");
    let (stored_id, stored_code) = codes.get_code(&email("a@x.com")).unwrap();
    assert_eq!(body.login_attempt_id, stored_id.as_ref());
    assert_eq!(stored_code.as_ref().len(), 6);
}

fn start_challenge(users: &HashMapUserStore, codes: &mut HashMapTwoFACodeStore, id: &str, code: &str) {
    let out = login_with(
        users,
        codes,
        &mut MockEmailClient::new(),
        SECRET,
        "a@x.com".to_string(),
        "password123".to_string(),
        LoginAttemptId::parse(id).unwrap(),
        TwoFACode::parse(code).unwrap(),
        1_700_000_000,
    )
    .unwrap();
    assert!(matches!(out.response, LoginResponse::TwoFactorAuth(_)));
}

const FIRST_ID: &str = "123e4567-e89b-12d3-a456-426614174000";
const SECOND_ID: &str = "67e55044-10b1-426f-9247-bb680e5fe0c8";

#[test]
fn second_login_invalidates_first_challenge() {
    let mut users = HashMapUserStore::new();
    let mut codes = HashMapTwoFACodeStore::new();
    signup(&mut users, "a@x.com".to_string(), "password123".to_string(), true).unwrap();
    start_challenge(&users, &mut codes, FIRST_ID, "111111");
    start_challenge(&users, &mut codes, SECOND_ID, "222222");
    let first = verify_2fa_at(&mut codes, SECRET, "a@x.com".to_string(), FIRST_ID.to_string(), "111111".to_string(), 1_700_000_000);
    assert!(matches!(first, Err(AuthAPIError::IncorrectCredentials)));
    let second = verify_2fa_at(&mut codes, SECRET, "a@x.com".to_string(), SECOND_ID.to_string(), "222222".to_string(), 1_700_000_000);
    assert!(second.is_ok());
}

#[test]
fn verify_2fa_succeeds_exactly_once() {
    let mut users = HashMapUserStore::new();
    let mut codes = HashMapTwoFACodeStore::new();
    let banned = HashSetBannedTokenStore::new();
    signup(&mut users, "a@x.com".to_string(), "password123".to_string(), true).unwrap();
    start_challenge(&users, &mut codes, FIRST_ID, "012345");
    let cookie = verify_2fa(&mut codes, SECRET, "a@x.com".to_string(), FIRST_ID.to_string(), "012345".to_string()).unwrap();
    assert_eq!(cookie.name(), "jwt");
    assert_eq!(verify_token(&banned, SECRET, cookie.value()), Ok(()));
    let again = verify_2fa(&mut codes, SECRET, "a@x.com".to_string(), FIRST_ID.to_string(), "012345".to_string());
    assert!(matches!(again, Err(AuthAPIError::IncorrectCredentials)));
}

#[test]
fn wrong_code_keeps_challenge_pending() {
    let mut users = HashMapUserStore::new();
    let mut codes = HashMapTwoFACodeStore::new();
    signup(&mut users, "a@x.com".to_string(), "password123".to_string(), true).unwrap();
    start_challenge(&users, &mut codes, FIRST_ID, "111111");
    let wrong = verify_2fa(&mut codes, SECRET, "a@x.com".to_string(), FIRST_ID.to_string(), "999999".to_string());
    assert!(matches!(wrong, Err(AuthAPIError::IncorrectCredentials)));
    let other_address = verify_2fa(&mut codes, SECRET, "b@x.com".to_string(), FIRST_ID.to_string(), "111111".to_string());
    assert!(matches!(other_address, Err(AuthAPIError::IncorrectCredentials)));
    let right = verify_2fa(&mut codes, SECRET, "a@x.com".to_string(), FIRST_ID.to_string(), "111111".to_string());
    assert!(right.is_ok());
}

#[test]
fn verify_2fa_rejects_malformed_input() {
    let mut codes = HashMapTwoFACodeStore::new();
    let cases = [
        ("abc", FIRST_ID, "123456"),
        ("user@example.com", FIRST_ID, "12"),
        ("user@example.com", "not-a-uuid", "123456"),
    ];
    for (e, id, code) in cases {
        let r = verify_2fa(&mut codes, SECRET, e.to_string(), id.to_string(), code.to_string());
        assert!(matches!(r, Err(AuthAPIError::InvalidCredentials)));
    }
}

#[test]
fn logout_revokes_the_token() {
    let mut users = HashMapUserStore::new();
    let mut codes = HashMapTwoFACodeStore::new();
    let mut banned = HashSetBannedTokenStore::new();
    signup(&mut users, "a@x.com".to_string(), "password123".to_string(), false).unwrap();
    let out = login(&users, &mut codes, &mut MockEmailClient::new(), SECRET, "a@x.com".to_string(), "password123".to_string()).unwrap();
    let token = out.cookie.unwrap().value().to_string();
    assert_eq!(logout(&mut banned, SECRET, Some(token.clone())), Ok(()));
    assert_eq!(verify_token(&banned, SECRET, &token), Err(AuthAPIError::InvalidToken));
    assert_eq!(logout(&mut banned, SECRET, Some(token.clone())), Err(AuthAPIError::InvalidToken));
    assert_eq!(logout(&mut banned, SECRET, None), Err(AuthAPIError::MissingToken));
}

#[test]
fn logout_rejects_invalid_token() {
    let mut banned = HashSetBannedTokenStore::new();
    assert_eq!(logout_at(&mut banned, SECRET, Some("invalid".to_string()), 0), Err(AuthAPIError::InvalidToken));
    assert_eq!(verify_token_at(&banned, SECRET, "invalid", 0), Err(AuthAPIError::InvalidToken));
}

#[test]
fn signup_login_verify_logout_scenario() {
    let mut users = HashMapUserStore::new();
    let mut codes = HashMapTwoFACodeStore::new();
    let mut banned = HashSetBannedTokenStore::new();
    assert!(signup(&mut users, "a@x.com".to_string(), "password123".to_string(), false).is_ok());
    let out = login(&users, &mut codes, &mut MockEmailClient::new(), SECRET, "a@x.com".to_string(), "password123".to_string()).unwrap();
    assert!(matches!(out.response, LoginResponse::RegularAuth));
    let cookie = out.cookie.unwrap().value().to_string();
    assert_eq!(verify_token(&banned, SECRET, &cookie), Ok(()));
    assert_eq!(logout(&mut banned, SECRET, Some(cookie.clone())), Ok(()));
    let after = verify_token(&banned, SECRET, &cookie);
    assert_eq!(after, Err(AuthAPIError::InvalidToken));
    assert_eq!(after.unwrap_err().status_code(), 401);
}

#[test]
fn error_statuses_and_messages() {
    let cases = [
        (AuthAPIError::UserAlreadyExists, 409, "User already exists"),
        (AuthAPIError::InvalidCredentials, 400, "Invalid credentials"),
        (AuthAPIError::IncorrectCredentials, 401, "Incorrect credentials"),
        (AuthAPIError::MissingToken, 400, "Missing token"),
        (AuthAPIError::InvalidToken, 401, "Invalid token"),
        (AuthAPIError::VerificationFailed, 402, "Verification failed"),
        (AuthAPIError::UnexpectedError, 500, "Unexpected error"),
    ];
    for (e, status, message) in cases {
        let (s, body) = e.into_response();
        assert_eq!(s, status);
        assert_eq!(body.error, message);
    }
}

#[test]
fn redis_keys_carry_their_prefix() {
    assert_eq!(redis_banned_token_store::get_key("abc"), "banned_token:abc");
    assert_eq!(redis_two_fa_code_store::get_key(&email("a@x.com")), "two_fa_code:a@x.com");
}

#[test]
fn code_entry_round_trips() {
    let id = LoginAttemptId::parse(FIRST_ID).unwrap();
    let code = TwoFACode::parse("012345").unwrap();
    let text = encode_code_entry(&id, &code).unwrap();
    assert_eq!(text, format!("[\"{}\",\"012345\"]", FIRST_ID));
    let (id2, code2) = decode_code_entry(&text).unwrap();
    assert!(id2 == id);
    assert!(code2 == code);
    assert!(matches!(decode_code_entry("not json"), Err(TwoFACodeStoreError::UnexpectedError(_))));
    assert!(decode_code_entry("[\"not-a-uuid\",\"123456\"]").is_err());
    assert!(decode_code_entry(&format!("[\"{}\",\"12345\"]", FIRST_ID)).is_err());
}

#[test]
fn stored_hash_with_huge_costs_matches_nothing() {
    let password = Password::parse("password123".to_string()).unwrap();
    let hash = "$argon2id$v=19$m=4294967295,t=2,p=536870912$c2FsdHNhbHQ$aGFzaGhhc2hoYXNoaGFzaA";
    assert_eq!(verify_password_hash(hash, &password), Err(UserStoreError::InvalidCredentials));
}

#[test]
fn login_sends_the_stored_code_to_the_user() {
    let mut users = HashMapUserStore::new();
    let mut codes = HashMapTwoFACodeStore::new();
    let mut notifier = MockEmailClient::new();
    signup(&mut users, "a@x.com".to_string(), "password123".to_string(), true).unwrap();
    let out = login(&users, &mut codes, &mut notifier, SECRET, "a@x.com".to_string(), "password123".to_string()).unwrap();
    assert!(matches!(out.response, LoginResponse::TwoFactorAuth(_)));
    assert!(notifier.send_email(&email("a@x.com"), "s", "c").is_ok());
}

#[test]
fn password_hash_verifies_only_its_password() {
    let password = Password::parse("password123".to_string()).unwrap();
    let other = Password::parse("password456".to_string()).unwrap();
    let hash = compute_password_hash(&password).unwrap();
    assert!(hash.starts_with("$argon2id$v=19$m=15000,t=2,p=1$"));
    assert_ne!(compute_password_hash(&password).unwrap(), hash);
    assert_ne!(hash, "password123");
    assert_eq!(verify_password_hash(&hash, &password), Ok(()));
    assert_eq!(verify_password_hash(&hash, &other), Err(UserStoreError::InvalidCredentials));
    assert_eq!(verify_password_hash("not a hash", &password), Err(UserStoreError::InvalidCredentials));
}

#[test]
fn user_from_row_checks_the_row() {
    let user = user_from_row("a@x.com".to_string(), "$argon2id$stored".to_string(), true).unwrap();
    assert_eq!(user.email.as_ref(), "a@x.com");
    assert!(user.requires_2fa);
    assert!(user_from_row("bad".to_string(), "$argon2id$stored".to_string(), true).is_err());
}

#[test]
fn relay_message_text_layout() {
    let text = relay_message_text(&email("test@example.com"), "Test Subject", "body");
    assert_eq!(text, "Email to: test@example.com\nSubject: Test Subject\n\nbody");
}

#[test]
fn auth_address_by_prefix_and_host() {
    assert_eq!(get_auth_address(None, "", "/logout", false), "http://localhost:3000/logout");
    assert_eq!(get_auth_address(Some("".to_string()), "", "", true), "http://auth-service:3000");
    assert_eq!(get_auth_address(Some("example.com".to_string()), "/app", "/verify-token", true), "https://example.com/auth/verify-token");
}

#[test]
fn protected_route_decisions() {
    assert!(matches!(protected_response(false, Some(200)), Err(401)));
    assert!(matches!(protected_response(true, None), Err(500)));
    assert!(matches!(protected_response(true, Some(401)), Err(401)));
    let granted = protected_response(true, Some(200)).ok().unwrap();
    assert_eq!(granted.img_url, CERTIFICATE_IMAGE_URL);
}
