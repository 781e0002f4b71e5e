//! Authentication session lifecycle: validated credential values, user,
//! revocation and challenge stores, signed session tokens, and the
//! signup / login / two-factor / logout flows built on top of them.
pub mod app_service;
pub mod auth;
pub mod data_stores;
pub mod email;
pub mod email_client;
pub mod entries;
pub mod errors;
pub mod hashmap_two_fa_code_store;
pub mod hashmap_user_store;
pub mod hashset_banned_token_store;
pub mod login_attempt_id;
pub mod password;
pub mod password_hash;
pub mod redis_banned_token_store;
pub mod redis_two_fa_code_store;
pub mod routes;
pub mod two_fa_code;
pub mod user;

pub use auth::{AuthCookie, Claims, SameSite, TokenError, JWT_COOKIE_NAME, TOKEN_TTL_SECONDS};
pub use data_stores::{BannedTokenStore, TwoFACodeStore, UserStore};
pub use email::Email;
pub use email_client::{EmailClient, MockEmailClient};
pub use hashmap_two_fa_code_store::HashMapTwoFACodeStore;
pub use hashmap_user_store::HashMapUserStore;
pub use hashset_banned_token_store::HashSetBannedTokenStore;
pub use login_attempt_id::LoginAttemptId;
pub use password::Password;
pub use two_fa_code::TwoFACode;
pub use user::User;
pub use app_service::{get_auth_address, protected_response, ProtectedRouteResponse};
pub use auth::{
    create_auth_cookie, generate_auth_cookie, generate_auth_cookie_at, generate_auth_token,
    generate_auth_token_at, validate_token, validate_token_at,
};
pub use routes::{
    login, login_with, logout, logout_at, signup, validate_credentials, verify_2fa, verify_2fa_at,
    verify_token, verify_token_at, LoginOutcome, LoginRequest, LoginResponse, SignupRequest,
    SignupResponse, TwoFactorAuthResponse, Verify2FARequest, VerifyTokenRequest,
};
pub use errors::{
    AuthAPIError, BannedTokenStoreError, ErrorResponse, ParseError, TwoFACodeStoreError,
    UserStoreError,
};
