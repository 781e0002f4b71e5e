use vstd::prelude::*;

use crate::auth::{
    claims_outcome, decoded_claims, expiry_for, generate_auth_cookie_at, issuable_at, signed_token, token_outcome,
    unix_now, validate_token_at, AuthCookie, SameSite, TokenError, JWT_COOKIE_NAME,
    TOKEN_LEEWAY_SECONDS,
};
use crate::data_stores::{BannedTokenStore, TwoFACodeStore, UserStore};
use crate::email::{email_grammar_accepts, Email};
use crate::email_client::EmailClient;
use crate::errors::{AuthAPIError, TwoFACodeStoreError, UserStoreError};
use crate::login_attempt_id::{is_v4_text, uuid_text_of, LoginAttemptId};
use crate::password::{byte_len, Password, MIN_PASSWORD_BYTES};
use crate::two_fa_code::{is_six_digits, TwoFACode};
use crate::user::User;
use vstd::string::*;

verus! {

/// A signup request: address, password, and whether logins need a second factor.
pub struct SignupRequest {
    pub email: String,
    pub password: String,
    pub requires_2fa: bool,
}

/// A login request.
pub struct LoginRequest {
    pub email: String,
    pub password: String,
}

/// The answer to a two-factor challenge.
pub struct Verify2FARequest {
    pub email: String,
    pub login_attempt_id: String,
    pub two_fa_code: String,
}

/// A token check request from a downstream service.
pub struct VerifyTokenRequest {
    pub token: String,
}

/// The body sent when a user was created.
pub struct SignupResponse {
    pub message: String,
}

/// The body sent when a login needs a second factor.
pub struct TwoFactorAuthResponse {
    pub message: String,
    pub login_attempt_id: String,
}

/// The two ways a login can succeed.
pub enum LoginResponse {
    /// The session cookie was issued.
    RegularAuth,
    /// A challenge was sent; it is answered with this attempt id.
    TwoFactorAuth(TwoFactorAuthResponse),
}

/// A successful login: the body, and the session cookie where one was issued.
pub struct LoginOutcome {
    pub response: LoginResponse,
    pub cookie: Option<AuthCookie>,
}

/// The shape checks on signup input: a non-empty address with an `@`, and a
/// password of at least eight bytes.
pub open spec fn credentials_well_formed(email: Seq<char>, password: Seq<char>) -> bool {
    email.len() > 0 && email.contains('@') && byte_len(password) >= MIN_PASSWORD_BYTES
}

/// Both credentials parse into domain values.
pub open spec fn credentials_parse(email: Seq<char>, password: Seq<char>) -> bool {
    email_grammar_accepts(email) && byte_len(password) >= MIN_PASSWORD_BYTES
}

/// What a signup gives, against the registered users.
pub open spec fn signup_outcome(
    users: Map<Seq<char>, (Seq<char>, bool)>,
    email: Seq<char>,
    password: Seq<char>,
) -> Result<(), AuthAPIError> {
    if !credentials_well_formed(email, password) || !credentials_parse(email, password) {
        Err(AuthAPIError::InvalidCredentials)
    } else if users.contains_key(email) {
        Err(AuthAPIError::UserAlreadyExists)
    } else {
        Ok(())
    }
}

/// The password is the one registered for the address.
pub open spec fn credentials_match(
    users: Map<Seq<char>, (Seq<char>, bool)>,
    email: Seq<char>,
    password: Seq<char>,
) -> bool {
    users.contains_key(email) && users[email].0 == password
}

/// The answer to a challenge parses and matches the pending challenge of
/// the address exactly.
pub open spec fn challenge_accepts(
    codes: Map<Seq<char>, (Seq<char>, Seq<char>)>,
    email: Seq<char>,
    login_attempt_id: Seq<char>,
    code: Seq<char>,
) -> bool {
    &&& email_grammar_accepts(email)
    &&& uuid_text_of(login_attempt_id) is Some
    &&& is_six_digits(code)
    &&& codes.contains_key(email)
    &&& codes[email] == (uuid_text_of(login_attempt_id)->Some_0, code)
}

/// The answer to a challenge parses.
pub open spec fn challenge_parses(email: Seq<char>, login_attempt_id: Seq<char>, code: Seq<char>) -> bool {
    email_grammar_accepts(email) && uuid_text_of(login_attempt_id) is Some && is_six_digits(code)
}

/// Whether `s` holds the character `c`.
fn contains_char(s: &str, c: char) -> (r: bool)
    ensures
        r == s@.contains(c),
{
    let n = s.unicode_len();
    let mut i: usize = 0;
    while i < n
        invariant
            n == s@.len(),
            i <= n,
            forall|j: int| 0 <= j < i ==> s@[j] != c,
        decreases n - i,
    {
        if s.get_char(i) == c {
            assert(s@[i as int] == c);
            return true;
        }
        i = i + 1;
    }
    false
}

/// The shape checks on signup input.
pub fn validate_credentials(email: &str, password: &str) -> (r: Result<(), AuthAPIError>)
    ensures
        r is Ok <==> credentials_well_formed(email@, password@),
        r matches Err(e) ==> e == AuthAPIError::InvalidCredentials,
{
    if email.unicode_len() == 0 || !contains_char(email, '@') {
        return Err(AuthAPIError::InvalidCredentials);
    }
    if password.as_bytes().len() < MIN_PASSWORD_BYTES {
        return Err(AuthAPIError::InvalidCredentials);
    }
    Ok(())
}

/// Registers a user. The input is checked first; an address may be
/// registered once. A failure of the store is reported as `UnexpectedError`.
pub fn signup<U: UserStore>(user_store: &mut U, email: String, password: String, requires_2fa: bool) -> (r: Result<SignupResponse, AuthAPIError>)
    ensures
        final(user_store).may_fail() == old(user_store).may_fail(),
        r == Err::<SignupResponse, AuthAPIError>(AuthAPIError::UnexpectedError) ==> old(user_store).may_fail(),
        r == Err::<SignupResponse, AuthAPIError>(AuthAPIError::InvalidCredentials) <==> !(credentials_well_formed(
            email@,
            password@,
        ) && credentials_parse(email@, password@)),
        !old(user_store).may_fail() ==> match r {
            Ok(_) => signup_outcome(old(user_store).users(), email@, password@) is Ok
                && final(user_store).users() == old(user_store).users().insert(email@, (password@, requires_2fa)),
            Err(AuthAPIError::UnexpectedError) => signup_outcome(old(user_store).users(), email@, password@)
                != Err::<(), AuthAPIError>(AuthAPIError::InvalidCredentials) && final(user_store).users() == old(user_store).users(),
            Err(e) => signup_outcome(old(user_store).users(), email@, password@) == Err::<(), AuthAPIError>(e)
                && final(user_store).users() == old(user_store).users(),
        },
{
    if validate_credentials(email.as_str(), password.as_str()).is_err() {
        return Err(AuthAPIError::InvalidCredentials);
    }
    let email = match Email::parse(email) {
        Ok(e) => e,
        Err(_) => {
            return Err(AuthAPIError::InvalidCredentials);
        },
    };
    let password = match Password::parse(password) {
        Ok(p) => p,
        Err(_) => {
            return Err(AuthAPIError::InvalidCredentials);
        },
    };
    let user = User::new(email, password, requires_2fa);
    match user_store.add_user(user) {
        Ok(()) => Ok(SignupResponse { message: "User created successfully".to_owned() }),
        Err(UserStoreError::UserAlreadyExists) => Err(AuthAPIError::UserAlreadyExists),
        Err(_) => Err(AuthAPIError::UnexpectedError),
    }
}


/// The message that goes with a login that needs a second factor.
pub const TWO_FA_REQUIRED_MESSAGE: &'static str = "2FA required";

/// The subject of the message that carries a two-factor code.
pub const TWO_FA_SUBJECT: &'static str = "Your 2FA Code";

/// `c` is the session cookie of a token for `email` issued at `now`.
pub open spec fn session_cookie_for(c: AuthCookie, email: Seq<char>, secret: Seq<char>, now: int) -> bool {
    &&& c.name@ == JWT_COOKIE_NAME@
    &&& c.path@ == "/"@
    &&& c.http_only
    &&& c.same_site == SameSite::Lax
    &&& issuable_at(now)
    &&& c.value@ == signed_token(email, expiry_for(now), secret)
    &&& decoded_claims(c.value@, secret) == Some((email, expiry_for(now)))
}

/// A login answered with a session cookie for `email` issued at `now`.
pub open spec fn regular_login(out: LoginOutcome, email: Seq<char>, secret: Seq<char>, now: int) -> bool {
    &&& out.response is RegularAuth
    &&& out.cookie matches Some(c) && session_cookie_for(c, email, secret, now)
}

/// A login answered with a challenge whose attempt id is `login_attempt_id`.
pub open spec fn challenge_login(out: LoginOutcome, login_attempt_id: Seq<char>) -> bool {
    &&& out.response matches LoginResponse::TwoFactorAuth(body) && body.login_attempt_id@
        == login_attempt_id && body.message@ == TWO_FA_REQUIRED_MESSAGE@
    &&& out.cookie is None
}

/// None of the three collaborators of a login may fail.
pub open spec fn login_reliable<U: UserStore, C: TwoFACodeStore, N: EmailClient>(
    user_store: U,
    two_fa_code_store: C,
    email_client: N,
) -> bool {
    !user_store.may_fail() && !two_fa_code_store.may_fail() && !email_client.may_fail()
}

/// Logs a user in at time `now`. An unknown address and a wrong password
/// give the same error. Without 2FA a session cookie is issued; with 2FA the
/// challenge (`login_attempt_id`, `code`) replaces any pending one for the
/// address, the code is sent through `email_client`, and the attempt id is
/// returned. A failed delivery is reported as `UnexpectedError` and leaves
/// the challenge pending.
pub fn login_with<U: UserStore, C: TwoFACodeStore, N: EmailClient>(
    user_store: &U,
    two_fa_code_store: &mut C,
    email_client: &mut N,
    secret: &str,
    email: String,
    password: String,
    login_attempt_id: LoginAttemptId,
    code: TwoFACode,
    now: i64,
) -> (r: Result<LoginOutcome, AuthAPIError>)
    ensures
        final(two_fa_code_store).may_fail() == old(two_fa_code_store).may_fail(),
        final(email_client).may_fail() == old(email_client).may_fail(),
        r == Err::<LoginOutcome, AuthAPIError>(AuthAPIError::InvalidCredentials) <==> !credentials_parse(email@, password@),
        r == Err::<LoginOutcome, AuthAPIError>(AuthAPIError::UnexpectedError) ==> !login_reliable(*user_store, *old(two_fa_code_store), *old(email_client))
            || (!user_store.may_fail() && credentials_match(user_store.users(), email@, password@)
            && !user_store.users()[email@].1 && !issuable_at(now as int)),
        // with collaborators that cannot fail, the outcome is fixed
        login_reliable(*user_store, *old(two_fa_code_store), *old(email_client)) ==> {
            &&& r == Err::<LoginOutcome, AuthAPIError>(AuthAPIError::IncorrectCredentials) <==> credentials_parse(email@, password@)
                && !credentials_match(user_store.users(), email@, password@)
            &&& credentials_parse(email@, password@) && credentials_match(user_store.users(), email@, password@)
                && (user_store.users()[email@].1 || issuable_at(now as int)) ==> r is Ok
            &&& match r {
                Ok(out) => credentials_match(user_store.users(), email@, password@) && if user_store.users()[email@].1 {
                    &&& challenge_login(out, login_attempt_id@)
                    &&& final(two_fa_code_store).codes() == old(two_fa_code_store).codes().insert(email@, (login_attempt_id@, code@))
                    &&& final(email_client).outbox() == old(email_client).outbox().push((email@, TWO_FA_SUBJECT@, code@))
                } else {
                    &&& regular_login(out, email@, secret@, now as int)
                    &&& final(two_fa_code_store).codes() == old(two_fa_code_store).codes()
                    &&& final(email_client).outbox() == old(email_client).outbox()
                },
                Err(_) => final(two_fa_code_store).codes() == old(two_fa_code_store).codes()
                    && final(email_client).outbox() == old(email_client).outbox(),
            }
        },
{
    let email = match Email::parse(email) {
        Ok(e) => e,
        Err(_) => {
            return Err(AuthAPIError::InvalidCredentials);
        },
    };
    let password = match Password::parse(password) {
        Ok(p) => p,
        Err(_) => {
            return Err(AuthAPIError::InvalidCredentials);
        },
    };
    match user_store.validate_user(&email, &password) {
        Ok(()) => {},
        Err(UserStoreError::UnexpectedError(_)) => {
            return Err(AuthAPIError::UnexpectedError);
        },
        Err(_) => {
            return Err(AuthAPIError::IncorrectCredentials);
        },
    }
    let user = match user_store.get_user(&email) {
        Ok(u) => u,
        Err(UserStoreError::UnexpectedError(_)) => {
            return Err(AuthAPIError::UnexpectedError);
        },
        Err(_) => {
            return Err(AuthAPIError::IncorrectCredentials);
        },
    };
    if user.requires_2fa {
        handle_2fa(&email, two_fa_code_store, email_client, login_attempt_id, code)
    } else {
        handle_no_2fa(&email, secret, now)
    }
}

/// Records the challenge, sends its code, and answers with its attempt id.
/// When the store fails nothing is sent; when the delivery fails the
/// challenge stays pending.
fn handle_2fa<C: TwoFACodeStore, N: EmailClient>(
    email: &Email,
    two_fa_code_store: &mut C,
    email_client: &mut N,
    login_attempt_id: LoginAttemptId,
    code: TwoFACode,
) -> (r: Result<LoginOutcome, AuthAPIError>)
    ensures
        final(two_fa_code_store).may_fail() == old(two_fa_code_store).may_fail(),
        final(email_client).may_fail() == old(email_client).may_fail(),
        r matches Err(e) ==> e == AuthAPIError::UnexpectedError && (old(two_fa_code_store).may_fail()
            || old(email_client).may_fail()),
        r matches Ok(out) ==> challenge_login(out, login_attempt_id@),
        !old(two_fa_code_store).may_fail() && !old(email_client).may_fail() ==> r is Ok
            && final(two_fa_code_store).codes() == old(two_fa_code_store).codes().insert(email@, (login_attempt_id@, code@))
            && final(email_client).outbox() == old(email_client).outbox().push((email@, TWO_FA_SUBJECT@, code@)),
{
    let attempt_text = login_attempt_id.as_ref().to_owned();
    let code_text = code.as_ref().to_owned();
    if two_fa_code_store.add_code(email.clone(), login_attempt_id, code).is_err() {
        return Err(AuthAPIError::UnexpectedError);
    }
    if email_client.send_email(email, TWO_FA_SUBJECT, code_text.as_str()).is_err() {
        return Err(AuthAPIError::UnexpectedError);
    }
    let body = TwoFactorAuthResponse {
        message: TWO_FA_REQUIRED_MESSAGE.to_owned(),
        login_attempt_id: attempt_text,
    };
    Ok(LoginOutcome { response: LoginResponse::TwoFactorAuth(body), cookie: None })
}

/// Issues the session cookie.
fn handle_no_2fa(email: &Email, secret: &str, now: i64) -> (r: Result<LoginOutcome, AuthAPIError>)
    ensures
        issuable_at(now as int) ==> r is Ok,
        match r {
            Ok(out) => regular_login(out, email@, secret@, now as int),
            Err(e) => e == AuthAPIError::UnexpectedError && !issuable_at(now as int),
        },
{
    match generate_auth_cookie_at(email, secret, now) {
        Ok(cookie) => Ok(LoginOutcome { response: LoginResponse::RegularAuth, cookie: Some(cookie) }),
        Err(_) => Err(AuthAPIError::UnexpectedError),
    }
}

/// Logs a user in now, drawing a fresh attempt id and code for a challenge;
/// see `login_with`.
pub fn login<U: UserStore, C: TwoFACodeStore, N: EmailClient>(
    user_store: &U,
    two_fa_code_store: &mut C,
    email_client: &mut N,
    secret: &str,
    email: String,
    password: String,
) -> (r: Result<LoginOutcome, AuthAPIError>)
    ensures
        final(two_fa_code_store).may_fail() == old(two_fa_code_store).may_fail(),
        final(email_client).may_fail() == old(email_client).may_fail(),
        r == Err::<LoginOutcome, AuthAPIError>(AuthAPIError::InvalidCredentials) <==> !credentials_parse(email@, password@),
        r == Err::<LoginOutcome, AuthAPIError>(AuthAPIError::UnexpectedError) ==> !login_reliable(*user_store, *old(two_fa_code_store), *old(email_client)),
        // with collaborators that cannot fail, the outcome is fixed
        login_reliable(*user_store, *old(two_fa_code_store), *old(email_client)) ==> {
            &&& r == Err::<LoginOutcome, AuthAPIError>(AuthAPIError::IncorrectCredentials) <==> credentials_parse(email@, password@)
                && !credentials_match(user_store.users(), email@, password@)
            &&& credentials_parse(email@, password@) && credentials_match(user_store.users(), email@, password@) ==> r is Ok
            &&& match r {
                Ok(out) => credentials_match(user_store.users(), email@, password@) && if user_store.users()[email@].1 {
                    &&& out.response matches LoginResponse::TwoFactorAuth(body) && final(two_fa_code_store).codes().contains_key(email@)
                        && final(two_fa_code_store).codes()[email@].0 == body.login_attempt_id@
                        && body.message@ == TWO_FA_REQUIRED_MESSAGE@
                    &&& out.cookie is None
                    &&& uuid_text_of(final(two_fa_code_store).codes()[email@].0) == Some(final(two_fa_code_store).codes()[email@].0)
                    &&& is_v4_text(final(two_fa_code_store).codes()[email@].0)
                    &&& is_six_digits(final(two_fa_code_store).codes()[email@].1)
                    &&& final(two_fa_code_store).codes().remove(email@) == old(two_fa_code_store).codes().remove(email@)
                    &&& final(email_client).outbox() == old(email_client).outbox().push((email@, TWO_FA_SUBJECT@, final(two_fa_code_store).codes()[email@].1))
                } else {
                    &&& out.response is RegularAuth
                    &&& out.cookie matches Some(c) && exists|now: int| 0 <= now <= 8210266876799 && #[trigger] session_cookie_for(c, email@, secret@, now)
                    &&& final(two_fa_code_store).codes() == old(two_fa_code_store).codes()
                    &&& final(email_client).outbox() == old(email_client).outbox()
                },
                Err(_) => final(two_fa_code_store).codes() == old(two_fa_code_store).codes()
                    && final(email_client).outbox() == old(email_client).outbox(),
            }
        },
{
    let login_attempt_id = LoginAttemptId::generate();
    let code = TwoFACode::generate();
    let now = unix_now();
    let r = login_with(
        user_store,
        two_fa_code_store,
        email_client,
        secret,
        email,
        password,
        login_attempt_id,
        code,
        now,
    );
    proof {
        if login_reliable(*user_store, *old(two_fa_code_store), *old(email_client)) && r is Ok
            && user_store.users()[email@].1 {
            assert(final(two_fa_code_store).codes().remove(email@) =~= old(two_fa_code_store).codes().remove(email@));
        }
    }
    r
}

/// Answers a pending challenge at time `now`. The attempt id and the code
/// must both match the challenge pending for the address; then the challenge
/// is consumed and a session cookie issued. A wrong answer, or none pending,
/// gives `IncorrectCredentials` and leaves the challenge pending.
pub fn verify_2fa_at<C: TwoFACodeStore>(
    two_fa_code_store: &mut C,
    secret: &str,
    email: String,
    login_attempt_id: String,
    two_fa_code: String,
    now: i64,
) -> (r: Result<AuthCookie, AuthAPIError>)
    ensures
        final(two_fa_code_store).may_fail() == old(two_fa_code_store).may_fail(),
        r == Err::<AuthCookie, AuthAPIError>(AuthAPIError::InvalidCredentials) <==> !challenge_parses(email@, login_attempt_id@, two_fa_code@),
        r == Err::<AuthCookie, AuthAPIError>(AuthAPIError::UnexpectedError) ==> old(two_fa_code_store).may_fail() || !issuable_at(now as int),
        // with a store that cannot fail, the outcome is fixed
        !old(two_fa_code_store).may_fail() ==> {
            &&& r == Err::<AuthCookie, AuthAPIError>(AuthAPIError::IncorrectCredentials) <==> challenge_parses(email@, login_attempt_id@, two_fa_code@)
                && !challenge_accepts(old(two_fa_code_store).codes(), email@, login_attempt_id@, two_fa_code@)
            &&& challenge_accepts(old(two_fa_code_store).codes(), email@, login_attempt_id@, two_fa_code@)
                && issuable_at(now as int) ==> r is Ok
            &&& match r {
                Ok(c) => challenge_accepts(old(two_fa_code_store).codes(), email@, login_attempt_id@, two_fa_code@)
                    && final(two_fa_code_store).codes() == old(two_fa_code_store).codes().remove(email@)
                    && session_cookie_for(c, email@, secret@, now as int),
                Err(e) => final(two_fa_code_store).codes() == old(two_fa_code_store).codes() || (e
                    == AuthAPIError::UnexpectedError && !issuable_at(now as int) && challenge_accepts(
                    old(two_fa_code_store).codes(), email@, login_attempt_id@, two_fa_code@)
                    && final(two_fa_code_store).codes() == old(two_fa_code_store).codes().remove(email@)),
            }
        },
{
    let email = match Email::parse(email) {
        Ok(e) => e,
        Err(_) => {
            return Err(AuthAPIError::InvalidCredentials);
        },
    };
    let login_attempt_id = match LoginAttemptId::parse(login_attempt_id.as_str()) {
        Ok(id) => id,
        Err(_) => {
            return Err(AuthAPIError::InvalidCredentials);
        },
    };
    let two_fa_code = match TwoFACode::parse(two_fa_code.as_str()) {
        Ok(c) => c,
        Err(_) => {
            return Err(AuthAPIError::InvalidCredentials);
        },
    };
    let (stored_id, stored_code) = match two_fa_code_store.get_code(&email) {
        Ok(found) => found,
        Err(TwoFACodeStoreError::LoginAttemptIdNotFound) => {
            return Err(AuthAPIError::IncorrectCredentials);
        },
        Err(TwoFACodeStoreError::UnexpectedError(_)) => {
            return Err(AuthAPIError::UnexpectedError);
        },
    };
    if stored_id != login_attempt_id || stored_code != two_fa_code {
        return Err(AuthAPIError::IncorrectCredentials);
    }
    match two_fa_code_store.remove_code(&email) {
        Ok(()) => {},
        Err(TwoFACodeStoreError::LoginAttemptIdNotFound) => {
            return Err(AuthAPIError::IncorrectCredentials);
        },
        Err(TwoFACodeStoreError::UnexpectedError(_)) => {
            return Err(AuthAPIError::UnexpectedError);
        },
    }
    match generate_auth_cookie_at(&email, secret, now) {
        Ok(cookie) => Ok(cookie),
        Err(_) => Err(AuthAPIError::UnexpectedError),
    }
}

/// Answers a pending challenge now; see `verify_2fa_at`.
pub fn verify_2fa<C: TwoFACodeStore>(
    two_fa_code_store: &mut C,
    secret: &str,
    email: String,
    login_attempt_id: String,
    two_fa_code: String,
) -> (r: Result<AuthCookie, AuthAPIError>)
    ensures
        final(two_fa_code_store).may_fail() == old(two_fa_code_store).may_fail(),
        r == Err::<AuthCookie, AuthAPIError>(AuthAPIError::InvalidCredentials) <==> !challenge_parses(email@, login_attempt_id@, two_fa_code@),
        r == Err::<AuthCookie, AuthAPIError>(AuthAPIError::UnexpectedError) ==> old(two_fa_code_store).may_fail(),
        // with a store that cannot fail, the outcome is fixed
        !old(two_fa_code_store).may_fail() ==> {
            &&& r == Err::<AuthCookie, AuthAPIError>(AuthAPIError::IncorrectCredentials) <==> challenge_parses(email@, login_attempt_id@, two_fa_code@)
                && !challenge_accepts(old(two_fa_code_store).codes(), email@, login_attempt_id@, two_fa_code@)
            &&& challenge_accepts(old(two_fa_code_store).codes(), email@, login_attempt_id@, two_fa_code@) ==> r is Ok
            &&& match r {
                Ok(c) => challenge_accepts(old(two_fa_code_store).codes(), email@, login_attempt_id@, two_fa_code@)
                    && final(two_fa_code_store).codes() == old(two_fa_code_store).codes().remove(email@)
                    && exists|now: int| 0 <= now <= 8210266876799 && #[trigger] session_cookie_for(c, email@, secret@, now),
                Err(_) => final(two_fa_code_store).codes() == old(two_fa_code_store).codes(),
            }
        },
{
    verify_2fa_at(two_fa_code_store, secret, email, login_attempt_id, two_fa_code, unix_now())
}


/// Ends the session of `token` at time `now`: the token must be present and
/// still accepted; it is then revoked. A token already revoked is rejected,
/// so a second logout with it fails.
pub fn logout_at<B: BannedTokenStore>(
    banned_token_store: &mut B,
    secret: &str,
    token: Option<String>,
    now: i64,
) -> (r: Result<(), AuthAPIError>)
    ensures
        final(banned_token_store).may_fail() == old(banned_token_store).may_fail(),
        token is None ==> r == Err::<(), AuthAPIError>(AuthAPIError::MissingToken),
        r == Err::<(), AuthAPIError>(AuthAPIError::UnexpectedError) ==> old(banned_token_store).may_fail(),
        // with a store that cannot fail, the outcome is fixed
        !old(banned_token_store).may_fail() ==> match token {
            None => final(banned_token_store).banned() == old(banned_token_store).banned(),
            Some(t) => match token_outcome(old(banned_token_store).banned(), t@, secret@, now as int) {
                Err(_) => r == Err::<(), AuthAPIError>(AuthAPIError::InvalidToken) && final(banned_token_store).banned() == old(banned_token_store).banned(),
                Ok(_) => r is Ok && final(banned_token_store).banned() == old(banned_token_store).banned().insert(t@),
            },
        },
{
    let token = match token {
        Some(t) => t,
        None => {
            return Err(AuthAPIError::MissingToken);
        },
    };
    match validate_token_at(token.as_str(), &*banned_token_store, secret, now) {
        Ok(_) => {},
        Err(TokenError::Unexpected) => {
            return Err(AuthAPIError::UnexpectedError);
        },
        Err(_) => {
            return Err(AuthAPIError::InvalidToken);
        },
    }
    match banned_token_store.add_banned_token(token) {
        Ok(()) => Ok(()),
        Err(_) => Err(AuthAPIError::UnexpectedError),
    }
}

/// Ends the session of `token` now; see `logout_at`.
pub fn logout<B: BannedTokenStore>(banned_token_store: &mut B, secret: &str, token: Option<String>) -> (r: Result<(), AuthAPIError>)
    ensures
        final(banned_token_store).may_fail() == old(banned_token_store).may_fail(),
        token is None ==> r == Err::<(), AuthAPIError>(AuthAPIError::MissingToken),
        r == Err::<(), AuthAPIError>(AuthAPIError::UnexpectedError) ==> old(banned_token_store).may_fail(),
        // with a store that cannot fail: a revoked token is refused, a token
        // that cannot have expired is revoked
        !old(banned_token_store).may_fail() ==> match token {
            None => true,
            Some(t) => {
                &&& old(banned_token_store).banned().contains(t@) ==> r == Err::<(), AuthAPIError>(AuthAPIError::InvalidToken)
                &&& !old(banned_token_store).banned().contains(t@) && (decoded_claims(t@, secret@) matches Some((sub, exp))
                    && exp >= 8210266876799) ==> r is Ok
                &&& r is Ok ==> final(banned_token_store).banned() == old(banned_token_store).banned().insert(t@)
                &&& r is Err ==> final(banned_token_store).banned() == old(banned_token_store).banned()
            },
        },
{
    logout_at(banned_token_store, secret, token, unix_now())
}

/// Checks a token at time `now` for a downstream service: every failure,
/// whatever its kind, is reported as `InvalidToken`.
pub fn verify_token_at<B: BannedTokenStore>(banned_token_store: &B, secret: &str, token: &str, now: i64) -> (r: Result<(), AuthAPIError>)
    ensures
        r matches Err(e) ==> e == AuthAPIError::InvalidToken,
        r is Ok ==> claims_outcome(token@, secret@, now as int) is Ok,
        claims_outcome(token@, secret@, now as int) is Err ==> r == Err::<(), AuthAPIError>(AuthAPIError::InvalidToken),
        !banned_token_store.may_fail() ==> (r is Ok <==> token_outcome(banned_token_store.banned(), token@, secret@, now as int) is Ok),
{
    match validate_token_at(token, banned_token_store, secret, now) {
        Ok(_) => Ok(()),
        Err(_) => Err(AuthAPIError::InvalidToken),
    }
}

/// Checks a token now; see `verify_token_at`.
pub fn verify_token<B: BannedTokenStore>(banned_token_store: &B, secret: &str, token: &str) -> (r: Result<(), AuthAPIError>)
    ensures
        r matches Err(e) ==> e == AuthAPIError::InvalidToken,
        decoded_claims(token@, secret@) is None ==> r == Err::<(), AuthAPIError>(AuthAPIError::InvalidToken),
        r is Ok ==> decoded_claims(token@, secret@) is Some,
        !banned_token_store.may_fail() && banned_token_store.banned().contains(token@) ==> r == Err::<(), AuthAPIError>(AuthAPIError::InvalidToken),
        !banned_token_store.may_fail() && !banned_token_store.banned().contains(token@) && (decoded_claims(
            token@,
            secret@,
        ) matches Some((sub, exp)) && exp >= 8210266876799) ==> r is Ok,
{
    verify_token_at(banned_token_store, secret, token, unix_now())
}


/// After a successful signup the store holds the user's address with the
/// given credential and 2FA flag, and a second signup with the same address
/// and password is refused with `UserAlreadyExists`.
pub proof fn lemma_signup_then_lookup(
    users: Map<Seq<char>, (Seq<char>, bool)>,
    email: Seq<char>,
    password: Seq<char>,
    requires_2fa: bool,
)
    requires
        signup_outcome(users, email, password) is Ok,
    ensures
        users.insert(email, (password, requires_2fa)).contains_key(email),
        users.insert(email, (password, requires_2fa))[email] == (password, requires_2fa),
        signup_outcome(users.insert(email, (password, requires_2fa)), email, password) == Err::<
            (),
            AuthAPIError,
        >(AuthAPIError::UserAlreadyExists),
{
}

/// A new challenge for an address invalidates the earlier one: an answer
/// naming the earlier attempt id is no longer accepted, whatever its code.
pub proof fn lemma_new_challenge_supersedes(
    codes: Map<Seq<char>, (Seq<char>, Seq<char>)>,
    email: Seq<char>,
    first_attempt_id: Seq<char>,
    second_attempt_id: Seq<char>,
    second_code: Seq<char>,
    answered_attempt_id: Seq<char>,
    answered_code: Seq<char>,
)
    requires
        uuid_text_of(answered_attempt_id) == Some(first_attempt_id),
        first_attempt_id != second_attempt_id,
    ensures
        !challenge_accepts(
            codes.insert(email, (second_attempt_id, second_code)),
            email,
            answered_attempt_id,
            answered_code,
        ),
{
}

/// A challenge is accepted once: after the answer that consumed it, the same
/// answer parses but is no longer accepted.
pub proof fn lemma_challenge_single_use(
    codes: Map<Seq<char>, (Seq<char>, Seq<char>)>,
    email: Seq<char>,
    login_attempt_id: Seq<char>,
    code: Seq<char>,
)
    requires
        challenge_accepts(codes, email, login_attempt_id, code),
    ensures
        challenge_parses(email, login_attempt_id, code),
        !challenge_accepts(codes.remove(email), email, login_attempt_id, code),
{
}

/// Once a token is revoked it is rejected as revoked at any later time, so
/// neither a token check nor a second logout with it succeeds.
pub proof fn lemma_logout_revokes(banned: Set<Seq<char>>, token: Seq<char>, secret: Seq<char>, now: int)
    ensures
        token_outcome(banned.insert(token), token, secret, now) == Err::<(Seq<char>, int), TokenError>(
            TokenError::Revoked,
        ),
{
}

/// A token issued for `email` at `issued` and not revoked is accepted, with
/// its subject and expiry, until its expiry plus the leeway has passed.
pub proof fn lemma_issued_token_accepted(
    banned: Set<Seq<char>>,
    token: Seq<char>,
    email: Seq<char>,
    secret: Seq<char>,
    issued: int,
    now: int,
)
    requires
        decoded_claims(token, secret) == Some((email, expiry_for(issued))),
        !banned.contains(token),
        now <= expiry_for(issued) + TOKEN_LEEWAY_SECONDS,
    ensures
        token_outcome(banned, token, secret, now) == Ok::<(Seq<char>, int), TokenError>(
            (email, expiry_for(issued)),
        ),
{
}

} // verus!
