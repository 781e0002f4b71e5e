use vstd::prelude::*;

use crate::data_stores::BannedTokenStore;
use crate::errors::BannedTokenStoreError;
use crate::email::Email;

verus! {

/// How long a session token is valid, in seconds.
pub const TOKEN_TTL_SECONDS: i64 = 600;

/// How far past its expiry a token is still accepted, in seconds.
pub const TOKEN_LEEWAY_SECONDS: i64 = 60;

/// The name of the session cookie.
pub const JWT_COOKIE_NAME: &'static str = "jwt";

/// The token that `jsonwebtoken::encode` writes for claims `{sub, exp}`,
/// signed with HS256 under `secret`.
pub uninterp spec fn signed_token(sub: Seq<char>, exp: int, secret: Seq<char>) -> Seq<char>;

/// The `sub` and `exp` claims that `jsonwebtoken::decode` reads from a token
/// whose HS256 signature under `secret` holds; `None` when the token is
/// malformed, its signature fails, or either claim is missing.
pub uninterp spec fn decoded_claims(token: Seq<char>, secret: Seq<char>) -> Option<(Seq<char>, int)>;

/// Relies on `jsonwebtoken::encode` with the default (HS256) header: the
/// signed token, which `jsonwebtoken::decode` under the same secret reads
/// back to the same claims. With an HMAC key signing cannot fail.
#[verifier::external_body]
fn encode_token(sub: &str, exp: u64, secret: &str) -> (r: Option<String>)
    ensures
        r is Some,
        r matches Some(t) ==> t@ == signed_token(sub@, exp as int, secret@),
        r matches Some(t) ==> decoded_claims(t@, secret@) == Some((sub@, exp as int)),
{
    let mut claims = serde_json::Map::new();
    claims.insert("sub".to_string(), serde_json::Value::from(sub));
    claims.insert("exp".to_string(), serde_json::Value::from(exp));
    let key = jsonwebtoken::EncodingKey::from_secret(secret.as_bytes());
    jsonwebtoken::encode(&jsonwebtoken::Header::default(), &claims, &key).ok()
}

/// Relies on `jsonwebtoken::decode` with HS256 and the expiry check left to
/// the caller: the `sub` and `exp` claims of a token whose signature holds.
#[verifier::external_body]
fn decode_token(token: &str, secret: &str) -> (r: Option<(String, u64)>)
    ensures
        match r {
            Some((sub, exp)) => decoded_claims(token@, secret@) == Some((sub@, exp as int)),
            None => decoded_claims(token@, secret@) is None,
        },
{
    let mut validation = jsonwebtoken::Validation::default();
    validation.validate_exp = false;
    let key = jsonwebtoken::DecodingKey::from_secret(secret.as_bytes());
    let data = jsonwebtoken::decode::<serde_json::Value>(token, &key, &validation).ok()?;
    let sub = data.claims.get("sub")?.as_str()?.to_string();
    let exp = data.claims.get("exp")?.as_u64()?;
    Some((sub, exp))
}

/// Relies on `chrono::Utc::now`: the current Unix time in seconds. It
/// returns only for a time between the epoch and `DateTime::MAX_UTC`
/// (timestamp 8210266876799).
#[verifier::external_body]
pub(crate) fn unix_now() -> (r: i64)
    ensures
        0 <= r <= 8210266876799,
{
    chrono::Utc::now().timestamp()
}

/// Why a session token was not accepted.
#[derive(Debug, Clone, Copy, PartialEq, Eq, Structural)]
pub enum TokenError {
    Revoked,
    Malformed,
    Expired,
    Unexpected,
}

/// What a session token states: whose session it is and until when.
pub struct Claims {
    pub sub: String,
    pub exp: u64,
}

/// The cookie `SameSite` policies this service sets.
#[derive(Debug, Clone, Copy, PartialEq, Eq, Structural)]
pub enum SameSite {
    Strict,
    Lax,
}

/// The session cookie: a token scoped to the whole site, hidden from
/// scripts, and sent along with same-site requests.
pub struct AuthCookie {
    pub name: String,
    pub value: String,
    pub path: String,
    pub http_only: bool,
    pub same_site: SameSite,
}

impl AuthCookie {
    pub fn name(&self) -> (r: &str)
        ensures
            r@ == self.name@,
    {
        self.name.as_str()
    }

    pub fn value(&self) -> (r: &str)
        ensures
            r@ == self.value@,
    {
        self.value.as_str()
    }

    pub fn path(&self) -> (r: Option<&str>)
        ensures
            r matches Some(p) && p@ == self.path@,
    {
        Some(self.path.as_str())
    }

    pub fn http_only(&self) -> (r: Option<bool>)
        ensures
            r == Some(self.http_only),
    {
        Some(self.http_only)
    }

    pub fn same_site(&self) -> (r: Option<SameSite>)
        ensures
            r == Some(self.same_site),
    {
        Some(self.same_site)
    }
}

/// The expiry written into a token issued at `now`.
pub open spec fn expiry_for(now: int) -> int {
    now + TOKEN_TTL_SECONDS
}

/// Whether a token issued at `now` can carry its expiry.
pub open spec fn issuable_at(now: int) -> bool {
    0 <= expiry_for(now) <= i64::MAX
}

/// What checking `token` at time `now` gives, given the revoked tokens:
/// revocation is looked at first, then the signature, then the expiry.
pub open spec fn token_outcome(banned: Set<Seq<char>>, token: Seq<char>, secret: Seq<char>, now: int) -> Result<(Seq<char>, int), TokenError> {
    if banned.contains(token) {
        Err(TokenError::Revoked)
    } else {
        claims_outcome(token, secret, now)
    }
}

/// The cookie that carries `token`.
pub fn create_auth_cookie(token: String) -> (r: AuthCookie)
    ensures
        r.name@ == JWT_COOKIE_NAME@,
        r.value@ == token@,
        r.path@ == "/"@,
        r.http_only,
        r.same_site == SameSite::Lax,
{
    AuthCookie {
        name: JWT_COOKIE_NAME.to_owned(),
        value: token,
        path: "/".to_owned(),
        http_only: true,
        same_site: SameSite::Lax,
    }
}

/// A token for `email` issued at `now`, valid for `TOKEN_TTL_SECONDS`.
pub fn generate_auth_token_at(email: &Email, secret: &str, now: i64) -> (r: Result<String, TokenError>)
    ensures
        !issuable_at(now as int) ==> r == Err::<String, TokenError>(TokenError::Unexpected),
        issuable_at(now as int) ==> r is Ok,
        r matches Err(e) ==> e == TokenError::Unexpected,
        r matches Ok(t) ==> issuable_at(now as int) && t@ == signed_token(email@, expiry_for(now as int), secret@)
            && decoded_claims(t@, secret@) == Some((email@, expiry_for(now as int))),
{
    if now > i64::MAX - TOKEN_TTL_SECONDS {
        return Err(TokenError::Unexpected);
    }
    let exp = now + TOKEN_TTL_SECONDS;
    if exp < 0 {
        return Err(TokenError::Unexpected);
    }
    match encode_token(email.as_ref(), exp as u64, secret) {
        Some(token) => Ok(token),
        None => Err(TokenError::Unexpected),
    }
}

/// A token for `email` issued now.
pub fn generate_auth_token(email: &Email, secret: &str) -> (r: Result<String, TokenError>)
    ensures
        r matches Ok(t) && exists|now: int|
            0 <= now <= 8210266876799 && #[trigger] decoded_claims(t@, secret@) == Some(
                (email@, expiry_for(now)),
            ),
{
    generate_auth_token_at(email, secret, unix_now())
}

/// A session cookie for `email` holding a token issued at `now`.
pub fn generate_auth_cookie_at(email: &Email, secret: &str, now: i64) -> (r: Result<AuthCookie, TokenError>)
    ensures
        !issuable_at(now as int) ==> r == Err::<AuthCookie, TokenError>(TokenError::Unexpected),
        issuable_at(now as int) ==> r is Ok,
        r matches Err(e) ==> e == TokenError::Unexpected,
        r matches Ok(c) ==> issuable_at(now as int) && c.name@ == JWT_COOKIE_NAME@ && c.path@ == "/"@ && c.http_only
            && c.same_site == SameSite::Lax && c.value@ == signed_token(email@, expiry_for(now as int), secret@)
            && decoded_claims(c.value@, secret@) == Some((email@, expiry_for(now as int))),
{
    let token = generate_auth_token_at(email, secret, now)?;
    Ok(create_auth_cookie(token))
}

/// A session cookie for `email` holding a token issued now.
pub fn generate_auth_cookie(email: &Email, secret: &str) -> (r: Result<AuthCookie, TokenError>)
    ensures
        r matches Ok(c) && c.name@ == JWT_COOKIE_NAME@ && c.path@ == "/"@ && c.http_only && c.same_site
            == SameSite::Lax && exists|now: int|
            0 <= now <= 8210266876799 && #[trigger] decoded_claims(c.value@, secret@) == Some(
                (email@, expiry_for(now)),
            ),
{
    generate_auth_cookie_at(email, secret, unix_now())
}

/// What the signature and the expiry of `token` give at time `now`: a token
/// is accepted until `TOKEN_LEEWAY_SECONDS` past its expiry.
pub open spec fn claims_outcome(token: Seq<char>, secret: Seq<char>, now: int) -> Result<(Seq<char>, int), TokenError> {
    match decoded_claims(token, secret) {
        None => Err(TokenError::Malformed),
        Some((sub, exp)) => if exp < now - TOKEN_LEEWAY_SECONDS {
            Err(TokenError::Expired)
        } else {
            Ok((sub, exp))
        },
    }
}

/// The answer for `token` once the revocation store has answered `lookup`:
/// a failed lookup is `Unexpected`, a revoked token `Revoked`, and otherwise
/// the signature and the expiry decide.
pub fn token_answer(lookup: Result<bool, BannedTokenStoreError>, token: &str, secret: &str, now: i64) -> (r: Result<Claims, TokenError>)
    ensures
        lookup is Err ==> r == Err::<Claims, TokenError>(TokenError::Unexpected),
        match r {
            Ok(c) => lookup == Ok::<bool, BannedTokenStoreError>(false) && claims_outcome(token@, secret@, now as int) == Ok::<(Seq<char>, int), TokenError>((c.sub@, c.exp as int)),
            Err(TokenError::Malformed) => claims_outcome(token@, secret@, now as int) == Err::<(Seq<char>, int), TokenError>(TokenError::Malformed),
            Err(TokenError::Expired) => claims_outcome(token@, secret@, now as int) == Err::<(Seq<char>, int), TokenError>(TokenError::Expired),
            Err(_) => true,
        },
        lookup == Ok::<bool, BannedTokenStoreError>(true) ==> r == Err::<Claims, TokenError>(TokenError::Revoked),
        lookup == Ok::<bool, BannedTokenStoreError>(false) ==> match r {
            Ok(c) => claims_outcome(token@, secret@, now as int) == Ok::<(Seq<char>, int), TokenError>((c.sub@, c.exp as int)),
            Err(e) => claims_outcome(token@, secret@, now as int) == Err::<(Seq<char>, int), TokenError>(e),
        },
{
    match lookup {
        Ok(true) => {
            return Err(TokenError::Revoked);
        },
        Ok(false) => {},
        Err(_) => {
            return Err(TokenError::Unexpected);
        },
    }
    match decode_token(token, secret) {
        None => Err(TokenError::Malformed),
        Some((sub, exp)) => {
            if (exp as i128) < (now as i128) - (TOKEN_LEEWAY_SECONDS as i128) {
                Err(TokenError::Expired)
            } else {
                Ok(Claims { sub, exp })
            }
        },
    }
}

/// Checks `token` at time `now`: it must not be revoked, its signature must
/// hold and it must not have expired. A failure of the store is reported as
/// `Unexpected`.
pub fn validate_token_at<B: BannedTokenStore>(token: &str, banned_token_store: &B, secret: &str, now: i64) -> (r: Result<Claims, TokenError>)
    ensures
        r matches Err(TokenError::Unexpected) ==> banned_token_store.may_fail(),
        // what the signature and expiry decide holds whatever the store is
        match r {
            Ok(c) => claims_outcome(token@, secret@, now as int) == Ok::<(Seq<char>, int), TokenError>((c.sub@, c.exp as int)),
            Err(TokenError::Malformed) => claims_outcome(token@, secret@, now as int) == Err::<(Seq<char>, int), TokenError>(TokenError::Malformed),
            Err(TokenError::Expired) => claims_outcome(token@, secret@, now as int) == Err::<(Seq<char>, int), TokenError>(TokenError::Expired),
            Err(_) => true,
        },
        !banned_token_store.may_fail() ==> match r {
            Ok(c) => token_outcome(banned_token_store.banned(), token@, secret@, now as int) == Ok::<(Seq<char>, int), TokenError>((c.sub@, c.exp as int)),
            Err(TokenError::Unexpected) => true,
            Err(e) => token_outcome(banned_token_store.banned(), token@, secret@, now as int) == Err::<(Seq<char>, int), TokenError>(e),
        },
{
    let lookup = banned_token_store.check_banned_token(token);
    token_answer(lookup, token, secret, now)
}

/// Checks `token` now; see `validate_token_at`.
pub fn validate_token<B: BannedTokenStore>(token: &str, banned_token_store: &B, secret: &str) -> (r: Result<Claims, TokenError>)
    ensures
        !banned_token_store.may_fail() && banned_token_store.banned().contains(token@) ==> r is Err,
        r matches Ok(c) ==> decoded_claims(token@, secret@) == Some((c.sub@, c.exp as int)),
        r matches Err(TokenError::Malformed) ==> decoded_claims(token@, secret@) is None,
        !banned_token_store.may_fail() && r == Err::<Claims, TokenError>(TokenError::Revoked) ==> banned_token_store.banned().contains(token@),
        r matches Err(TokenError::Unexpected) ==> banned_token_store.may_fail(),
        !banned_token_store.may_fail() && !banned_token_store.banned().contains(token@) && (decoded_claims(
            token@,
            secret@,
        ) matches Some((sub, exp)) && exp >= 8210266876799) ==> r is Ok,
{
    validate_token_at(token, banned_token_store, secret, unix_now())
}

} // verus!
