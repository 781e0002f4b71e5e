use vstd::prelude::*;

verus! {

/// The prefix of the keys under which revoked tokens are kept.
pub const BANNED_TOKEN_KEY_PREFIX: &'static str = "banned_token:";

/// How long a revoked token stays in a networked store, in seconds: as long
/// as a token is valid.
pub const BANNED_TOKEN_TTL_SECONDS: u64 = 600;

/// The key-value key under which `token` is kept once revoked.
pub fn get_key(token: &str) -> (r: String)
    ensures
        r@ == BANNED_TOKEN_KEY_PREFIX@ + token@,
{
    let mut key = BANNED_TOKEN_KEY_PREFIX.to_owned();
    key.append(token);
    key
}

} // verus!
