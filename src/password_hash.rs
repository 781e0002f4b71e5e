use vstd::prelude::*;

use crate::email::{email_grammar_accepts, Email};
use vstd::string::*;
use crate::errors::UserStoreError;
use crate::password::{byte_len, Password, MIN_PASSWORD_BYTES};
use crate::user::User;

verus! {

/// Memory cost of a password hash, in KiB.
pub const HASH_MEMORY_KIB: u32 = 15000;

/// Number of passes of a password hash.
pub const HASH_ITERATIONS: u32 = 2;

/// Lanes of a password hash.
pub const HASH_PARALLELISM: u32 = 1;

/// No value in the PHC string `hash` starts with seven or more digits: its
/// memory, time and lane costs are below one million. This keeps argon2's
/// parameter check (`8 * lanes` in `u32`) from overflowing.
pub open spec fn phc_costs_bounded(hash: Seq<char>) -> bool {
    forall|i: int|
        0 <= i && i + 7 < hash.len() && #[trigger] hash[i] == '=' ==> exists|j: int|
            1 <= j <= 7 && !('0' <= #[trigger] hash[i + j] <= '9')
}

/// Whether the character is an ASCII digit.
fn is_digit(c: char) -> (r: bool)
    ensures
        r == ('0' <= c <= '9'),
{
    '0' <= c && c <= '9'
}

/// Decides `phc_costs_bounded`.
pub fn check_phc_costs(hash: &str) -> (r: bool)
    ensures
        r == phc_costs_bounded(hash@),
{
    let n = hash.unicode_len();
    let mut i: usize = 0;
    while i < n
        invariant
            n == hash@.len(),
            i <= n,
            forall|k: int|
                0 <= k < i && k + 7 < hash@.len() && #[trigger] hash@[k] == '=' ==> exists|j: int|
                    1 <= j <= 7 && !('0' <= #[trigger] hash@[k + j] <= '9'),
        decreases n - i,
    {
        if 7 < n - i && hash.get_char(i) == '=' {
            let mut j: usize = 1;
            let mut all_digits = true;
            while j <= 7
                invariant
                    n == hash@.len(),
                    i + 7 < n,
                    1 <= j <= 8,
                    all_digits <==> forall|m: int| 1 <= m < j ==> '0' <= #[trigger] hash@[i + m] <= '9',
                decreases 8 - j,
            {
                if !is_digit(hash.get_char(i + j)) {
                    all_digits = false;
                }
                j = j + 1;
            }
            if all_digits {
                assert(hash@[i as int] == '=');
                assert forall|m: int| 1 <= m <= 7 implies '0' <= #[trigger] hash@[i + m] <= '9' by {}
                return false;
            }
        }
        i = i + 1;
    }
    true
}

/// Whether argon2 verifies `password` against the PHC string `hash`.
pub uninterp spec fn argon2_accepts(hash: Seq<char>, password: Seq<char>) -> bool;

/// Relies on `argon2::PasswordHash::new` and `PasswordVerifier::verify_password`
/// (constant-time): whether `candidate` matches the PHC string `expected_hash`.
/// `Params::new` computes `8 * lanes` in `u32`, which panics on overflow;
/// the bound on the costs rules that out.
#[verifier::external_body]
fn argon2_verify(expected_hash: &str, candidate: &str) -> (r: bool)
    requires
        phc_costs_bounded(expected_hash@),
    ensures
        r == argon2_accepts(expected_hash@, candidate@),
{
    match argon2::PasswordHash::new(expected_hash) {
        Ok(hash) => argon2::PasswordVerifier::verify_password(
            &argon2::Argon2::default(),
            candidate.as_bytes(),
            &hash,
        ).is_ok(),
        Err(_) => false,
    }
}

/// The character of the decimal digit `d` (below ten).
pub open spec fn digit_char(d: nat) -> char {
    if d == 0 {
        '0'
    } else if d == 1 {
        '1'
    } else if d == 2 {
        '2'
    } else if d == 3 {
        '3'
    } else if d == 4 {
        '4'
    } else if d == 5 {
        '5'
    } else if d == 6 {
        '6'
    } else if d == 7 {
        '7'
    } else if d == 8 {
        '8'
    } else {
        '9'
    }
}

/// The decimal notation of `n`, without leading zeros.
pub open spec fn decimal(n: nat) -> Seq<char>
    decreases n,
{
    if n < 10 {
        seq![digit_char(n)]
    } else {
        decimal(n / 10).push(digit_char(n % 10))
    }
}

/// How an Argon2id (version 0x13) PHC string with these costs begins.
pub open spec fn phc_prefix(memory_kib: nat, iterations: nat, parallelism: nat) -> Seq<char> {
    "$argon2id$v=19$m="@ + decimal(memory_kib) + ",t="@ + decimal(iterations) + ",p="@ + decimal(
        parallelism,
    ) + "$"@
}

/// Relies on `argon2::PasswordHasher::hash_password` (Argon2id, version 0x13)
/// with a fresh random salt: a PHC string that verifies `password`. Within
/// the bounds that `argon2::Params::new` checks, hashing succeeds. The string
/// is `$argon2id$v=19$m=<m>,t=<t>,p=<p>$<salt>$<hash>`, salt and hash in
/// unpadded Base64 (no `=`), so the costs are the only values after an `=`
/// besides the version 19.
#[verifier::external_body]
fn argon2_hash(password: &str, memory_kib: u32, iterations: u32, parallelism: u32) -> (r: Option<String>)
    requires
        1 <= parallelism <= 0xFF_FFFF,
        1 <= iterations,
        8 * parallelism <= memory_kib,
    ensures
        r is Some,
        r matches Some(h) ==> argon2_accepts(h@, password@),
        r matches Some(h) ==> h@.len() >= phc_prefix(memory_kib as nat, iterations as nat, parallelism as nat).len()
            && h@.subrange(0, phc_prefix(memory_kib as nat, iterations as nat, parallelism as nat).len() as int)
            == phc_prefix(memory_kib as nat, iterations as nat, parallelism as nat),
        r matches Some(h) ==> byte_len(h@) >= 8,
        r is Some && memory_kib < 1000000 && iterations < 1000000 && parallelism < 1000000
            ==> phc_costs_bounded(r->Some_0@),
{
    let salt = argon2::password_hash::SaltString::generate(&mut rand::thread_rng());
    let params = argon2::Params::new(memory_kib, iterations, parallelism, None).ok()?;
    let hasher = argon2::Argon2::new(argon2::Algorithm::Argon2id, argon2::Version::V0x13, params);
    let hash = argon2::PasswordHasher::hash_password(&hasher, password.as_bytes(), &salt).ok()?;
    Some(hash.to_string())
}

/// A salted Argon2id hash of `password`, the form in which durable stores
/// keep it.
pub fn compute_password_hash(password: &Password) -> (r: Result<String, UserStoreError>)
    ensures
        r matches Ok(h) && argon2_accepts(h@, password@),
        r matches Ok(h) && h@.len() >= phc_prefix(15000, 2, 1).len() && h@.subrange(0, phc_prefix(15000, 2, 1).len() as int)
            == phc_prefix(15000, 2, 1),
        r matches Ok(h) && byte_len(h@) >= MIN_PASSWORD_BYTES && phc_costs_bounded(h@),
{
    match argon2_hash(password.as_ref(), HASH_MEMORY_KIB, HASH_ITERATIONS, HASH_PARALLELISM) {
        Some(hash) => Ok(hash),
        None => Err(UserStoreError::UnexpectedError("failed to hash the password".to_owned())),
    }
}

/// Whether `password_candidate` matches the stored hash. A stored hash whose
/// costs are out of bounds matches nothing.
pub fn verify_password_hash(expected_password_hash: &str, password_candidate: &Password) -> (r: Result<(), UserStoreError>)
    ensures
        r is Ok <==> phc_costs_bounded(expected_password_hash@) && argon2_accepts(
            expected_password_hash@,
            password_candidate@,
        ),
        r matches Err(e) ==> e is InvalidCredentials,
{
    if !check_phc_costs(expected_password_hash) {
        return Err(UserStoreError::InvalidCredentials);
    }
    if argon2_verify(expected_password_hash, password_candidate.as_ref()) {
        Ok(())
    } else {
        Err(UserStoreError::InvalidCredentials)
    }
}

/// A user read back from a durable row; a row that does not hold a valid
/// address and credential is an unexpected error.
pub fn user_from_row(email: String, password_hash: String, requires_2fa: bool) -> (r: Result<User, UserStoreError>)
    ensures
        r is Ok <==> email_grammar_accepts(email@) && byte_len(password_hash@) >= MIN_PASSWORD_BYTES,
        r matches Ok(u) ==> u.email@ == email@ && u.password@ == password_hash@ && u.requires_2fa
            == requires_2fa,
        r matches Err(e) ==> e is UnexpectedError,
{
    let email = match Email::parse(email) {
        Ok(e) => e,
        Err(_) => {
            return Err(UserStoreError::UnexpectedError("stored email is invalid".to_owned()));
        },
    };
    let password = match Password::parse(password_hash) {
        Ok(p) => p,
        Err(_) => {
            return Err(UserStoreError::UnexpectedError("stored password hash is invalid".to_owned()));
        },
    };
    Ok(User::new(email, password, requires_2fa))
}

} // verus!
