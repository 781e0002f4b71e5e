use vstd::prelude::*;

use crate::email::Email;
use crate::errors::TwoFACodeStoreError;
use crate::login_attempt_id::{uuid_text_of, LoginAttemptId};
use crate::two_fa_code::{is_six_digits, TwoFACode};

verus! {

/// The prefix of the keys under which pending challenges are kept.
pub const TWO_FA_CODE_PREFIX: &'static str = "two_fa_code:";

/// How long a pending challenge stays in a networked store, in seconds.
pub const TEN_MINUTES_IN_SECONDS: u64 = 600;

/// The JSON text that `serde_json::to_string` writes for a pair of strings.
pub uninterp spec fn json_pair_text(first: Seq<char>, second: Seq<char>) -> Seq<char>;

/// The pair of strings that `serde_json::from_str` reads from `text`, if
/// the text is a JSON array of two strings.
pub uninterp spec fn json_pair_read(text: Seq<char>) -> Option<(Seq<char>, Seq<char>)>;

/// Relies on `serde_json::to_string` on a pair of strings: a JSON array that
/// `serde_json::from_str` reads back to the same pair. Writing strings
/// cannot fail.
#[verifier::external_body]
fn write_json_pair(first: &str, second: &str) -> (r: Option<String>)
    ensures
        r is Some,
        r matches Some(t) ==> t@ == json_pair_text(first@, second@),
        r matches Some(t) ==> json_pair_read(t@) == Some((first@, second@)),
{
    serde_json::to_string(&(first, second)).ok()
}

/// Relies on `serde_json::from_str` into a pair of strings.
#[verifier::external_body]
fn read_json_pair(text: &str) -> (r: Option<(String, String)>)
    ensures
        match r {
            Some((a, b)) => json_pair_read(text@) == Some((a@, b@)),
            None => json_pair_read(text@) is None,
        },
{
    serde_json::from_str::<(String, String)>(text).ok()
}

/// The key-value key under which the challenge of `email` is kept.
pub fn get_key(email: &Email) -> (r: String)
    ensures
        r@ == TWO_FA_CODE_PREFIX@ + email@,
{
    let mut key = TWO_FA_CODE_PREFIX.to_owned();
    key.append(email.as_ref());
    key
}

/// The attempt id and code that the stored text `text` holds, if it holds a
/// well-formed pair.
pub open spec fn code_entry_of(text: Seq<char>) -> Option<(Seq<char>, Seq<char>)> {
    match json_pair_read(text) {
        Some((id, code)) => if uuid_text_of(id) is Some && is_six_digits(code) {
            Some((uuid_text_of(id)->Some_0, code))
        } else {
            None
        },
        None => None,
    }
}

/// The stored text of a pending challenge: its attempt id and its code.
pub fn encode_code_entry(login_attempt_id: &LoginAttemptId, code: &TwoFACode) -> (r: Result<String, TwoFACodeStoreError>)
    ensures
        r matches Ok(t) ==> t@ == json_pair_text(login_attempt_id@, code@) && json_pair_read(t@)
            == Some((login_attempt_id@, code@)),
        r is Ok,
{
    match write_json_pair(login_attempt_id.as_ref(), code.as_ref()) {
        Some(text) => Ok(text),
        None => Err(TwoFACodeStoreError::UnexpectedError("failed to serialize the 2FA entry".to_owned())),
    }
}

/// Reads a pending challenge back from its stored text; text that does not
/// hold a well-formed pair is an unexpected error.
pub fn decode_code_entry(text: &str) -> (r: Result<(LoginAttemptId, TwoFACode), TwoFACodeStoreError>)
    ensures
        r is Ok <==> code_entry_of(text@) is Some,
        r matches Ok((id, code)) ==> code_entry_of(text@) == Some((id@, code@)),
        r matches Err(e) ==> e is UnexpectedError,
{
    let (id_text, code_text) = match read_json_pair(text) {
        Some(pair) => pair,
        None => {
            return Err(TwoFACodeStoreError::UnexpectedError("failed to deserialize the 2FA entry".to_owned()));
        },
    };
    let id = match LoginAttemptId::parse(id_text.as_str()) {
        Ok(id) => id,
        Err(_) => {
            return Err(TwoFACodeStoreError::UnexpectedError("invalid login attempt id".to_owned()));
        },
    };
    let code = match TwoFACode::parse(code_text.as_str()) {
        Ok(code) => code,
        Err(_) => {
            return Err(TwoFACodeStoreError::UnexpectedError("invalid 2FA code".to_owned()));
        },
    };
    Ok((id, code))
}

/// A challenge written by `encode_code_entry` reads back unchanged: every
/// `LoginAttemptId` is in hyphenated UUID form and every `TwoFACode` is six
/// digits.
pub proof fn lemma_code_entry_round_trip(login_attempt_id: Seq<char>, code: Seq<char>, text: Seq<char>)
    requires
        json_pair_read(text) == Some((login_attempt_id, code)),
        uuid_text_of(login_attempt_id) == Some(login_attempt_id),
        is_six_digits(code),
    ensures
        code_entry_of(text) == Some((login_attempt_id, code)),
{
}

} // verus!
