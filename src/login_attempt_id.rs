use vstd::prelude::*;

use crate::errors::ParseError;

verus! {

/// The hyphenated lower-case text of the UUID that `uuid::Uuid::parse_str`
/// reads from `s`, or `None` where it reads none.
pub uninterp spec fn uuid_text_of(s: Seq<char>) -> Option<Seq<char>>;

/// Relies on `uuid::Uuid::parse_str`, whose value is written back in its
/// hyphenated form; that form reads back as itself.
#[verifier::external_body]
fn parse_uuid(s: &str) -> (r: Option<String>)
    ensures
        r is Some <==> uuid_text_of(s@) is Some,
        r matches Some(t) ==> uuid_text_of(s@) == Some(t@),
        r matches Some(t) ==> uuid_text_of(t@) == Some(t@),
{
    match uuid::Uuid::parse_str(s) {
        Ok(id) => Some(id.to_string()),
        Err(_) => None,
    }
}

/// The hyphenated text of a version-4 UUID: 36 characters, hyphens at 8,
/// 13, 18 and 23, and the version digit `4` at 14.
pub open spec fn is_v4_text(s: Seq<char>) -> bool {
    &&& s.len() == 36
    &&& s[8] == '-' && s[13] == '-' && s[18] == '-' && s[23] == '-'
    &&& s[14] == '4'
}

/// Relies on `uuid::Uuid::new_v4`: a fresh random version-4 UUID, in
/// hyphenated form, which `uuid::Uuid::parse_str` reads back as itself.
#[verifier::external_body]
fn new_uuid_v4() -> (r: String)
    ensures
        uuid_text_of(r@) == Some(r@),
        is_v4_text(r@),
{
    uuid::Uuid::new_v4().to_string()
}

/// The identifier of one pending two-factor challenge.
pub struct LoginAttemptId {
    id: String,
}

impl View for LoginAttemptId {
    type V = Seq<char>;

    closed spec fn view(&self) -> Seq<char> {
        self.id@
    }
}

impl LoginAttemptId {
    /// The text is a UUID in hyphenated form.
    pub open spec fn canonical(&self) -> bool {
        uuid_text_of(self@) == Some(self@)
    }

    /// Accepts any text that reads as a UUID; the identifier holds its
    /// hyphenated form.
    pub fn parse(id: &str) -> (r: Result<LoginAttemptId, ParseError>)
        ensures
            r is Ok <==> uuid_text_of(id@) is Some,
            r matches Ok(a) ==> uuid_text_of(id@) == Some(a@) && a.canonical(),
            r matches Err(e) ==> e == ParseError::InvalidLoginAttemptId,
    {
        match parse_uuid(id) {
            Some(text) => Ok(LoginAttemptId { id: text }),
            None => Err(ParseError::InvalidLoginAttemptId),
        }
    }

    /// A fresh random identifier.
    pub fn generate() -> (r: LoginAttemptId)
        ensures
            r.canonical(),
            is_v4_text(r@),
    {
        LoginAttemptId { id: new_uuid_v4() }
    }

    /// The identifier text, read explicitly.
    pub fn as_ref(&self) -> (r: &str)
        ensures
            r@ == self@,
    {
        self.id.as_str()
    }
}

impl Default for LoginAttemptId {
    fn default() -> (r: LoginAttemptId)
        ensures
            r.canonical(),
            is_v4_text(r@),
    {
        LoginAttemptId::generate()
    }
}

impl Clone for LoginAttemptId {
    fn clone(&self) -> (r: LoginAttemptId)
        ensures
            r@ == self@,
    {
        LoginAttemptId { id: self.id.clone() }
    }
}

impl PartialEq for LoginAttemptId {
    fn eq(&self, other: &LoginAttemptId) -> (r: bool) {
        self.id == other.id
    }
}

impl vstd::std_specs::cmp::PartialEqSpecImpl for LoginAttemptId {
    open spec fn obeys_eq_spec() -> bool {
        true
    }

    open spec fn eq_spec(&self, other: &LoginAttemptId) -> bool {
        self@ == other@
    }
}

} // verus!
