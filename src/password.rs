use vstd::prelude::*;

use crate::errors::ParseError;

verus! {

/// Number of bytes of the UTF-8 encoding of `s`.
pub open spec fn byte_len(s: Seq<char>) -> nat {
    vstd::utf8::encode_utf8(s).len()
}

/// The fewest bytes a password may have.
pub const MIN_PASSWORD_BYTES: usize = 8;

/// A candidate password that passed the length rule. It is kept only in
/// memory; durable stores keep a salted hash of it instead.
pub struct Password {
    secret: String,
}

impl View for Password {
    type V = Seq<char>;

    closed spec fn view(&self) -> Seq<char> {
        self.secret@
    }
}

impl Password {
    /// Accepts a password of at least eight bytes, unchanged; there is no
    /// upper bound and no rule on classes of characters.
    pub fn parse(password: String) -> (r: Result<Password, ParseError>)
        ensures
            r is Ok <==> byte_len(password@) >= MIN_PASSWORD_BYTES,
            r matches Ok(p) ==> p@ == password@,
            r matches Err(e) ==> e == ParseError::PasswordTooShort,
    {
        if password.as_str().as_bytes().len() < MIN_PASSWORD_BYTES {
            return Err(ParseError::PasswordTooShort);
        }
        Ok(Password { secret: password })
    }

    /// The password text, read explicitly.
    pub fn as_ref(&self) -> (r: &str)
        ensures
            r@ == self@,
    {
        self.secret.as_str()
    }
}

impl Clone for Password {
    fn clone(&self) -> (r: Password)
        ensures
            r@ == self@,
    {
        Password { secret: self.secret.clone() }
    }
}

impl PartialEq for Password {
    fn eq(&self, other: &Password) -> (r: bool) {
        self.secret == other.secret
    }
}

impl vstd::std_specs::cmp::PartialEqSpecImpl for Password {
    open spec fn obeys_eq_spec() -> bool {
        true
    }

    open spec fn eq_spec(&self, other: &Password) -> bool {
        self@ == other@
    }
}

} // verus!
