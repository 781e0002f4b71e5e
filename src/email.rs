use vstd::prelude::*;

use crate::errors::ParseError;

verus! {

/// What `validator::validate_email` answers for an address.
pub uninterp spec fn email_grammar_accepts(address: Seq<char>) -> bool;

/// Relies on `validator::validate_email`: whether the address follows the
/// HTML5 email grammar. Its source rejects at once an empty address and one
/// without an `@`.
#[verifier::external_body]
fn check_email_grammar(address: &str) -> (r: bool)
    ensures
        r == email_grammar_accepts(address@),
        r ==> address@.len() > 0 && address@.contains('@'),
{
    validator::validate_email(address)
}

/// A validated email address. The address is kept exactly as given.
#[derive(Hash)]
pub struct Email {
    address: String,
}

impl View for Email {
    type V = Seq<char>;

    closed spec fn view(&self) -> Seq<char> {
        self.address@
    }
}

impl Email {
    /// Accepts `address` when it follows the email grammar; the value keeps
    /// the address unchanged.
    pub fn parse(address: String) -> (r: Result<Email, ParseError>)
        ensures
            r is Ok <==> email_grammar_accepts(address@),
            r is Ok ==> address@.len() > 0 && address@.contains('@'),
            r matches Ok(e) ==> e@ == address@,
            r matches Err(e) ==> e == ParseError::InvalidEmail,
    {
        if !check_email_grammar(address.as_str()) {
            return Err(ParseError::InvalidEmail);
        }
        Ok(Email { address })
    }

    pub(crate) fn as_string(&self) -> (r: &String)
        ensures
            r@ == self@,
    {
        &self.address
    }

    /// The address, as given to `parse`.
    pub fn as_ref(&self) -> (r: &str)
        ensures
            r@ == self@,
    {
        self.address.as_str()
    }
}

impl Clone for Email {
    fn clone(&self) -> (r: Email)
        ensures
            r@ == self@,
    {
        Email { address: self.address.clone() }
    }
}

impl PartialEq for Email {
    fn eq(&self, other: &Email) -> (r: bool) {
        self.address == other.address
    }
}

impl vstd::std_specs::cmp::PartialEqSpecImpl for Email {
    open spec fn obeys_eq_spec() -> bool {
        true
    }

    open spec fn eq_spec(&self, other: &Email) -> bool {
        self@ == other@
    }
}

impl Eq for Email {

}

} // verus!
