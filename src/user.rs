use vstd::prelude::*;

use crate::email::Email;
use crate::password::Password;

verus! {

/// A registered user: the address, the credential given at signup, and
/// whether a second factor is asked for at login.
pub struct User {
    pub email: Email,
    pub password: Password,
    pub requires_2fa: bool,
}

impl User {
    pub fn new(email: Email, password: Password, requires_2fa: bool) -> (r: User)
        ensures
            r.email@ == email@,
            r.password@ == password@,
            r.requires_2fa == requires_2fa,
    {
        User { email, password, requires_2fa }
    }

    /// What a user store keeps of this user under its address.
    pub open spec fn record(&self) -> (Seq<char>, bool) {
        (self.password@, self.requires_2fa)
    }
}

impl Clone for User {
    fn clone(&self) -> (r: User)
        ensures
            r.email@ == self.email@,
            r.record() == self.record(),
    {
        User {
            email: self.email.clone(),
            password: self.password.clone(),
            requires_2fa: self.requires_2fa,
        }
    }
}

impl PartialEq for User {
    fn eq(&self, other: &User) -> (r: bool) {
        self.email == other.email && self.password == other.password && self.requires_2fa
            == other.requires_2fa
    }
}

impl vstd::std_specs::cmp::PartialEqSpecImpl for User {
    open spec fn obeys_eq_spec() -> bool {
        true
    }

    open spec fn eq_spec(&self, other: &User) -> bool {
        self.email@ == other.email@ && self.record() == other.record()
    }
}

} // verus!
