use vstd::prelude::*;

use crate::email::Email;
use crate::errors::{BannedTokenStoreError, TwoFACodeStoreError, UserStoreError};
use crate::login_attempt_id::LoginAttemptId;
use crate::password::Password;
use crate::two_fa_code::TwoFACode;
use crate::user::User;

verus! {

/// Registered users, by address. Users are only ever added.
///
/// Each store trait has a model (`users`, `banned`, `codes`) and a flag
/// `may_fail`. Only a store with `!may_fail()` promises anything about its
/// model: it never reports `UnexpectedError`, and each call changes the model
/// as stated. A backend written outside this library (a database, a
/// key-value server) cannot write spec functions; it keeps the defaults,
/// `may_fail() == true`, under which the contracts ask nothing of it but to
/// keep that flag.
pub trait UserStore {
    /// Each registered address with its credential and its 2FA flag.
    closed spec fn users(&self) -> Map<Seq<char>, (Seq<char>, bool)> {
        Map::empty()
    }

    /// Whether a call may fail with `UnexpectedError` (a backend fault).
    open spec fn may_fail(&self) -> bool {
        true
    }

    /// Adds a user whose address is not yet registered.
    fn add_user(&mut self, user: User) -> (r: Result<(), UserStoreError>)
        ensures
            final(self).may_fail() == old(self).may_fail(),
            !old(self).may_fail() ==> !(r matches Err(UserStoreError::UnexpectedError(_))),
            !old(self).may_fail() ==> match r {
                Ok(()) => !old(self).users().contains_key(user.email@) && final(self).users()
                    == old(self).users().insert(user.email@, user.record()),
                Err(UserStoreError::UserAlreadyExists) => old(self).users().contains_key(
                    user.email@,
                ) && final(self).users() == old(self).users(),
                Err(UserStoreError::UnexpectedError(_)) => final(self).users() == old(
                    self,
                ).users(),
                Err(_) => false,
            },
    ;

    /// The user registered under `email`.
    fn get_user(&self, email: &Email) -> (r: Result<User, UserStoreError>)
        ensures
            !self.may_fail() ==> !(r matches Err(UserStoreError::UnexpectedError(_))),
            !self.may_fail() ==> match r {
                Ok(u) => self.users().contains_key(email@) && u.email@ == email@ && u.record()
                    == self.users()[email@],
                Err(UserStoreError::UserNotFound) => !self.users().contains_key(email@),
                Err(UserStoreError::UnexpectedError(_)) => true,
                Err(_) => false,
            },
    ;

    /// Whether `password` is the credential of the user registered under `email`.
    fn validate_user(&self, email: &Email, password: &Password) -> (r: Result<(), UserStoreError>)
        ensures
            !self.may_fail() ==> !(r matches Err(UserStoreError::UnexpectedError(_))),
            !self.may_fail() ==> match r {
                Ok(()) => self.users().contains_key(email@) && self.users()[email@].0
                    == password@,
                Err(UserStoreError::InvalidCredentials) => self.users().contains_key(email@)
                    && self.users()[email@].0 != password@,
                Err(UserStoreError::UserNotFound) => !self.users().contains_key(email@),
                Err(UserStoreError::UnexpectedError(_)) => true,
                Err(_) => false,
            },
    ;
}

/// The set of revoked session tokens.
pub trait BannedTokenStore {
    /// The tokens revoked so far.
    closed spec fn banned(&self) -> Set<Seq<char>> {
        Set::empty()
    }

    /// Whether a call may fail with `UnexpectedError` (a backend fault).
    open spec fn may_fail(&self) -> bool {
        true
    }

    /// Revokes `token`; revoking one twice is no error.
    fn add_banned_token(&mut self, token: String) -> (r: Result<(), BannedTokenStoreError>)
        ensures
            final(self).may_fail() == old(self).may_fail(),
            !old(self).may_fail() ==> r is Ok && final(self).banned() == old(self).banned().insert(
                token@,
            ),
    ;

    /// Whether `token` is revoked.
    fn check_banned_token(&self, token: &str) -> (r: Result<bool, BannedTokenStoreError>)
        ensures
            !self.may_fail() ==> r == Ok::<bool, BannedTokenStoreError>(self.banned().contains(token@)),
    ;
}

/// Pending two-factor challenges: at most one per address.
pub trait TwoFACodeStore {
    /// Each address with a pending challenge, with its attempt id and code.
    closed spec fn codes(&self) -> Map<Seq<char>, (Seq<char>, Seq<char>)> {
        Map::empty()
    }

    /// Whether a call may fail with `UnexpectedError` (a backend fault).
    open spec fn may_fail(&self) -> bool {
        true
    }

    /// Records a challenge for `email`, replacing any earlier one.
    fn add_code(&mut self, email: Email, login_attempt_id: LoginAttemptId, code: TwoFACode) -> (r:
        Result<(), TwoFACodeStoreError>)
        ensures
            final(self).may_fail() == old(self).may_fail(),
            !old(self).may_fail() ==> r is Ok && final(self).codes() == old(self).codes().insert(
                email@,
                (login_attempt_id@, code@),
            ),
    ;

    /// Removes the challenge of `email`.
    fn remove_code(&mut self, email: &Email) -> (r: Result<(), TwoFACodeStoreError>)
        ensures
            final(self).may_fail() == old(self).may_fail(),
            !old(self).may_fail() ==> !(r matches Err(TwoFACodeStoreError::UnexpectedError(_))),
            !old(self).may_fail() ==> match r {
                Ok(()) => final(self).codes() == old(self).codes().remove(email@),
                Err(TwoFACodeStoreError::LoginAttemptIdNotFound) => !old(self).codes().contains_key(
                    email@,
                ) && final(self).codes() == old(self).codes(),
                Err(TwoFACodeStoreError::UnexpectedError(_)) => final(self).codes() == old(
                    self,
                ).codes(),
            },
    ;

    /// The pending challenge of `email`.
    fn get_code(&self, email: &Email) -> (r: Result<(LoginAttemptId, TwoFACode), TwoFACodeStoreError>)
        ensures
            !self.may_fail() ==> !(r matches Err(TwoFACodeStoreError::UnexpectedError(_))),
            !self.may_fail() ==> match r {
                Ok((id, code)) => self.codes().contains_key(email@) && self.codes()[email@] == (
                id@,
                code@,
                ),
                Err(TwoFACodeStoreError::LoginAttemptIdNotFound) => !self.codes().contains_key(
                    email@,
                ),
                Err(TwoFACodeStoreError::UnexpectedError(_)) => true,
            },
    ;
}

} // verus!
