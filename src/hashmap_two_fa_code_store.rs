use vstd::prelude::*;

use crate::data_stores::TwoFACodeStore;
use crate::email::Email;
use crate::entries::Entries;
use crate::errors::TwoFACodeStoreError;
use crate::login_attempt_id::LoginAttemptId;
use crate::two_fa_code::TwoFACode;

verus! {

/// Pending challenges held in memory, for tests and local runs. Entries do
/// not expire here.
pub struct HashMapTwoFACodeStore {
    codes: Entries<(LoginAttemptId, TwoFACode)>,
}

impl HashMapTwoFACodeStore {
    pub fn new() -> (r: HashMapTwoFACodeStore)
        ensures
            r.codes() == Map::<Seq<char>, (Seq<char>, Seq<char>)>::empty(),
    {
        let r = HashMapTwoFACodeStore { codes: Entries::new() };
        assert(r.codes() =~= Map::<Seq<char>, (Seq<char>, Seq<char>)>::empty());
        r
    }
}

impl Default for HashMapTwoFACodeStore {
    fn default() -> (r: HashMapTwoFACodeStore)
        ensures
            r.codes() == Map::<Seq<char>, (Seq<char>, Seq<char>)>::empty(),
    {
        HashMapTwoFACodeStore::new()
    }
}

impl TwoFACodeStore for HashMapTwoFACodeStore {
    open spec fn may_fail(&self) -> bool {
        false
    }

    closed spec fn codes(&self) -> Map<Seq<char>, (Seq<char>, Seq<char>)> {
        Map::new(
            |k: Seq<char>| self.codes@.contains_key(k),
            |k: Seq<char>| (self.codes@[k].0@, self.codes@[k].1@),
        )
    }

    fn add_code(&mut self, email: Email, login_attempt_id: LoginAttemptId, code: TwoFACode) -> (r:
        Result<(), TwoFACodeStoreError>)
        ensures
            r is Ok,
    {
        let ghost before = self.codes();
        let ghost entry = (login_attempt_id@, code@);
        let key = email.as_string().clone();
        self.codes.insert(key, (login_attempt_id, code));
        assert(self.codes() =~= before.insert(key@, entry));
        Ok(())
    }

    fn remove_code(&mut self, email: &Email) -> (r: Result<(), TwoFACodeStoreError>)
        ensures
            r is Ok <==> old(self).codes().contains_key(email@),
    {
        let ghost before = self.codes();
        match self.codes.remove(email.as_string()) {
            Some(_) => {
                assert(self.codes() =~= before.remove(email@));
                Ok(())
            },
            None => {
                assert(self.codes() =~= before);
                Err(TwoFACodeStoreError::LoginAttemptIdNotFound)
            },
        }
    }

    fn get_code(&self, email: &Email) -> (r: Result<(LoginAttemptId, TwoFACode), TwoFACodeStoreError>)
        ensures
            r is Ok <==> self.codes().contains_key(email@),
    {
        match self.codes.get(email.as_string()) {
            Some(entry) => Ok((entry.0.clone(), entry.1.clone())),
            None => Err(TwoFACodeStoreError::LoginAttemptIdNotFound),
        }
    }
}

} // verus!
