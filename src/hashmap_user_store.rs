use vstd::prelude::*;

use crate::data_stores::UserStore;
use crate::email::Email;
use crate::entries::Entries;
use crate::errors::UserStoreError;
use crate::password::Password;
use crate::user::User;

verus! {

/// Users held in memory, for tests and local runs.
pub struct HashMapUserStore {
    users: Entries<User>,
}

impl HashMapUserStore {
    pub fn new() -> (r: HashMapUserStore)
        ensures
            r.users() == Map::<Seq<char>, (Seq<char>, bool)>::empty(),
    {
        let r = HashMapUserStore { users: Entries::new() };
        assert(r.users() =~= Map::<Seq<char>, (Seq<char>, bool)>::empty());
        r
    }
}

impl Default for HashMapUserStore {
    fn default() -> (r: HashMapUserStore)
        ensures
            r.users() == Map::<Seq<char>, (Seq<char>, bool)>::empty(),
    {
        HashMapUserStore::new()
    }
}

impl UserStore for HashMapUserStore {
    open spec fn may_fail(&self) -> bool {
        false
    }

    closed spec fn users(&self) -> Map<Seq<char>, (Seq<char>, bool)> {
        Map::new(|k: Seq<char>| self.users@.contains_key(k), |k: Seq<char>| self.users@[k].record())
    }

    fn add_user(&mut self, user: User) -> (r: Result<(), UserStoreError>)
        ensures
            r is Ok <==> !old(self).users().contains_key(user.email@),
    {
        let ghost before = self.users();
        if self.users.contains_key(user.email.as_string()) {
            return Err(UserStoreError::UserAlreadyExists);
        }
        let key = user.email.as_string().clone();
        let ghost rec = user.record();
        self.users.insert(key, user);
        assert(self.users() =~= before.insert(key@, rec));
        Ok(())
    }

    fn get_user(&self, email: &Email) -> (r: Result<User, UserStoreError>)
        ensures
            r is Ok <==> self.users().contains_key(email@),
    {
        match self.users.get(email.as_string()) {
            Some(u) => {
                Ok(
                    User {
                        email: email.clone(),
                        password: u.password.clone(),
                        requires_2fa: u.requires_2fa,
                    },
                )
            },
            None => Err(UserStoreError::UserNotFound),
        }
    }

    fn validate_user(&self, email: &Email, password: &Password) -> (r: Result<(), UserStoreError>)
        ensures
            !(r matches Err(UserStoreError::UnexpectedError(_))),
    {
        match self.users.get(email.as_string()) {
            Some(u) => {
                if u.password == *password {
                    Ok(())
                } else {
                    Err(UserStoreError::InvalidCredentials)
                }
            },
            None => Err(UserStoreError::UserNotFound),
        }
    }
}

} // verus!
