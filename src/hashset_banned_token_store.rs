use vstd::prelude::*;

use crate::data_stores::BannedTokenStore;
use crate::errors::BannedTokenStoreError;

verus! {

/// Revoked tokens held in memory, for tests and local runs. Entries are
/// kept for the life of the process.
pub struct HashSetBannedTokenStore {
    banned_tokens: Vec<String>,
}

impl HashSetBannedTokenStore {
    pub fn new() -> (r: HashSetBannedTokenStore)
        ensures
            r.banned() == Set::<Seq<char>>::empty(),
    {
        let r = HashSetBannedTokenStore { banned_tokens: Vec::new() };
        assert(r.banned() =~= Set::<Seq<char>>::empty());
        r
    }
}

impl Default for HashSetBannedTokenStore {
    fn default() -> (r: HashSetBannedTokenStore)
        ensures
            r.banned() == Set::<Seq<char>>::empty(),
    {
        HashSetBannedTokenStore::new()
    }
}

impl BannedTokenStore for HashSetBannedTokenStore {
    open spec fn may_fail(&self) -> bool {
        false
    }

    closed spec fn banned(&self) -> Set<Seq<char>> {
        Set::new(
            |t: Seq<char>|
                exists|i: int| 0 <= i < self.banned_tokens@.len() && #[trigger] self.banned_tokens@[i]@ == t,
        )
    }

    fn add_banned_token(&mut self, token: String) -> (r: Result<(), BannedTokenStoreError>)
        ensures
            r is Ok,
    {
        let ghost before = self.banned();
        let ghost old_tokens = self.banned_tokens@;
        let ghost t = token@;
        self.banned_tokens.push(token);
        assert forall|s: Seq<char>| #[trigger] self.banned().contains(s) == before.insert(t).contains(s) by {
            if before.contains(s) {
                let i = choose|i: int| 0 <= i < old_tokens.len() && #[trigger] old_tokens[i]@ == s;
                assert(self.banned_tokens@[i] == old_tokens[i]);
            }
            if self.banned().contains(s) && s != t {
                let i = choose|i: int| 0 <= i < self.banned_tokens@.len() && #[trigger] self.banned_tokens@[i]@ == s;
                assert(i < old_tokens.len());
                assert(old_tokens[i] == self.banned_tokens@[i]);
            }
            if s == t {
                assert(self.banned_tokens@[old_tokens.len() as int]@ == s);
            }
        }
        assert(self.banned() =~= before.insert(t));
        Ok(())
    }

    fn check_banned_token(&self, token: &str) -> (r: Result<bool, BannedTokenStoreError>)
        ensures
            r is Ok,
    {
        let wanted = token.to_owned();
        let mut i: usize = 0;
        while i < self.banned_tokens.len()
            invariant
                i <= self.banned_tokens@.len(),
                wanted@ == token@,
                forall|j: int| 0 <= j < i ==> #[trigger] self.banned_tokens@[j]@ != token@,
            decreases self.banned_tokens@.len() - i,
        {
            if self.banned_tokens[i] == wanted {
                assert(self.banned_tokens@[i as int]@ == token@);
                return Ok(true);
            }
            i = i + 1;
        }
        Ok(false)
    }
}

} // verus!
