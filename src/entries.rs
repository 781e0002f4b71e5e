use vstd::prelude::*;

verus! {

/// Entries keyed by text, at most one per key: the in-memory backing of the
/// user and challenge stores. Its view is the map from each key to its value.
pub struct Entries<V> {
    keys: Vec<String>,
    vals: Vec<V>,
    model: Ghost<Map<Seq<char>, V>>,
}

impl<V> View for Entries<V> {
    type V = Map<Seq<char>, V>;

    closed spec fn view(&self) -> Map<Seq<char>, V> {
        self.model@
    }
}

impl<V> Entries<V> {
    #[verifier::type_invariant]
    closed spec fn inv(&self) -> bool {
        &&& self.keys@.len() == self.vals@.len()
        &&& forall|i: int|
            0 <= i < self.keys@.len() ==> #[trigger] self.model@.contains_key(self.keys@[i]@)
                && self.model@[self.keys@[i]@] == self.vals@[i]
        &&& forall|k: Seq<char>|
            #[trigger] self.model@.contains_key(k) ==> exists|i: int|
                0 <= i < self.keys@.len() && #[trigger] self.keys@[i]@ == k
        &&& forall|i: int, j: int|
            0 <= i < self.keys@.len() && 0 <= j < self.keys@.len() && #[trigger] self.keys@[i]@
                == #[trigger] self.keys@[j]@ ==> i == j
    }

    pub fn new() -> (r: Entries<V>)
        ensures
            r@ == Map::<Seq<char>, V>::empty(),
    {
        Entries { keys: Vec::new(), vals: Vec::new(), model: Ghost(Map::empty()) }
    }

    /// The position of `key`, if it is present.
    fn find(&self, key: &String) -> (r: Option<usize>)
        ensures
            r is None <==> !self@.contains_key(key@),
            r matches Some(i) ==> i < self.keys@.len() && i < self.vals@.len() && self.keys@[i as int]@
                == key@ && self@[key@] == self.vals@[i as int],
    {
        proof {
            use_type_invariant(self);
        }
        let mut i: usize = 0;
        while i < self.keys.len()
            invariant
                i <= self.keys@.len(),
                forall|j: int| 0 <= j < i ==> #[trigger] self.keys@[j]@ != key@,
            decreases self.keys@.len() - i,
        {
            if self.keys[i] == *key {
                proof {
                    use_type_invariant(self);
                    assert(self.model@.contains_key(self.keys@[i as int]@));
                }
                return Some(i);
            }
            i = i + 1;
        }
        proof {
            if self@.contains_key(key@) {
                let j = choose|j: int| 0 <= j < self.keys@.len() && #[trigger] self.keys@[j]@ == key@;
                assert(self.keys@[j]@ != key@);
            }
        }
        None
    }

    pub fn contains_key(&self, key: &String) -> (r: bool)
        ensures
            r == self@.contains_key(key@),
    {
        self.find(key).is_some()
    }

    pub fn get(&self, key: &String) -> (r: Option<&V>)
        ensures
            r is Some <==> self@.contains_key(key@),
            r matches Some(v) ==> *v == self@[key@],
    {
        match self.find(key) {
            Some(i) => Some(&self.vals[i]),
            None => None,
        }
    }

    /// Sets the value of `key`, replacing any earlier one.
    pub fn insert(&mut self, key: String, val: V)
        ensures
            final(self)@ == old(self)@.insert(key@, val),
    {
        let mut taken = Entries::new();
        core::mem::swap(self, &mut taken);
        proof {
            use_type_invariant(&taken);
        }
        let ghost old_map = taken@;
        let ghost k = key@;
        let found = taken.find(&key);
        let Entries { mut keys, mut vals, model: _ } = taken;
        let ghost new_map = old_map.insert(k, val);
        match found {
            Some(i) => {
                let ghost old_vals = vals@;
                vals.set(i, val);
                proof {
                    assert forall|j: int| 0 <= j < keys@.len() implies #[trigger] new_map.contains_key(
                        keys@[j]@,
                    ) && new_map[keys@[j]@] == vals@[j] by {
                        if j != i {
                            assert(keys@[j]@ != k);
                            assert(vals@[j] == old_vals[j]);
                            assert(old_map.contains_key(keys@[j]@));
                        }
                    }
                    assert forall|m: Seq<char>| #[trigger] new_map.contains_key(m) implies exists|j: int|
                        0 <= j < keys@.len() && #[trigger] keys@[j]@ == m by {
                        if m != k {
                            assert(old_map.contains_key(m));
                        } else {
                            assert(keys@[i as int]@ == m);
                        }
                    }
                }
            },
            None => {
                let ghost old_keys = keys@;
                keys.push(key);
                vals.push(val);
                proof {
                    let n = old_keys.len() as int;
                    assert(keys@[n]@ == k);
                    assert forall|j: int| 0 <= j < keys@.len() implies #[trigger] new_map.contains_key(
                        keys@[j]@,
                    ) && new_map[keys@[j]@] == vals@[j] by {
                        if j < n {
                            assert(keys@[j] == old_keys[j]);
                            assert(old_map.contains_key(old_keys[j]@));
                        }
                    }
                    assert forall|m: Seq<char>| #[trigger] new_map.contains_key(m) implies exists|j: int|
                        0 <= j < keys@.len() && #[trigger] keys@[j]@ == m by {
                        if m != k {
                            assert(old_map.contains_key(m));
                            let j = choose|j: int|
                                0 <= j < old_keys.len() && #[trigger] old_keys[j]@ == m;
                            assert(keys@[j] == old_keys[j]);
                        } else {
                            assert(keys@[n]@ == m);
                        }
                    }
                    assert forall|a: int, b: int|
                        0 <= a < keys@.len() && 0 <= b < keys@.len() && #[trigger] keys@[a]@
                            == #[trigger] keys@[b]@ implies a == b by {
                        if a < n && b == n {
                            assert(old_map.contains_key(old_keys[a]@));
                        }
                        if b < n && a == n {
                            assert(old_map.contains_key(old_keys[b]@));
                        }
                        if a < n && b < n {
                            assert(old_keys[a] == keys@[a] && old_keys[b] == keys@[b]);
                        }
                    }
                }
            },
        }
        *self = Entries { keys, vals, model: Ghost(new_map) };
    }

    /// Takes the entry of `key` out, handing back its value.
    pub fn remove(&mut self, key: &String) -> (r: Option<V>)
        ensures
            r is Some <==> old(self)@.contains_key(key@),
            r matches Some(v) ==> v == old(self)@[key@],
            final(self)@ == old(self)@.remove(key@),
    {
        let mut taken = Entries::new();
        core::mem::swap(self, &mut taken);
        proof {
            use_type_invariant(&taken);
        }
        let ghost old_map = taken@;
        let found = taken.find(key);
        match found {
            Some(i) => {
                let Entries { mut keys, mut vals, model: _ } = taken;
                let ghost old_keys = keys@;
                let ghost old_vals = vals@;
                let ghost new_map = old_map.remove(key@);
                let _ = keys.remove(i);
                let v = vals.remove(i);
                proof {
                    let ii = i as int;
                    assert forall|j: int| 0 <= j < keys@.len() implies #[trigger] new_map.contains_key(
                        keys@[j]@,
                    ) && new_map[keys@[j]@] == vals@[j] by {
                        assert(old_keys[ii]@ == key@);
                        if j < ii {
                            assert(keys@[j] == old_keys[j]);
                            assert(vals@[j] == old_vals[j]);
                            assert(old_map.contains_key(old_keys[j]@));
                            assert(old_keys[j]@ != old_keys[ii]@);
                        } else {
                            assert(keys@[j] == old_keys[j + 1]);
                            assert(vals@[j] == old_vals[j + 1]);
                            assert(old_map.contains_key(old_keys[j + 1]@));
                            assert(old_keys[j + 1]@ != old_keys[ii]@);
                        }
                    }
                    assert forall|m: Seq<char>| #[trigger] new_map.contains_key(m) implies exists|j: int|
                        0 <= j < keys@.len() && #[trigger] keys@[j]@ == m by {
                        assert(old_map.contains_key(m));
                        let j = choose|j: int| 0 <= j < old_keys.len() && #[trigger] old_keys[j]@ == m;
                        assert(j != ii);
                        if j < ii {
                            assert(keys@[j] == old_keys[j]);
                        } else {
                            assert(keys@[j - 1] == old_keys[j]);
                        }
                    }
                    assert forall|a: int, b: int|
                        0 <= a < keys@.len() && 0 <= b < keys@.len() && #[trigger] keys@[a]@
                            == #[trigger] keys@[b]@ implies a == b by {
                        let oa = if a < ii {
                            a
                        } else {
                            a + 1
                        };
                        let ob = if b < ii {
                            b
                        } else {
                            b + 1
                        };
                        assert(keys@[a] == old_keys[oa]);
                        assert(keys@[b] == old_keys[ob]);
                    }
                }
                assert(keys@.len() == vals@.len());
                *self = Entries { keys, vals, model: Ghost(new_map) };
                Some(v)
            },
            None => {
                assert(old_map.remove(key@) =~= old_map);
                *self = taken;
                None
            },
        }
    }
}

} // verus!
