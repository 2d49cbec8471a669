//! An in-memory key-value store of named configuration secrets.
//!
//! The store is filled once, before startup runs, and is only read after
//! that. Its mathematical model is a map from secret name to secret value;
//! a later entry for a name shadows an earlier one.

use vstd::prelude::*;

verus! {

/// A key-value store of named string secrets.
pub struct SecretStore {
    entries: Vec<(String, String)>,
}

impl View for SecretStore {
    type V = Map<Seq<char>, Seq<char>>;

    closed spec fn view(&self) -> Map<Seq<char>, Seq<char>> {
        SecretStore::map_of(self.entries@)
    }
}

impl SecretStore {
    /// The map described by a sequence of entries: each entry binds its name
    /// to its value, and a later entry for the same name wins.
    pub closed spec fn map_of(entries: Seq<(String, String)>) -> Map<Seq<char>, Seq<char>>
        decreases entries.len(),
    {
        if entries.len() == 0 {
            Map::empty()
        } else {
            SecretStore::map_of(entries.drop_last()).insert(
                entries.last().0@,
                entries.last().1@,
            )
        }
    }

    /// An empty store, with no secret set.
    pub fn new() -> (store: SecretStore)
        ensures
            store@ == Map::<Seq<char>, Seq<char>>::empty(),
    {
        SecretStore { entries: Vec::new() }
    }

    /// Sets the secret `name` to `value`, replacing any earlier value.
    pub fn insert(&mut self, name: &str, value: &str)
        ensures
            final(self)@ == old(self)@.insert(name@, value@),
    {
        let entry = (name.to_owned(), value.to_owned());
        let ghost prev = self.entries@;
        let ghost e = entry;
        self.entries.push(entry);
        proof {
            assert(self.entries@.drop_last() =~= prev);
            assert(self.entries@.last() == e);
        }
    }

    /// Looks the secret `name` up: its value when it is set, `None` when not.
    pub fn get(&self, name: &str) -> (r: Option<String>)
        ensures
            match r {
                Some(value) => self@.contains_key(name@) && value@ == self@[name@],
                None => !self@.contains_key(name@),
            },
    {
        let key = name.to_owned();
        let mut i: usize = self.entries.len();
        proof {
            assert(self.entries@.take(i as int) =~= self.entries@);
        }
        while i > 0
            invariant
                i <= self.entries.len(),
                key@ == name@,
                SecretStore::map_of(self.entries@).contains_key(name@)
                    == SecretStore::map_of(self.entries@.take(i as int)).contains_key(name@),
                SecretStore::map_of(self.entries@).contains_key(name@)
                    ==> SecretStore::map_of(self.entries@.take(i as int))[name@]
                        == SecretStore::map_of(self.entries@)[name@],
            decreases i,
        {
            i = i - 1;
            proof {
                let s = self.entries@;
                let shorter = s.take(i as int);
                let longer = s.take(i + 1);
                assert(longer.drop_last() =~= shorter);
                assert(longer.last() == s[i as int]);
                assert(SecretStore::map_of(longer)
                    == SecretStore::map_of(shorter).insert(s[i as int].0@, s[i as int].1@));
            }
            if self.entries[i].0 == key {
                return Some(self.entries[i].1.clone());
            }
        }
        proof {
            assert(self.entries@.take(0) =~= Seq::<(String, String)>::empty());
        }
        None
    }
}

} // verus!
