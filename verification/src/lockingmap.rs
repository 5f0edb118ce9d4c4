//! A map kept in a std hash map; sharing it between tasks is left to a lock
//! around it. Serves as a baseline for the maps that do without a lock.
use vstd::prelude::*;
use vstd::hash_map::StringHashMap;

use crate::map_spec::{get_or_create, value_of, view_of, Contents};

verus! {

/// A map of strings to strings, read and extended in place.
pub struct LockingMap {
    map: StringHashMap<String>,
}

impl LockingMap {
    /// What the map holds.
    pub closed spec fn contents(self) -> Contents {
        self.map@.map_values(|v: String| v@)
    }

    /// An empty map.
    pub fn new() -> (r: Self)
        ensures
            r.contents() == Map::<Seq<char>, Seq<char>>::empty(),
    {
        let r = LockingMap { map: StringHashMap::new() };
        proof {
            assert(r.contents() =~= Map::<Seq<char>, Seq<char>>::empty());
        }
        r
    }

    /// The value held for `key`, if any.
    pub fn get_if_present(&self, key: &String) -> (r: Option<String>)
        ensures
            view_of(r) == value_of(self.contents(), key@),
    {
        match self.map.get(key.as_str()) {
            Some(value) => Some(value.clone()),
            None => None,
        }
    }

    /// The value held for `key`; when there is none, makes it with `factory`
    /// and adds it first.
    pub fn get<F: Fn(&String) -> String>(&mut self, key: &String, factory: F) -> (r: String)
        requires
            !old(self).contents().contains_key(key@) ==> factory.requires((key,)),
        ensures
            (r@, final(self).contents()) == get_or_create(old(self).contents(), key@, r@),
            !old(self).contents().contains_key(key@) ==> factory.ensures((key,), r),
    {
        match self.get_if_present(key) {
            Some(value) => value,
            None => self.create_if_necessary(key.clone(), factory),
        }
    }

    /// Under the lock: gives back the value held for `key`, making and adding
    /// it with `factory` when there is none.
    fn create_if_necessary<F: Fn(&String) -> String>(&mut self, key: String, factory: F) -> (r: String)
        requires
            !old(self).contents().contains_key(key@) ==> factory.requires((&key,)),
        ensures
            (r@, final(self).contents()) == get_or_create(old(self).contents(), key@, r@),
            !old(self).contents().contains_key(key@) ==> factory.ensures((&key,), r),
    {
        match self.map.get(key.as_str()) {
            Some(value_ref) => value_ref.clone(),
            None => {
                let value = factory(&key);
                self.map.insert(key, value.clone());
                proof {
                    assert(self.contents() =~= old(self).contents().insert(key@, value@));
                }
                value
            },
        }
    }
}

} // verus!
