//! A map kept as versioned data: reads go to the latest version of the map,
//! and a missing key is added by a change that the single writer applies to
//! the latest map.
use vstd::prelude::*;

use crate::im_map::{im_contents, im_get, im_new, im_update, StrMap};
use crate::map_spec::{get_or_create, value_of, view_of, Contents};
use crate::single_writer_versioned::version::VersionChain;
use crate::single_writer_versioned::{Versioned, VersionedUpdater};

verus! {

/// A reader of the versioned map.
#[derive(Clone, Copy, Debug)]
pub struct NonLockingMap {
    versioned: Versioned,
}

impl NonLockingMap {
    /// The reader of the versions.
    pub closed spec fn versioned(self) -> Versioned {
        self.versioned
    }

    /// What the latest version of the map holds.
    pub open spec fn latest_contents(chain: VersionChain<StrMap>) -> Contents {
        im_contents(chain@.last())
    }

    /// An empty map: a reader, the single writer and the chain, whose only
    /// version is the empty map.
    pub fn new() -> (r: (NonLockingMap, VersionedUpdater, VersionChain<StrMap>))
        ensures
            r.2.wf(),
            r.2@.len() == 1,
            NonLockingMap::latest_contents(r.2) == Map::<Seq<char>, Seq<char>>::empty(),
            r.2.has(r.0.versioned().current()),
            r.1.wf(r.2),
            !r.1.stopped(),
    {
        let (versioned, writer, chain) = Versioned::from_initial(im_new());
        (NonLockingMap { versioned }, writer, chain)
    }

    /// The value that the latest map holds for `key`, if any.
    pub fn get_if_present(&mut self, chain: &VersionChain<StrMap>, key: &String) -> (r: Option<String>)
        requires
            chain.wf(),
            chain.has(old(self).versioned().current()),
        ensures
            final(self).versioned().current().index() == chain.latest(),
            view_of(r) == value_of(NonLockingMap::latest_contents(*chain), key@),
    {
        let lookup = |map: &StrMap| -> (found: Option<String>)
            ensures
                view_of(found) == value_of(im_contents(*map), key@),
            { NonLockingMap::lookup(map, key) };
        self.versioned.with_latest(chain, lookup)
    }

    /// The value that `map` holds for `key`, if any.
    pub fn lookup(map: &StrMap, key: &String) -> (r: Option<String>)
        ensures
            view_of(r) == value_of(im_contents(*map), key@),
    {
        match im_get(map, key) {
            Some(value) => Some(value.clone()),
            None => None,
        }
    }

    /// The change that a request for `key` asks the writer to apply to the
    /// latest map: the value to answer with, and the map to become the next
    /// version, if the key had to be added. The value held for `key` is the
    /// answer when there is one; otherwise `factory` makes it and it is added.
    pub fn create_update<F: Fn(&String) -> String>(map: &StrMap, key: String, factory: F) -> (r: (
        String,
        Option<StrMap>,
    ))
        requires
            !im_contents(*map).contains_key(key@) ==> factory.requires((&key,)),
        ensures
            im_contents(*map).contains_key(key@) ==> r.1 is None && r.0@ == im_contents(*map)[key@],
            !im_contents(*map).contains_key(key@) ==> {
                &&& factory.ensures((&key,), r.0)
                &&& r.1 matches Some(new_map) && (r.0@, im_contents(new_map)) == get_or_create(
                    im_contents(*map),
                    key@,
                    r.0@,
                )
            },
    {
        match im_get(map, &key) {
            Some(value) => (value.clone(), None),
            None => {
                let new_value = factory(&key);
                let new_map = im_update(map, key, new_value.clone());
                (new_value, Some(new_map))
            },
        }
    }
}

} // verus!
