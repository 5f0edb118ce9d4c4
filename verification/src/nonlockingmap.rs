//! A map whose writer publishes each new map in one shared place; readers
//! look keys up in whatever map is published, and a request for a missing key
//! is handed to the writer, which adds the key and publishes the result.
use vstd::prelude::*;

use crate::im_map::{im_clone, im_contents, im_get, im_new, im_update, StrMap};
use crate::map_spec::{value_of, view_of, Contents};

verus! {

/// A slot whose value can be exchanged for a new one.
pub struct Swappable<T> {
    instance: T,
}

impl<T> Swappable<T> {
    /// The value in the slot.
    pub closed spec fn instance(self) -> T {
        self.instance
    }

    pub fn new(instance: T) -> (r: Self)
        ensures
            r.instance() == instance,
    {
        Swappable { instance }
    }

    /// Puts `new_instance` in the slot and gives back what was there.
    pub fn swap(&mut self, new_instance: T) -> (r: T)
        ensures
            r == old(self).instance(),
            final(self).instance() == new_instance,
    {
        let mut previous = new_instance;
        std::mem::swap(&mut self.instance, &mut previous);
        previous
    }
}

/// The shared place: the map that is published for readers.
pub struct NonLockingMap {
    map_ptr: StrMap,
}

impl NonLockingMap {
    /// What the published map holds.
    pub closed spec fn contents(self) -> Contents {
        im_contents(self.map_ptr)
    }

    /// An empty map: the published map, and the writer's own copy of it.
    pub fn new() -> (r: (NonLockingMap, StrMap))
        ensures
            r.0.contents() == Map::<Seq<char>, Seq<char>>::empty(),
            im_contents(r.1) == r.0.contents(),
    {
        let map = im_new();
        (NonLockingMap { map_ptr: im_clone(&map) }, map)
    }

    /// A second handle on the published map.
    pub fn clone_handle(&self) -> (r: NonLockingMap)
        ensures
            r.contents() == self.contents(),
    {
        NonLockingMap { map_ptr: im_clone(&self.map_ptr) }
    }

    /// The value that the map `map_ptr` holds for `key`, if any.
    pub fn get_sync(map_ptr: &StrMap, key: &String) -> (r: Option<String>)
        ensures
            view_of(r) == value_of(im_contents(*map_ptr), key@),
    {
        match im_get(map_ptr, key) {
            Some(val) => Some(val.clone()),
            None => None,
        }
    }

    fn get_sync_instance(&self, key: &String) -> (r: Option<String>)
        ensures
            view_of(r) == value_of(self.contents(), key@),
    {
        NonLockingMap::get_sync(&self.map_ptr, key)
    }

    /// The value that the published map holds for `key`, if any.
    pub fn get_if_present(&self, key: &String) -> (r: Option<String>)
        ensures
            view_of(r) == value_of(self.contents(), key@),
    {
        self.get_sync_instance(key)
    }

    /// The writer's step for a request for `key`: when the published map
    /// lacks `key`, makes its value with `factory`, adds it to the writer's
    /// map `map`, publishes the result and returns it; otherwise does nothing.
    pub fn create_if_necessary<F: Fn(&String) -> String>(&mut self, map: &StrMap, key: String, factory: F) -> (r:
        Option<StrMap>)
        requires
            !old(self).contents().contains_key(key@) ==> factory.requires((&key,)),
        ensures
            match r {
                None => {
                    &&& old(self).contents().contains_key(key@)
                    &&& final(self).contents() == old(self).contents()
                },
                Some(new_map) => {
                    &&& !old(self).contents().contains_key(key@)
                    &&& exists|made: String|
                        #![trigger factory.ensures((&key,), made)]
                        factory.ensures((&key,), made) && im_contents(new_map) == im_contents(*map).insert(
                            key@,
                            made@,
                        )
                    &&& final(self).contents() == im_contents(new_map)
                },
            },
    {
        match self.get_sync_instance(&key) {
            Some(_) => {
                // Nothing to do: several creations of the same key were queued.
                None
            },
            None => {
                let value = factory(&key);
                let updated = im_update(map, key.clone(), value);
                self.map_ptr = im_clone(&updated);
                Some(updated)
            },
        }
    }
}

/// What a pending read-or-create does when it is polled.
pub enum PollOutcome<F> {
    /// The key has a value: the future is done with it.
    Ready(String),
    /// The key has no value yet: hand the key and factory to the writer and
    /// wait to be woken.
    Send(String, F),
}

/// A read-or-create of `key`: ready as soon as the published map holds the
/// key; until then it hands its factory to the writer once.
pub struct MapReturnFuture<F> {
    key: String,
    factory: Option<F>,
}

impl<F> MapReturnFuture<F> {
    /// The key asked for.
    pub closed spec fn key(self) -> Seq<char> {
        self.key@
    }

    /// The factory, while it has not been handed over.
    pub closed spec fn factory(self) -> Option<F> {
        self.factory
    }

    pub fn new(key: String, factory: F) -> (r: Self)
        ensures
            r.key() == key@,
            r.factory() == Some(factory),
    {
        MapReturnFuture { key, factory: Some(factory) }
    }

    /// Whether the factory is still held, not yet handed over.
    pub fn has_factory(&self) -> (r: bool)
        ensures
            r == self.factory() is Some,
    {
        self.factory.is_some()
    }

    /// Polls against the published map: gives back the value when the map
    /// holds the key; otherwise hands the key and factory over, which may
    /// happen only once, as the writer wakes the future once it has added the key.
    pub fn poll(&mut self, published: &NonLockingMap) -> (r: PollOutcome<F>)
        requires
            old(self).factory() is Some || published.contents().contains_key(old(self).key()),
        ensures
            final(self).key() == old(self).key(),
            match r {
                PollOutcome::Ready(v) => {
                    &&& value_of(published.contents(), old(self).key()) == Some(v@)
                    &&& final(self).factory() == old(self).factory()
                },
                PollOutcome::Send(key, factory) => {
                    &&& !published.contents().contains_key(old(self).key())
                    &&& key@ == old(self).key()
                    &&& old(self).factory() == Some(factory)
                    &&& final(self).factory() is None
                },
            },
    {
        match published.get_if_present(&self.key) {
            Some(value) => PollOutcome::Ready(value),
            None => {
                let factory = self.factory.take().unwrap();
                PollOutcome::Send(self.key.clone(), factory)
            },
        }
    }
}

} // verus!
