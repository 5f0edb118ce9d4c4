//! A map whose readers keep their own copy, with the version it belongs
//! to, and replace it with the holder that their own write sends back; when
//! the copy is out of date, a reader takes the writer's latest holder before
//! it reads. The writer keeps the current map and the version counter.
use vstd::prelude::*;

use crate::im_map::{im_clone, im_contents, im_get, im_new, im_update, StrMap};
use crate::map_spec::{get_or_create, value_of, view_of, Contents};
use crate::versioned_map::{counts_versions, MapHolder};

verus! {

/// A reader: its copy of the map and the version of that copy.
pub struct NonPointerMap {
    map_holder: MapHolder,
}

/// The writer's side: the version counter, the current map, and (as ghost
/// state) what the map of every version so far held.
pub struct NonPointerWriter {
    latest_version: u64,
    current_map: StrMap,
    history: Ghost<Seq<Contents>>,
}

impl NonPointerWriter {
    /// The history holds one map per version, the current map last.
    pub closed spec fn wf(self) -> bool {
        &&& self.history@.len() == self.latest_version + 1
        &&& self.history@.last() == self.contents()
        &&& counts_versions(self.contents(), self.latest_version)
    }

    /// The number of the latest version.
    pub closed spec fn version(self) -> u64 {
        self.latest_version
    }

    /// What the current map holds.
    pub closed spec fn contents(self) -> Contents {
        im_contents(self.current_map)
    }

    /// What the map of each version so far held, oldest first.
    pub closed spec fn history(self) -> Seq<Contents> {
        self.history@
    }

    /// Whether `h` is a holder of a version of this writer, holding that
    /// version's map.
    pub open spec fn issued(self, h: MapHolder) -> bool {
        &&& h.version < self.history().len()
        &&& h.contents() == self.history()[h.version as int]
    }

    /// A holder of the latest version, to hand to readers whose copy is out of date.
    pub fn latest_holder(&self) -> (r: MapHolder)
        requires
            self.wf(),
        ensures
            r.version == self.version(),
            r.contents() == self.contents(),
            self.issued(r),
    {
        MapHolder { version: self.latest_version, map: im_clone(&self.current_map) }
    }

    /// The number of the latest version, in code.
    pub fn latest_version(&self) -> (r: u64)
        ensures
            r == self.version(),
    {
        self.latest_version
    }

    /// Whether a request for `key` can be served: always when the key is
    /// held; otherwise only while the version counter can still move on.
    pub fn can_serve(&self, key: &String) -> (r: bool)
        ensures
            r == (self.contents().contains_key(key@) || self.version() < u64::MAX),
    {
        match im_get(&self.current_map, key) {
            Some(_) => true,
            None => self.latest_version < u64::MAX,
        }
    }

    /// Serves one request for `key`: gives back the value held for `key`,
    /// creating it with `factory` when there is none, and the holder to send
    /// back to the reader who asked.
    pub fn get_or_create<F: Fn(&String) -> String>(&mut self, key: String, factory: F) -> (r: (
        String,
        MapHolder,
    ))
        requires
            old(self).wf(),
            !old(self).contents().contains_key(key@) ==> factory.requires((&key,)),
            !old(self).contents().contains_key(key@) ==> old(self).version() < u64::MAX,
        ensures
            final(self).wf(),
            (r.0@, final(self).contents()) == get_or_create(old(self).contents(), key@, r.0@),
            !old(self).contents().contains_key(key@) ==> factory.ensures((&key,), r.0),
            r.1.version == final(self).version(),
            r.1.contents() == final(self).contents(),
            final(self).issued(r.1),
            if old(self).contents().contains_key(key@) {
                &&& final(self).version() == old(self).version()
                &&& final(self).history() == old(self).history()
            } else {
                &&& final(self).version() == old(self).version() + 1
                &&& final(self).history() == old(self).history().push(final(self).contents())
            },
            forall|h: MapHolder| old(self).issued(h) ==> #[trigger] final(self).issued(h),
    {
        let (value, reply, updated) = NonPointerMap::create_if_necessary(
            &mut self.latest_version,
            &self.current_map,
            key,
            factory,
        );
        if let Some(new_map) = updated {
            self.current_map = new_map;
            let history: Ghost<Seq<Contents>> = Ghost(self.history@.push(im_contents(self.current_map)));
            self.history = history;
        }
        (value, reply)
    }
}

impl NonPointerMap {
    /// The holder this reader reads from.
    pub closed spec fn holder(self) -> MapHolder {
        self.map_holder
    }

    /// An empty map: a reader and the writer's side, both at version zero.
    pub fn new() -> (r: (NonPointerMap, NonPointerWriter))
        ensures
            r.1.wf(),
            r.1.version() == 0,
            r.1.contents() == Map::<Seq<char>, Seq<char>>::empty(),
            r.0.holder().version == 0,
            r.0.holder().contents() == r.1.contents(),
            r.1.issued(r.0.holder()),
    {
        let map = im_new();
        let history: Ghost<Seq<Contents>> = Ghost(Seq::empty().push(im_contents(map)));
        let writer = NonPointerWriter { latest_version: 0, current_map: im_clone(&map), history };
        let reader = NonPointerMap { map_holder: MapHolder { version: 0, map } };
        (reader, writer)
    }

    /// A second reader that starts from this reader's copy.
    pub fn clone_reader(&self) -> (r: NonPointerMap)
        ensures
            r.holder().version == self.holder().version,
            r.holder().contents() == self.holder().contents(),
    {
        NonPointerMap { map_holder: self.map_holder.clone_holder() }
    }

    /// The holder a reader reads from after it takes the holder that its last
    /// write sent back, if any.
    pub open spec fn taken(cached: MapHolder, received: Option<MapHolder>) -> MapHolder {
        match received {
            Some(h) => h,
            None => cached,
        }
    }

    /// Whether a reader holding `cached` needs the writer's latest holder:
    /// when the holder it takes is out of date.
    pub open spec fn needs_latest(cached: MapHolder, latest_version: u64, received: Option<MapHolder>) -> bool {
        NonPointerMap::taken(cached, received).version != latest_version
    }

    /// The holder a reader reads from: the holder it takes, when that belongs
    /// to the latest version; else the writer's latest holder.
    pub open spec fn refreshed(
        cached: MapHolder,
        latest_version: u64,
        latest: Option<MapHolder>,
        received: Option<MapHolder>,
    ) -> MapHolder {
        if NonPointerMap::needs_latest(cached, latest_version, received) {
            latest->0
        } else {
            NonPointerMap::taken(cached, received)
        }
    }

    /// Whether this reader needs the writer's latest holder to read at
    /// `latest_version`, given the holder its last write sent back.
    pub fn needs_latest_map(&self, latest_version: u64, received: &Option<MapHolder>) -> (r: bool)
        ensures
            r == NonPointerMap::needs_latest(self.holder(), latest_version, *received),
    {
        match received {
            Some(holder) => holder.version != latest_version,
            None => self.map_holder.version != latest_version,
        }
    }

    /// Takes the holder that this reader's last write sent back, if any, as
    /// its copy; replaces the copy with the writer's latest holder when it
    /// does not belong to `latest_version` (the latest holder is needed only
    /// then); and gives back the value held for `key`, if any.
    pub fn get_if_present(
        &mut self,
        latest_version: u64,
        latest: Option<MapHolder>,
        received: Option<MapHolder>,
        key: &String,
    ) -> (r: Option<String>)
        requires
            NonPointerMap::needs_latest(old(self).holder(), latest_version, received) ==> latest is Some,
        ensures
            final(self).holder() == NonPointerMap::refreshed(old(self).holder(), latest_version, latest, received),
            view_of(r) == value_of(final(self).holder().contents(), key@),
            received matches Some(h) ==> (h.version == latest_version ==> final(self).holder() == h
                && view_of(r) == value_of(h.contents(), key@)),
            (latest matches Some(l) ==> l.version == latest_version) ==> final(self).holder().version
                == latest_version,
    {
        if let Some(holder) = received {
            self.map_holder = holder;
        }
        if !self.map_holder.is_version(latest_version) {
            self.map_holder = latest.unwrap();
        }
        match im_get(&self.map_holder.map, key) {
            Some(value) => Some(value.clone()),
            None => None,
        }
    }

    /// Looks `key` up in `map`; when it is missing, makes its value with
    /// `factory` and adds it under the next version. Gives back the value,
    /// the holder to send back to the reader who asked, and the new map when
    /// one was made.
    pub fn create_if_necessary<F: Fn(&String) -> String>(
        latest_version: &mut u64,
        map: &StrMap,
        key: String,
        factory: F,
    ) -> (r: (String, MapHolder, Option<StrMap>))
        requires
            !im_contents(*map).contains_key(key@) ==> factory.requires((&key,)),
            !im_contents(*map).contains_key(key@) ==> *old(latest_version) < u64::MAX,
        ensures
            (r.0@, r.1.contents()) == get_or_create(im_contents(*map), key@, r.0@),
            !im_contents(*map).contains_key(key@) ==> factory.ensures((&key,), r.0),
            r.1.version == *final(latest_version),
            counts_versions(im_contents(*map), *old(latest_version)) ==> counts_versions(
                r.1.contents(),
                r.1.version,
            ),
            match r.2 {
                None => {
                    &&& im_contents(*map).contains_key(key@)
                    &&& *final(latest_version) == *old(latest_version)
                },
                Some(new_map) => {
                    &&& !im_contents(*map).contains_key(key@)
                    &&& *final(latest_version) == *old(latest_version) + 1
                    &&& im_contents(new_map) == r.1.contents()
                },
            },
    {
        match im_get(map, &key) {
            Some(v) => {
                // Nothing to do: several creations of the same key were queued.
                let reply = MapHolder { version: *latest_version, map: im_clone(map) };
                (v.clone(), reply, None)
            },
            None => {
                let value = factory(&key);
                let updated = im_update(map, key, value.clone());
                let prior_version = *latest_version;
                *latest_version = prior_version + 1;
                let reply = MapHolder { version: prior_version + 1, map: im_clone(&updated) };
                (value, reply, Some(updated))
            },
        }
    }
}

/// A reader that takes the holder sent back by the write that created or
/// found `value` under `key`, while no later write has come, reads `value`.
pub proof fn lemma_reader_sees_own_write(
    before: Contents,
    key: Seq<char>,
    value: Seq<char>,
    writer: NonPointerWriter,
    reply: MapHolder,
    cached: MapHolder,
    latest: Option<MapHolder>,
)
    requires
        reply.version == writer.version(),
        reply.contents() == writer.contents(),
        (value, writer.contents()) == get_or_create(before, key, value),
    ensures
        value_of(NonPointerMap::refreshed(cached, writer.version(), latest, Some(reply)).contents(), key)
            == Some(value),
{
}

/// A reader that takes the holder its own write sent back, when that holder
/// belongs to the latest version, reads from exactly that holder, whatever its
/// copy was and whether or not it is handed the writer's latest holder.
pub proof fn lemma_own_reply_needs_nothing_else(
    cached: MapHolder,
    latest_version: u64,
    latest: Option<MapHolder>,
    reply: MapHolder,
)
    requires
        reply.version == latest_version,
    ensures
        !NonPointerMap::needs_latest(cached, latest_version, Some(reply)),
        NonPointerMap::refreshed(cached, latest_version, latest, Some(reply)) == reply,
{
}

/// A reader needs the writer's latest holder exactly when the holder it
/// takes (the one its write sent back, else its copy) does not belong to the
/// latest version; once handed what it needs (a latest holder of the latest
/// version), it reads from a holder of the latest version, and when it needs
/// nothing it reads from the holder it takes.
pub proof fn lemma_refresh_reaches_latest_version(
    cached: MapHolder,
    latest_version: u64,
    latest: Option<MapHolder>,
    received: Option<MapHolder>,
)
    requires
        NonPointerMap::needs_latest(cached, latest_version, received) ==> (latest matches Some(l)
            && l.version == latest_version),
    ensures
        NonPointerMap::needs_latest(cached, latest_version, received) <==> match received {
            Some(h) => h.version != latest_version,
            None => cached.version != latest_version,
        },
        NonPointerMap::refreshed(cached, latest_version, latest, received).version == latest_version,
        NonPointerMap::needs_latest(cached, latest_version, received) ==> NonPointerMap::refreshed(
            cached,
            latest_version,
            latest,
            received,
        ) == latest->0,
        !NonPointerMap::needs_latest(cached, latest_version, received) ==> NonPointerMap::refreshed(
            cached,
            latest_version,
            latest,
            received,
        ) == match received {
            Some(h) => h,
            None => cached,
        },
{
}

/// A reader reads exactly what the writer's current map holds, whether its
/// copy is up to date or not, provided its copy and the holder its write sent
/// back, if any, were issued by the writer, and that it is handed the
/// writer's latest holder.
pub proof fn lemma_refreshed_reads_current(
    cached: MapHolder,
    writer: NonPointerWriter,
    received: Option<MapHolder>,
    latest: MapHolder,
)
    requires
        writer.wf(),
        writer.issued(cached),
        received matches Some(h) ==> writer.issued(h),
        latest.version == writer.version(),
        latest.contents() == writer.contents(),
    ensures
        NonPointerMap::refreshed(cached, writer.version(), Some(latest), received).version == writer.version(),
        NonPointerMap::refreshed(cached, writer.version(), Some(latest), received).contents()
            == writer.contents(),
{
}

} // verus!
