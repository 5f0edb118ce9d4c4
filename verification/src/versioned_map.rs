//! A map for many readers and one writer. The writer holds the latest map and
//! a version counter; each reader keeps its own copy of a map with the version
//! it belongs to, and before each read replaces its copy when the counter has
//! moved on, taking either the map that its own write sent back or the
//! writer's latest one.
use vstd::prelude::*;

use crate::im_map::{im_clone, im_contents, im_get, im_new, im_update, StrMap};
use crate::map_spec::{get_or_create, value_of, view_of, Contents};

verus! {

/// The number of keys a map holds is `version`: each version after the
/// first added one key.
pub open spec fn counts_versions(contents: Contents, version: u64) -> bool {
    &&& contents.dom().finite()
    &&& contents.len() == version
}

/// A map together with the version it belongs to.
pub struct MapHolder {
    pub version: u64,
    pub map: StrMap,
}

impl MapHolder {
    /// What the map of this holder holds.
    pub open spec fn contents(self) -> Contents {
        im_contents(self.map)
    }

    /// Whether this holder belongs to `version`.
    pub fn is_version(&self, version: u64) -> (r: bool)
        ensures
            r == (self.version == version),
    {
        self.version == version
    }

    /// A copy of this holder: same version, same contents.
    pub fn clone_holder(&self) -> (r: MapHolder)
        ensures
            r.version == self.version,
            r.contents() == self.contents(),
    {
        MapHolder { version: self.version, map: im_clone(&self.map) }
    }
}

/// The writer's side: the latest version number, the latest map, and (as
/// ghost state) what the map of every version so far held.
pub struct MapStore {
    latest_version: u64,
    latest: MapHolder,
    history: Ghost<Seq<Contents>>,
}

impl MapStore {
    /// The latest map belongs to the latest version, and the history holds
    /// one map per version, the latest last.
    pub closed spec fn wf(self) -> bool {
        &&& self.latest.version == self.latest_version
        &&& self.history@.len() == self.latest_version + 1
        &&& self.history@.last() == self.latest.contents()
        &&& counts_versions(self.latest.contents(), self.latest_version)
    }

    /// The number of the latest version.
    pub closed spec fn version(self) -> u64 {
        self.latest_version
    }

    /// The holder of the latest map.
    pub closed spec fn latest_holder(self) -> MapHolder {
        self.latest
    }

    /// What the latest map holds.
    pub closed spec fn contents(self) -> Contents {
        self.latest.contents()
    }

    /// What the map of each version so far held, oldest first.
    pub closed spec fn history(self) -> Seq<Contents> {
        self.history@
    }

    /// Whether `h` is a holder of a version of this store, holding that
    /// version's map.
    pub open spec fn issued(self, h: MapHolder) -> bool {
        &&& h.version < self.history().len()
        &&& h.contents() == self.history()[h.version as int]
    }

    /// An empty store at version zero.
    pub fn new() -> (r: MapStore)
        ensures
            r.wf(),
            r.version() == 0,
            r.contents() == Map::<Seq<char>, Seq<char>>::empty(),
    {
        let latest = MapHolder { version: 0, map: im_new() };
        let history: Ghost<Seq<Contents>> = Ghost(Seq::empty().push(latest.contents()));
        MapStore { latest_version: 0, latest, history }
    }

    /// The number of the latest version, in code.
    pub fn latest_version(&self) -> (r: u64)
        ensures
            r == self.version(),
    {
        self.latest_version
    }

    /// The holder of the latest version.
    pub fn latest(&self) -> (r: &MapHolder)
        requires
            self.wf(),
        ensures
            *r == self.latest_holder(),
            r.version == self.version(),
            r.contents() == self.contents(),
            self.issued(*r),
    {
        &self.latest
    }

    /// Whether a request for `key` can be served: always when the key is
    /// held; otherwise only while the version counter can still move on.
    pub fn can_serve(&self, key: &String) -> (r: bool)
        ensures
            r == (self.contents().contains_key(key@) || self.version() < u64::MAX),
    {
        match im_get(&self.latest.map, key) {
            Some(_) => true,
            None => self.latest_version < u64::MAX,
        }
    }

    /// Serves one request of a reader for `key`: gives back the value held for
    /// `key`, creating it with `factory` when there is none, together with the
    /// holder that the reader is to take as its own; a created value becomes
    /// the map of the next version.
    pub fn get_or_create<F: Fn(&String) -> String>(&mut self, key: String, factory: F) -> (r: (
        String,
        MapHolder,
    ))
        requires
            old(self).wf(),
            !old(self).contents().contains_key(key@) ==> factory.requires((&key,)),
            !old(self).contents().contains_key(key@) ==> old(self).version() < u64::MAX,
        ensures
            final(self).wf(),
            r.1.version == final(self).version(),
            r.1.contents() == final(self).contents(),
            final(self).issued(r.1),
            (r.0@, final(self).contents()) == get_or_create(old(self).contents(), key@, r.0@),
            !old(self).contents().contains_key(key@) ==> factory.ensures((&key,), r.0),
            if old(self).contents().contains_key(key@) {
                &&& final(self).version() == old(self).version()
                &&& final(self).history() == old(self).history()
            } else {
                &&& final(self).version() == old(self).version() + 1
                &&& final(self).history() == old(self).history().push(final(self).contents())
            },
            forall|h: MapHolder| old(self).issued(h) ==> #[trigger] final(self).issued(h),
    {
        let (value, reply, updated) = VersionedMap::create_if_necessary(
            &mut self.latest_version,
            &self.latest.map,
            key,
            factory,
        );
        if let Some((new_map, new_version)) = updated {
            self.latest = MapHolder { version: new_version, map: new_map };
            let history: Ghost<Seq<Contents>> = Ghost(self.history@.push(self.latest.contents()));
            self.history = history;
        }
        (value, reply)
    }
}

/// A reader of the map: its own copy of a map and the version of that copy.
pub struct VersionedMap {
    map_holder: MapHolder,
}

impl VersionedMap {
    /// The holder this reader reads from.
    pub closed spec fn holder(self) -> MapHolder {
        self.map_holder
    }

    /// An empty map: a reader and the writer's side, both at version zero.
    pub fn new() -> (r: (VersionedMap, MapStore))
        ensures
            r.1.wf(),
            r.1.version() == 0,
            r.1.contents() == Map::<Seq<char>, Seq<char>>::empty(),
            r.0.holder().version == 0,
            r.0.holder().contents() == r.1.contents(),
            r.1.issued(r.0.holder()),
    {
        let store = MapStore::new();
        let reader = VersionedMap { map_holder: store.latest().clone_holder() };
        (reader, store)
    }

    /// A second reader that starts from this reader's copy.
    pub fn clone_reader(&self) -> (r: VersionedMap)
        ensures
            r.holder().version == self.holder().version,
            r.holder().contents() == self.holder().contents(),
    {
        VersionedMap { map_holder: self.map_holder.clone_holder() }
    }

    /// Whether a reader holding `cached` needs the writer's latest holder to
    /// bring its copy up to date: when the holder its last write sent back, if
    /// any, does not belong to the latest version and neither does its copy.
    pub open spec fn needs_latest(cached: MapHolder, latest_version: u64, received: Option<MapHolder>) -> bool {
        !(received is Some && received->0.version == latest_version) && cached.version != latest_version
    }

    /// What a reader holds after it brings its copy up to date: the holder
    /// sent back by its own write when that belongs to the latest version;
    /// else the writer's latest holder when its copy is out of date; else its copy.
    pub open spec fn refreshed(
        cached: MapHolder,
        latest_version: u64,
        latest: Option<MapHolder>,
        received: Option<MapHolder>,
    ) -> (u64, Contents) {
        if received is Some && received->0.version == latest_version {
            (received->0.version, received->0.contents())
        } else if cached.version != latest_version {
            (latest->0.version, latest->0.contents())
        } else {
            (cached.version, cached.contents())
        }
    }

    /// Whether this reader needs the writer's latest holder to bring its copy
    /// up to date with `latest_version`, given the holder its last write sent back.
    pub fn needs_latest_map(&self, latest_version: u64, received: &Option<MapHolder>) -> (r: bool)
        ensures
            r == VersionedMap::needs_latest(self.holder(), latest_version, *received),
    {
        let matching = match received {
            Some(holder) => holder.version == latest_version,
            None => false,
        };
        !matching && self.map_holder.version != latest_version
    }

    /// Brings this reader's copy up to date with `latest_version`, given the
    /// holder that its last write sent back, if any, and the writer's latest
    /// holder, which is needed only when `needs_latest_map` says so; returns it.
    pub fn latest_map(&mut self, latest_version: u64, latest: Option<MapHolder>, received: Option<MapHolder>) -> (r:
        &MapHolder)
        requires
            VersionedMap::needs_latest(old(self).holder(), latest_version, received) ==> latest is Some,
        ensures
            (final(self).holder().version, final(self).holder().contents()) == VersionedMap::refreshed(
                old(self).holder(),
                latest_version,
                latest,
                received,
            ),
            r.version == final(self).holder().version,
            r.contents() == final(self).holder().contents(),
            received matches Some(h) ==> (h.version == latest_version ==> final(self).holder().version
                == latest_version && final(self).holder().contents() == h.contents()),
            (latest matches Some(l) ==> l.version == latest_version) ==> final(self).holder().version
                == latest_version,
    {
        let received_update = match received {
            Some(holder) => if holder.version == latest_version {
                Some(holder)
            } else {
                None
            },
            None => None,
        };
        if let Some(new_map_holder) = received_update {
            self.map_holder = new_map_holder;
        } else if self.map_holder.version != latest_version {
            self.map_holder = latest.unwrap();
        }
        &self.map_holder
    }

    /// The value held for `key` in the up-to-date copy, if any.
    pub fn get_if_present(
        &mut self,
        latest_version: u64,
        latest: Option<MapHolder>,
        received: Option<MapHolder>,
        key: &String,
    ) -> (r: Option<String>)
        requires
            VersionedMap::needs_latest(old(self).holder(), latest_version, received) ==> latest is Some,
        ensures
            (final(self).holder().version, final(self).holder().contents()) == VersionedMap::refreshed(
                old(self).holder(),
                latest_version,
                latest,
                received,
            ),
            view_of(r) == value_of(final(self).holder().contents(), key@),
            received matches Some(h) ==> (h.version == latest_version ==> view_of(r) == value_of(
                h.contents(),
                key@,
            )),
            (latest matches Some(l) ==> l.version == latest_version) ==> final(self).holder().version
                == latest_version,
    {
        let holder = self.latest_map(latest_version, latest, received);
        match im_get(&holder.map, key) {
            Some(value) => Some(value.clone()),
            None => None,
        }
    }

    /// Looks `key` up in `map`; when it is missing, makes its value with
    /// `factory` and adds it under the next version. Gives back the value,
    /// the holder to send back to the reader who asked, and the new map with
    /// its version when one was made.
    pub fn create_if_necessary<F: Fn(&String) -> String>(
        latest_version: &mut u64,
        map: &StrMap,
        key: String,
        factory: F,
    ) -> (r: (String, MapHolder, Option<(StrMap, u64)>))
        requires
            !im_contents(*map).contains_key(key@) ==> factory.requires((&key,)),
            !im_contents(*map).contains_key(key@) ==> *old(latest_version) < u64::MAX,
        ensures
            (r.0@, r.1.contents()) == get_or_create(im_contents(*map), key@, r.0@),
            !im_contents(*map).contains_key(key@) ==> factory.ensures((&key,), r.0),
            r.1.version == *final(latest_version),
            counts_versions(im_contents(*map), *old(latest_version)) ==> counts_versions(
                r.1.contents(),
                r.1.version,
            ),
            match r.2 {
                None => {
                    &&& im_contents(*map).contains_key(key@)
                    &&& *final(latest_version) == *old(latest_version)
                },
                Some((new_map, new_version)) => {
                    &&& !im_contents(*map).contains_key(key@)
                    &&& new_version == *old(latest_version) + 1
                    &&& *final(latest_version) == new_version
                    &&& im_contents(new_map) == r.1.contents()
                },
            },
    {
        match im_get(map, &key) {
            Some(v) => {
                // Nothing to do: several creations of the same key were queued.
                let reply = MapHolder { version: *latest_version, map: im_clone(map) };
                let value = v.clone();
                (value, reply, None)
            },
            None => {
                let value = factory(&key);
                let updated = im_update(map, key, value.clone());
                let new_version = *latest_version + 1;
                *latest_version = new_version;
                let reply = MapHolder { version: new_version, map: im_clone(&updated) };
                (value, reply, Some((updated, new_version)))
            },
        }
    }
}

/// What a pending read-or-create does when it is polled.
pub enum PollStep<F, S> {
    /// The request was handed over on an earlier poll: the future is done.
    Ready,
    /// Hand the request (key, factory and the sender for the answer) to the writer.
    Send(String, F, S),
}

/// A read-or-create that has not yet been handed to the writer: the key, the
/// factory for its value, and the sender on which the answer is to come back.
pub struct MapReturnFuture<F, S> {
    key: String,
    factory: Option<F>,
    result_sender: Option<S>,
}

impl<F, S> MapReturnFuture<F, S> {
    /// Whether the request still waits to be handed over.
    pub closed spec fn pending(self) -> bool {
        self.result_sender is Some
    }

    /// The key asked for.
    pub closed spec fn key(self) -> Seq<char> {
        self.key@
    }

    /// The factory, while it has not been handed over.
    pub closed spec fn factory(self) -> Option<F> {
        self.factory
    }

    /// The sender for the answer, while it has not been handed over.
    pub closed spec fn result_sender(self) -> Option<S> {
        self.result_sender
    }

    /// A request that waits to be handed over.
    pub fn new(key: String, factory: F, result_sender: S) -> (r: Self)
        ensures
            r.pending(),
            r.well_formed(),
            r.key() == key@,
            r.factory() == Some(factory),
            r.result_sender() == Some(result_sender),
    {
        MapReturnFuture { key, factory: Some(factory), result_sender: Some(result_sender) }
    }

    /// A request that waits to be handed over still holds its factory.
    pub closed spec fn well_formed(self) -> bool {
        self.result_sender is Some ==> self.factory is Some
    }

    /// The first poll hands the key, the factory and the sender over and
    /// leaves the future done; any later poll finds it done.
    pub fn poll(&mut self) -> (r: PollStep<F, S>)
        requires
            old(self).well_formed(),
        ensures
            final(self).well_formed(),
            !final(self).pending(),
            final(self).key() == old(self).key(),
            old(self).pending() <==> r is Send,
            r matches PollStep::Send(key, factory, sender) ==> {
                &&& key@ == old(self).key()
                &&& old(self).factory() == Some(factory)
                &&& old(self).result_sender() == Some(sender)
            },
    {
        match self.result_sender.take() {
            None => PollStep::Ready,
            Some(result_sender) => {
                let factory = self.factory.take().unwrap();
                PollStep::Send(self.key.clone(), factory, result_sender)
            },
        }
    }
}

/// A reader that brings its copy up to date against the writer's side reads
/// exactly what the writer's latest map holds, provided its copy and the
/// holder its write sent back, if any, were both issued by the writer.
pub proof fn lemma_refreshed_reads_latest(cached: MapHolder, store: MapStore, received: Option<MapHolder>)
    requires
        store.wf(),
        store.issued(cached),
        received matches Some(h) ==> store.issued(h),
    ensures
        VersionedMap::refreshed(cached, store.version(), Some(store.latest_holder()), received) == (
            store.version(),
            store.contents(),
        ),
{
}

/// Readers that share one writer (clones of one another, or readers made
/// from the same `new`) read alike: once each brings its copy up to date, all
/// read the writer's latest map, whichever of them made the writes.
pub proof fn lemma_clones_read_alike(
    store: MapStore,
    cached_a: MapHolder,
    received_a: Option<MapHolder>,
    cached_b: MapHolder,
    received_b: Option<MapHolder>,
)
    requires
        store.wf(),
        store.issued(cached_a),
        store.issued(cached_b),
        received_a matches Some(h) ==> store.issued(h),
        received_b matches Some(h) ==> store.issued(h),
    ensures
        VersionedMap::refreshed(cached_a, store.version(), Some(store.latest_holder()), received_a)
            == VersionedMap::refreshed(cached_b, store.version(), Some(store.latest_holder()), received_b),
        VersionedMap::refreshed(cached_a, store.version(), Some(store.latest_holder()), received_a).1
            == store.contents(),
{
    lemma_refreshed_reads_latest(cached_a, store, received_a);
    lemma_refreshed_reads_latest(cached_b, store, received_b);
}

/// The writer's side keeps, over any run of requests, one key per version:
/// the latest map holds as many keys as the number of the latest version.
pub proof fn lemma_store_counts_versions(store: MapStore)
    requires
        store.wf(),
    ensures
        store.contents().dom().finite(),
        store.contents().len() == store.version(),
{
}

/// A reader that takes the holder its own write sent back, when that holder
/// belongs to the latest version, ends with exactly that holder's version and
/// map, whatever its copy was and whether or not it is handed the writer's
/// latest holder.
pub proof fn lemma_own_reply_needs_nothing_else(
    cached: MapHolder,
    latest_version: u64,
    latest: Option<MapHolder>,
    reply: MapHolder,
)
    requires
        reply.version == latest_version,
    ensures
        !VersionedMap::needs_latest(cached, latest_version, Some(reply)),
        VersionedMap::refreshed(cached, latest_version, latest, Some(reply)) == (
            latest_version,
            reply.contents(),
        ),
{
}

/// A reader needs the writer's latest holder exactly when neither its copy
/// nor the holder its write sent back belongs to the latest version; and
/// once it is handed what it needs (a latest holder of the latest version),
/// its copy belongs to the latest version afterwards, whatever its copy and
/// its reply were.
pub proof fn lemma_refresh_reaches_latest_version(
    cached: MapHolder,
    latest_version: u64,
    latest: Option<MapHolder>,
    received: Option<MapHolder>,
)
    requires
        VersionedMap::needs_latest(cached, latest_version, received) ==> (latest matches Some(l)
            && l.version == latest_version),
    ensures
        VersionedMap::needs_latest(cached, latest_version, received) <==> (cached.version
            != latest_version && !(received matches Some(h) && h.version == latest_version)),
        VersionedMap::refreshed(cached, latest_version, latest, received).0 == latest_version,
        VersionedMap::needs_latest(cached, latest_version, received) ==> VersionedMap::refreshed(
            cached,
            latest_version,
            latest,
            received,
        ) == (latest->0.version, latest->0.contents()),
        cached.version == latest_version && !(received matches Some(h) && h.version == latest_version)
            ==> VersionedMap::refreshed(cached, latest_version, latest, received) == (
            cached.version,
            cached.contents(),
        ),
{
}

/// A reader whose write created or found `value` under `key`, and who takes
/// the holder that the writer sent back, then reads `value` under `key`.
pub proof fn lemma_reader_sees_own_write(
    before: Contents,
    key: Seq<char>,
    value: Seq<char>,
    store: MapStore,
    reply: MapHolder,
    cached: MapHolder,
)
    requires
        store.wf(),
        reply.version == store.version(),
        reply.contents() == store.contents(),
        (value, store.contents()) == get_or_create(before, key, value),
    ensures
        value_of(VersionedMap::refreshed(cached, store.version(), Some(store.latest_holder()), Some(reply)).1, key)
            == Some(value),
{
}

} // verus!
