//! The chain of versions: every update appends a new version after the
//! latest one, and a single number records which version is the latest, so
//! that a reader holding any version can find the newest one without a lock.
//!
//! Versions are kept in the chain and reached through handles that hold only
//! a version number, so the chain cannot tell which versions a reader still
//! holds: every version stays in the chain for as long as the chain lives,
//! where reference-counted links would drop a superseded version once no
//! reader holds it.
use vstd::prelude::*;

verus! {

/// Bounds for what a version may hold.
pub trait Data: Send + Sync + std::fmt::Debug + 'static {}

impl<T: Send + Sync + std::fmt::Debug + 'static> Data for T {}

/// One link of the chain: the version's number, its data, and the number of
/// the version that follows it, once there is one.
struct VersionEntry<T> {
    version: u32,
    data: T,
    next: Option<u32>,
}

/// The link out of entry `i` of a chain of `len` entries: to the next entry,
/// or to nothing from the last.
spec fn link_after(i: int, len: int) -> Option<u32> {
    if i + 1 < len {
        Some((i + 1) as u32)
    } else {
        None
    }
}

/// All versions created so far, each reachable from its predecessor, and
/// the number of the latest version.
pub struct VersionChain<T> {
    entries: Vec<VersionEntry<T>>,
    latest_version: u32,
}

/// A handle on one version of a chain.
#[derive(Clone, Copy, Debug, PartialEq, Eq, Structural)]
pub struct Version {
    version: u32,
}

/// The right to append the next version; it holds the latest version.
#[derive(Debug)]
pub struct Updater {
    version: Version,
}

impl<T> View for VersionChain<T> {
    type V = Seq<T>;

    /// The data of every version, oldest first: the data of version `i` is at `i`.
    closed spec fn view(&self) -> Seq<T> {
        self.entries@.map_values(|e: VersionEntry<T>| e.data)
    }
}

impl<T> VersionChain<T> {
    /// The entries are numbered from zero without gaps, each links to the
    /// one after it, the last links to nothing, and the latest version is the
    /// last entry.
    pub closed spec fn wf(&self) -> bool {
        &&& self.entries.len() >= 1
        &&& self.latest_version + 1 == self.entries.len()
        &&& forall|i: int| 0 <= i < self.entries.len() ==> #[trigger] self.entries[i].version == i
        &&& forall|i: int|
            0 <= i < self.entries.len() ==> #[trigger] self.entries[i].next == link_after(
                i,
                self.entries.len() as int,
            )
    }

    /// The number of the latest version.
    pub closed spec fn latest(&self) -> nat {
        self.latest_version as nat
    }

    /// The number of the latest version, in code.
    pub fn latest_version(&self) -> (r: u32)
        ensures
            r == self.latest(),
    {
        self.latest_version
    }

    /// Whether `v` is a version of this chain.
    pub open spec fn has(&self, v: Version) -> bool {
        v.index() <= self.latest()
    }

    /// A well-formed chain holds one datum per version, the latest last.
    pub proof fn lemma_view_len(&self)
        requires
            self.wf(),
        ensures
            self@.len() == self.latest() + 1,
            self@.last() == self@[self.latest() as int],
    {
    }
}

impl Version {
    /// The number of this version.
    pub closed spec fn index(self) -> nat {
        self.version as nat
    }

    /// The number of this version, in code.
    pub fn number(&self) -> (r: u32)
        ensures
            r == self.index(),
    {
        self.version
    }

    /// Starts a chain whose only version, number zero, holds `data`; returns
    /// the chain, a handle on that version and the updater that may append to it.
    pub fn initial<T>(data: T) -> (r: (VersionChain<T>, Version, Updater))
        ensures
            r.0.wf(),
            r.0@ == seq![data],
            r.0.latest() == 0,
            r.1.index() == 0,
            r.2.version() == r.1,
    {
        let mut entries: Vec<VersionEntry<T>> = Vec::new();
        entries.push(Version::new_version(data, 0));
        let chain = VersionChain { entries, latest_version: 0 };
        let initial_version = Version { version: 0 };
        let updater = Updater { version: initial_version };
        proof {
            assert(chain@ =~= seq![data]);
        }
        (chain, initial_version, updater)
    }

    /// The data that this version holds.
    pub fn as_ref<'a, T>(&self, chain: &'a VersionChain<T>) -> (r: &'a T)
        requires
            chain.wf(),
            chain.has(*self),
        ensures
            *r == chain@[self.index() as int],
    {
        &chain.entries[self.version as usize].data
    }

    /// `None` when this version is the latest one; otherwise the latest version.
    pub fn latest<T>(&self, chain: &VersionChain<T>) -> (r: Option<Version>)
        requires
            chain.wf(),
            chain.has(*self),
        ensures
            match r {
                None => self.index() == chain.latest(),
                Some(newest) => self.index() != chain.latest() && newest.index() == chain.latest(),
            },
    {
        let latest_version = chain.latest_version;
        if self.version == latest_version {
            None
        } else {
            Some(self.get_version(chain, latest_version))
        }
    }

    /// The version that follows this one.
    pub fn next<T>(&self, chain: &VersionChain<T>) -> (r: Version)
        requires
            chain.wf(),
            self.index() < chain.latest(),
        ensures
            r.index() == self.index() + 1,
    {
        let following = chain.entries[self.version as usize].next;
        Version { version: following.unwrap() }
    }

    /// The version numbered `version`, found by following the links from this one.
    fn get_version<T>(&self, chain: &VersionChain<T>, version: u32) -> (r: Version)
        requires
            chain.wf(),
            self.index() <= version <= chain.latest(),
        ensures
            r.index() == version,
        decreases version - self.index(),
    {
        if self.version == version {
            *self
        } else {
            self.next(chain).get_version(chain, version)
        }
    }

    /// Appends a version holding `data` after this one, provided this one is
    /// the latest; otherwise gives `data` back and leaves the chain as it was.
    pub fn set_next<T>(&self, chain: &mut VersionChain<T>, data: T) -> (r: Result<(Version, Updater), T>)
        requires
            old(chain).wf(),
            old(chain).has(*self),
            self.index() == old(chain).latest() ==> old(chain).latest() < u32::MAX,
        ensures
            final(chain).wf(),
            match r {
                Ok((next, updater)) => {
                    &&& self.index() == old(chain).latest()
                    &&& final(chain)@ == old(chain)@.push(data)
                    &&& final(chain).latest() == old(chain).latest() + 1
                    &&& next.index() == final(chain).latest()
                    &&& updater.version() == next
                },
                Err(given_back) => {
                    &&& self.index() != old(chain).latest()
                    &&& given_back == data
                    &&& *final(chain) == *old(chain)
                },
            },
    {
        let latest_version = chain.latest_version;
        if latest_version != self.version {
            return Err(data);
        }
        let new_version = latest_version + 1;
        // Link the current latest entry to the new one, then append the new one.
        let mut current = chain.entries.pop().unwrap();
        current.next = Some(new_version);
        chain.entries.push(current);
        chain.entries.push(Version::new_version(data, new_version));
        chain.latest_version = new_version;
        let next = Version { version: new_version };
        let updater = Updater { version: next };
        proof {
            assert(chain@ =~= old(chain)@.push(data));
        }
        Ok((next, updater))
    }

    fn new_version<T>(data: T, version: u32) -> (r: VersionEntry<T>)
        ensures
            r.version == version,
            r.data == data,
            r.next == None::<u32>,
    {
        VersionEntry { version, data, next: None }
    }
}

/// Appending a version keeps every earlier version with its data, and the
/// appended data becomes the latest version, one past the former latest.
pub proof fn lemma_append_keeps_earlier_versions<T>(
    before: VersionChain<T>,
    after: VersionChain<T>,
    data: T,
    v: Version,
)
    requires
        before.wf(),
        after.wf(),
        after@ == before@.push(data),
        before.has(v),
    ensures
        after.has(v),
        after@[v.index() as int] == before@[v.index() as int],
        after.latest() == before.latest() + 1,
        after@[after.latest() as int] == data,
{
    before.lemma_view_len();
    after.lemma_view_len();
}

/// Over any run of chains, each holding the data of the one before as a
/// prefix (as every update leaves it), a version of the first chain stays a
/// version of every later one, with the same data.
pub proof fn lemma_versions_keep_their_data<T>(chains: Seq<VersionChain<T>>, v: Version)
    requires
        chains.len() >= 1,
        forall|i: int| 0 <= i < chains.len() ==> #[trigger] chains[i].wf(),
        forall|i: int|
            #![trigger chains[i]]
            0 <= i < chains.len() - 1 ==> chains[i]@.is_prefix_of(chains[i + 1]@),
        chains[0].has(v),
    ensures
        forall|i: int|
            0 <= i < chains.len() ==> #[trigger] chains[i].has(v) && chains[i]@[v.index() as int]
                == chains[0]@[v.index() as int],
    decreases chains.len(),
{
    if chains.len() > 1 {
        let shorter = chains.drop_last();
        assert forall|i: int|
            #![trigger shorter[i]]
            0 <= i < shorter.len() - 1 implies shorter[i]@.is_prefix_of(shorter[i + 1]@) by {
            assert(chains[i]@.is_prefix_of(chains[i + 1]@));
        }
        lemma_versions_keep_their_data(shorter, v);
        let n = chains.len() - 1;
        assert(shorter[n - 1] == chains[n - 1]);
        assert(shorter[n - 1].has(v));
        assert(chains[n - 1]@.is_prefix_of(chains[n]@));
        chains[n - 1].lemma_view_len();
        chains[n].lemma_view_len();
        assert(chains[n - 1]@ =~= chains[n]@.subrange(0, chains[n - 1]@.len() as int));
        assert(chains[n]@[v.index() as int] == chains[n - 1]@[v.index() as int]);
        assert forall|i: int| 0 <= i < chains.len() implies #[trigger] chains[i].has(v) && chains[i]@[v.index() as int]
            == chains[0]@[v.index() as int] by {
            if i < n {
                assert(shorter[i] == chains[i]);
                assert(shorter[i].has(v));
            }
        }
    }
}

impl Updater {
    /// The version this updater appends after.
    pub closed spec fn version(&self) -> Version {
        self.version
    }

    /// Appends `new_data` as the next version and returns it with the updater
    /// for the version after it.
    pub fn update<T>(self, chain: &mut VersionChain<T>, new_data: T) -> (r: (Version, Updater))
        requires
            old(chain).wf(),
            self.version().index() == old(chain).latest(),
            old(chain).latest() < u32::MAX,
        ensures
            final(chain).wf(),
            final(chain)@ == old(chain)@.push(new_data),
            old(chain)@.is_prefix_of(final(chain)@),
            final(chain).latest() == old(chain).latest() + 1,
            r.0.index() == final(chain).latest(),
            r.1.version() == r.0,
    {
        match self.version.set_next(chain, new_data) {
            Ok(r) => {
                proof {
                    assert(old(chain)@ =~= chain@.subrange(0, old(chain)@.len() as int));
                }
                r
            },
            Err(_) => {
                proof {
                    assert(false);
                }
                (self.version, self)
            },
        }
    }
}

} // verus!
