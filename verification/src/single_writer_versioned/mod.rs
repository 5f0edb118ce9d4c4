//! Versioning for immutable data with many concurrent readers and a single
//! writer. All changes go through one updater and so happen in sequence; each
//! one appends a version to a chain, and readers move to the latest version
//! when they read. Old versions are not dropped while the chain lives (see
//! `version`).
pub mod version;

use vstd::prelude::*;

use self::version::{Data, Updater, Version, VersionChain};

verus! {

/// A change to the data: given the latest data, it returns the data that is
/// to follow it, or `None` to leave the data as it is.
pub trait DataUpdater<T>: (FnOnce(&T) -> Option<T>) + Send + 'static where T: Data {}

impl<T, S: (FnOnce(&T) -> Option<T>) + Send + 'static> DataUpdater<T> for S where T: Data {}

/// What the single writer is asked to do.
pub enum VersionedUpdaterAction<F> {
    /// Apply the change to the latest data.
    Update(F),
    /// Stop taking changes.
    Quit,
}

/// A reader of versioned data. It holds the version it last read; each read
/// first moves it to the latest version. Copies read independently of one another.
#[derive(Clone, Copy, Debug)]
pub struct Versioned {
    current_holder: Version,
}

/// The single writer: it holds the latest version and the updater that
/// appends after it, applies the changes it is sent one at a time, and once
/// asked to quit applies no more.
#[derive(Debug)]
pub struct VersionedUpdater {
    current: (Version, Updater),
    stopped: bool,
}

/// The data after a change whose outcome is `out`: the new data appended as
/// the next version, or the data as it was.
pub open spec fn applied<T>(data: Seq<T>, out: Option<T>) -> Seq<T> {
    match out {
        Some(new_data) => data.push(new_data),
        None => data,
    }
}

/// The data after changes with outcomes `outs`, applied one after another in order.
pub open spec fn applied_all<T>(data: Seq<T>, outs: Seq<Option<T>>) -> Seq<T>
    decreases outs.len(),
{
    if outs.len() == 0 {
        data
    } else {
        applied(applied_all(data, outs.drop_last()), outs.last())
    }
}

/// How many of the outcomes `outs` carry new data.
pub open spec fn count_new<T>(outs: Seq<Option<T>>) -> nat
    decreases outs.len(),
{
    if outs.len() == 0 {
        0
    } else {
        count_new(outs.drop_last()) + if outs.last() is Some {
            1nat
        } else {
            0nat
        }
    }
}

/// Changes applied one after another, each to the data the one before left,
/// give the data of `applied_all`: the data that was there stays as it was, in
/// front, and one version is added for each change that returned new data.
pub proof fn lemma_updates_apply_in_order<T>(states: Seq<Seq<T>>, outs: Seq<Option<T>>)
    requires
        states.len() == outs.len() + 1,
        forall|i: int| 0 <= i < outs.len() ==> #[trigger] states[i + 1] == applied(states[i], outs[i]),
    ensures
        states.last() == applied_all(states[0], outs),
        states[0].is_prefix_of(states.last()),
        states.last().len() == states[0].len() + count_new(outs),
    decreases outs.len(),
{
    if outs.len() > 0 {
        let n = outs.len() - 1;
        let shorter = states.subrange(0, n + 1);
        assert forall|i: int| 0 <= i < outs.drop_last().len() implies #[trigger] shorter[i + 1] == applied(
            shorter[i],
            outs.drop_last()[i],
        ) by {
            assert(states[i + 1] == applied(states[i], outs[i]));
        }
        lemma_updates_apply_in_order(shorter, outs.drop_last());
        assert(states[n + 1] == applied(states[n], outs[n]));
        assert(shorter.last() == states[n]);
        assert(states[0].is_prefix_of(states.last())) by {
            assert(states[0] =~= states.last().subrange(0, states[0].len() as int));
        }
    }
}

impl Versioned {
    /// The version this reader holds.
    pub closed spec fn current(self) -> Version {
        self.current_holder
    }

    /// Starts versioning `data`: returns a reader, the writer and the chain,
    /// whose only version holds `data`.
    pub fn from_initial<T>(data: T) -> (r: (Versioned, VersionedUpdater, VersionChain<T>))
        ensures
            r.2.wf(),
            r.2@ == seq![data],
            r.2.latest() == 0,
            r.0.current().index() == 0,
            r.1.wf(r.2),
            !r.1.stopped(),
    {
        let (chain, initial_version, updater) = Version::initial(data);
        let versioned = Versioned { current_holder: initial_version };
        let writer = VersionedUpdater { current: (initial_version, updater), stopped: false };
        (versioned, writer, chain)
    }

    /// Passes the latest data to `action` and returns what it returns.
    /// This is how the data is read.
    pub fn with_latest<T, U, F: FnOnce(&T) -> U>(&mut self, chain: &VersionChain<T>, action: F) -> (r: U)
        requires
            chain.wf(),
            chain.has(old(self).current()),
            action.requires((&chain@.last(),)),
        ensures
            final(self).current().index() == chain.latest(),
            action.ensures((&chain@.last(),), r),
    {
        self.ensure_latest(chain);
        proof {
            chain.lemma_view_len();
        }
        action(self.current_holder.as_ref(chain))
    }

    /// Moves this reader to the latest version of the chain.
    fn ensure_latest<T>(&mut self, chain: &VersionChain<T>)
        requires
            chain.wf(),
            chain.has(old(self).current()),
        ensures
            final(self).current().index() == chain.latest(),
    {
        if let Some(new_version) = self.current_holder.latest(chain) {
            self.current_holder = new_version;
        }
    }
}

impl VersionedUpdater {
    /// The writer holds the latest version of `chain` and its updater.
    pub closed spec fn wf<T>(self, chain: VersionChain<T>) -> bool {
        &&& self.current.1.version() == self.current.0
        &&& self.current.0.index() == chain.latest()
    }

    /// Whether the writer was asked to quit.
    pub closed spec fn stopped(self) -> bool {
        self.stopped
    }

    /// Whether the writer was asked to quit, in code.
    pub fn is_stopped(&self) -> (r: bool)
        ensures
            r == self.stopped(),
    {
        self.stopped
    }

    /// Runs a change on the latest data, which it only reads; what the change
    /// returns is the outcome to commit.
    pub fn run_update<T, F: FnOnce(&T) -> Option<T>>(&self, chain: &VersionChain<T>, update_fn: F) -> (r: Option<T>)
        requires
            chain.wf(),
            self.wf(*chain),
            update_fn.requires((&chain@.last(),)),
        ensures
            update_fn.ensures((&chain@.last(),), r),
    {
        proof {
            chain.lemma_view_len();
        }
        update_fn(self.current.0.as_ref(chain))
    }

    /// Commits the outcome of a change: new data becomes the next version;
    /// `None` leaves the chain as it is.
    pub fn commit<T>(self, chain: &mut VersionChain<T>, out: Option<T>) -> (r: VersionedUpdater)
        requires
            old(chain).wf(),
            self.wf(*old(chain)),
            !self.stopped(),
            out is Some ==> old(chain).latest() < u32::MAX,
        ensures
            final(chain).wf(),
            r.wf(*final(chain)),
            !r.stopped(),
            final(chain)@ == applied(old(chain)@, out),
            old(chain)@.is_prefix_of(final(chain)@),
    {
        let VersionedUpdater { current: (version, updater), stopped } = self;
        match out {
            Some(new_data) => {
                let r = VersionedUpdater { current: updater.update(chain, new_data), stopped };
                proof {
                    assert(old(chain)@ =~= chain@.subrange(0, old(chain)@.len() as int));
                }
                r
            },
            None => VersionedUpdater { current: (version, updater), stopped },
        }
    }

    /// Carries out one action: a change is run on the latest data and its
    /// outcome committed; `Quit` changes nothing and stops the writer. A
    /// stopped writer carries out no action. Returns the writer, to take the
    /// next action, and whether it goes on taking actions.
    pub fn process<T, F: FnOnce(&T) -> Option<T>>(
        self,
        chain: &mut VersionChain<T>,
        action: VersionedUpdaterAction<F>,
    ) -> (r: (VersionedUpdater, bool))
        requires
            old(chain).wf(),
            self.wf(*old(chain)),
            !self.stopped() && action is Update ==> old(chain).latest() < u32::MAX,
            !self.stopped() ==> (action matches VersionedUpdaterAction::Update(f) ==> f.requires(
                (&old(chain)@.last(),),
            )),
        ensures
            final(chain).wf(),
            r.0.wf(*final(chain)),
            r.1 == !r.0.stopped(),
            self.stopped() ==> r.0.stopped() && *final(chain) == *old(chain),
            !self.stopped() ==> match action {
                VersionedUpdaterAction::Quit => r.0.stopped() && *final(chain) == *old(chain),
                VersionedUpdaterAction::Update(f) => {
                    &&& !r.0.stopped()
                    &&& exists|out: Option<T>|
                        #![trigger f.ensures((&old(chain)@.last(),), out)]
                        f.ensures((&old(chain)@.last(),), out) && final(chain)@ == applied(
                            old(chain)@,
                            out,
                        )
                },
            },
    {
        if self.stopped {
            return (self, false);
        }
        match action {
            VersionedUpdaterAction::Update(update_fn) => {
                let out = self.run_update(chain, update_fn);
                (self.commit(chain, out), true)
            },
            VersionedUpdaterAction::Quit => {
                let VersionedUpdater { current, stopped: _ } = self;
                (VersionedUpdater { current, stopped: true }, false)
            },
        }
    }
}

} // verus!
