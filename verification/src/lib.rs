//! Data structures for sharing a map between many readers and a single
//! writer, with a focus on many reads and few writes: a chain of versions that
//! readers follow to the newest one, and several maps built on persistent `im`
//! hash maps, whose readers read their own copy and the writer only adds.
pub mod im_map;
pub mod lockingmap;
pub mod map_spec;
pub mod non_locking_map;
pub mod nonlockingmap;
pub mod nonpointermap;
pub mod single_writer_versioned;
pub mod versioned_map;

pub use versioned_map::VersionedMap;

use std::hash::Hash;
use vstd::prelude::*;

verus! {

/// Types that a collection shared between many tasks can hold.
pub trait AsyncStorable: Clone + Send + Sync + std::fmt::Debug + Unpin + 'static {}

impl<T: Clone + Send + Sync + Unpin + std::fmt::Debug + 'static> AsyncStorable for T {}

/// Types that can be keys of a map shared between many tasks.
pub trait AsyncKey: AsyncStorable + Hash + Eq {}

impl<T: AsyncStorable + Hash + Eq> AsyncKey for T {}

/// Factories that make the value for a key of a shared map.
pub trait AsyncFactory<K: AsyncKey, V: AsyncStorable>: (Fn(&K) -> V) + Send + Sync + 'static {}

impl<
    K: AsyncKey,
    V: AsyncStorable,
    F: (Fn(&K) -> V) + Send + Sync + 'static,
> AsyncFactory<K, V> for F {}

} // verus!
