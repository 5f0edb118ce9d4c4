//! The persistent hash map of the `im` crate, keyed and valued by strings,
//! seen through what it holds.
use vstd::prelude::*;

verus! {

#[verifier::external_type_specification]
#[verifier::external_body]
#[verifier::reject_recursive_types(K)]
#[verifier::reject_recursive_types(V)]
#[verifier::reject_recursive_types(S)]
pub struct ExImHashMap<K, V, S>(im::HashMap<K, V, S>);

/// The persistent map that the maps of this crate are built on.
pub type StrMap = im::HashMap<String, String>;

/// What an `im::HashMap<String, String>` holds: the characters of each key
/// mapped to the characters of its value.
pub uninterp spec fn im_contents(m: StrMap) -> Map<Seq<char>, Seq<char>>;

/// A map of characters to characters with no key.
pub open spec fn no_entries() -> Map<Seq<char>, Seq<char>> {
    Map::empty()
}

/// Calls `im::HashMap::new`. Claimed: the new map holds no key (and so
/// finitely many).
#[verifier::external_body]
pub(crate) fn im_new() -> (r: StrMap)
    ensures
        im_contents(r) == no_entries(),
        im_contents(r).dom().finite(),
{
    im::HashMap::new()
}

/// Calls `im::HashMap::get`. Claimed: it finds a value exactly when the map
/// holds the key, and the value it finds is the one held for the key.
#[verifier::external_body]
pub(crate) fn im_get<'a>(m: &'a StrMap, key: &String) -> (r: Option<&'a String>)
    ensures
        match r {
            Some(v) => im_contents(*m).contains_key(key@) && v@ == im_contents(*m)[key@],
            None => !im_contents(*m).contains_key(key@),
        },
{
    m.get(key)
}

/// Calls `im::HashMap::update`, which leaves `m` as it is and returns a new
/// map. Claimed: the new map holds what `m` holds, with `key` now mapped to
/// `value` (replacing any earlier value for `key`); it holds finitely many
/// keys, as every `im` map does (its size is counted in a `usize`).
#[verifier::external_body]
pub(crate) fn im_update(m: &StrMap, key: String, value: String) -> (r: StrMap)
    ensures
        im_contents(r) == im_contents(*m).insert(key@, value@),
        im_contents(r).dom().finite(),
{
    m.update(key, value)
}

/// Calls `<im::HashMap as Clone>::clone`. Claimed: the clone holds what the
/// original holds, finitely many keys as every `im` map does.
#[verifier::external_body]
pub(crate) fn im_clone(m: &StrMap) -> (r: StrMap)
    ensures
        im_contents(r) == im_contents(*m),
        im_contents(r).dom().finite(),
{
    m.clone()
}

} // verus!
