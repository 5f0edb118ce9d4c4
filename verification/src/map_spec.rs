//! What the maps of this crate promise, stated over what a map holds:
//! a get-or-create gives back the value held for a key, and creates one with
//! the factory only when there is none.
use vstd::prelude::*;

verus! {

/// What a string map holds: the characters of each key mapped to the characters of its value.
pub type Contents = Map<Seq<char>, Seq<char>>;

/// The value that `contents` holds for `key`, if any.
pub open spec fn value_of(contents: Contents, key: Seq<char>) -> Option<Seq<char>> {
    if contents.contains_key(key) {
        Some(contents[key])
    } else {
        None
    }
}

/// An optional string seen as characters.
pub open spec fn view_of(s: Option<String>) -> Option<Seq<char>> {
    match s {
        Some(v) => Some(v@),
        None => None,
    }
}

/// The outcome of a get-or-create of `key` on a map that holds `contents`,
/// where `made` is what the factory would make for `key`: the value given back,
/// and what the map holds afterwards.
pub open spec fn get_or_create(contents: Contents, key: Seq<char>, made: Seq<char>) -> (Seq<char>, Contents) {
    if contents.contains_key(key) {
        (contents[key], contents)
    } else {
        (made, contents.insert(key, made))
    }
}

/// A read after a get-or-create gives back the value that the get-or-create gave.
pub proof fn lemma_read_after_get_or_create(contents: Contents, key: Seq<char>, made: Seq<char>)
    ensures
        value_of(get_or_create(contents, key, made).1, key) == Some(get_or_create(contents, key, made).0),
{
}

/// A get-or-create of a key that the map already holds changes nothing and
/// gives back the value held, whatever the factory would make.
pub proof fn lemma_get_or_create_present(contents: Contents, key: Seq<char>, made: Seq<char>)
    requires
        contents.contains_key(key),
    ensures
        get_or_create(contents, key, made) == (contents[key], contents),
{
}

/// A second get-or-create of the same key gives back the value of the first
/// and changes nothing, whatever the factory would make the second time.
pub proof fn lemma_get_or_create_idempotent(
    contents: Contents,
    key: Seq<char>,
    made: Seq<char>,
    made_again: Seq<char>,
)
    ensures
        get_or_create(get_or_create(contents, key, made).1, key, made_again) == (
            get_or_create(contents, key, made).0,
            get_or_create(contents, key, made).1,
        ),
{
}

/// A get-or-create leaves every other key as it was, and never removes a key.
pub proof fn lemma_get_or_create_keeps_others(
    contents: Contents,
    key: Seq<char>,
    made: Seq<char>,
    other: Seq<char>,
)
    requires
        other != key,
    ensures
        value_of(get_or_create(contents, key, made).1, other) == value_of(contents, other),
        contents.dom().subset_of(get_or_create(contents, key, made).1.dom()),
{
}

/// What a map holds after get-or-creates of the keys of `requests`, one
/// after another, each `(key, made)` pairing a key with what the factory of
/// that request would make.
pub open spec fn run(contents: Contents, requests: Seq<(Seq<char>, Seq<char>)>) -> Contents
    decreases requests.len(),
{
    if requests.len() == 0 {
        contents
    } else {
        get_or_create(run(contents, requests.drop_last()), requests.last().0, requests.last().1).1
    }
}

/// Once a map holds a key, the key keeps its value through any run of
/// get-or-creates, whoever makes them; and a get-or-create of the key then
/// gives that value back and changes nothing, so its factory is never used.
pub proof fn lemma_value_never_changes(
    contents: Contents,
    requests: Seq<(Seq<char>, Seq<char>)>,
    key: Seq<char>,
    made: Seq<char>,
)
    requires
        contents.contains_key(key),
    ensures
        run(contents, requests).contains_key(key),
        run(contents, requests)[key] == contents[key],
        get_or_create(run(contents, requests), key, made) == (contents[key], run(contents, requests)),
    decreases requests.len(),
{
    if requests.len() > 0 {
        lemma_value_never_changes(contents, requests.drop_last(), key, made);
    }
}

} // verus!
