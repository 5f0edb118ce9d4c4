use std::cell::RefCell;

use async_map::im_map::StrMap;
use async_map::lockingmap::LockingMap;
use async_map::non_locking_map::NonLockingMap;
use async_map::nonlockingmap::{self, PollOutcome, Swappable};
use async_map::nonpointermap::NonPointerMap;
use async_map::single_writer_versioned::VersionedUpdaterAction;
use async_map::versioned_map::{MapReturnFuture, PollStep};
use async_map::VersionedMap;

fn hello_factory(key: &String) -> String {
    format!("Hello, {}!", key)
}

fn unused_factory(_key: &String) -> String {
    panic!("the factory ran for a key that has a value")
}

#[test]
fn versioned_map_get_sync() {
    let (mut map, store) = VersionedMap::new();

    assert_eq!(None, map.get_if_present(store.latest_version(), Some(store.latest().clone_holder()), None, &"foo".to_owned()));
}

#[test]
fn versioned_map_get_sync2() {
    let (mut map, mut store) = VersionedMap::new();
    let key = "foo".to_owned();

    assert_eq!(None, map.get_if_present(store.latest_version(), Some(store.latest().clone_holder()), None, &key));
    let (value, reply) = store.get_or_create(key.clone(), hello_factory);

    assert_eq!("Hello, foo!", value);
    assert_eq!(1, reply.version);
    assert_eq!(
        "Hello, foo!",
        map.get_if_present(store.latest_version(), Some(store.latest().clone_holder()), Some(reply), &key).unwrap()
    );
}

#[test]
fn versioned_map_reader_refreshes_from_writer() {
    let (mut map, mut store) = VersionedMap::new();
    let mut other = map.clone_reader();
    let key = "bar".to_owned();
    let (value, _) = store.get_or_create(key.clone(), hello_factory);
    assert_eq!("Hello, bar!", value);

    // A reader that did not make the write finds it in the writer's latest map.
    assert_eq!(Some("Hello, bar!".to_owned()), other.get_if_present(store.latest_version(), Some(store.latest().clone_holder()), None, &key));
    assert_eq!(1, other.latest_map(store.latest_version(), Some(store.latest().clone_holder()), None).version);

    // A second request for the key finds the value and keeps the version.
    let (again, reply) = store.get_or_create(key.clone(), unused_factory);
    assert_eq!("Hello, bar!", again);
    assert_eq!(1, store.latest_version());
    assert_eq!(1, reply.version);
    assert_eq!(Some("Hello, bar!".to_owned()), map.get_if_present(store.latest_version(), Some(store.latest().clone_holder()), Some(reply), &key));
}

#[test]
fn versioned_map_ignores_an_outdated_reply() {
    let (mut map, mut store) = VersionedMap::new();
    let (_, first_reply) = store.get_or_create("a".to_owned(), hello_factory);
    let (_, _) = store.get_or_create("b".to_owned(), hello_factory);
    // The reply belongs to version 1; the latest version is 2.
    assert!(map.needs_latest_map(store.latest_version(), &Some(first_reply.clone_holder())));
    let holder = map.latest_map(store.latest_version(), Some(store.latest().clone_holder()), Some(first_reply));
    assert_eq!(2, holder.version);
    assert_eq!(Some("Hello, b!".to_owned()), map.get_if_present(store.latest_version(), Some(store.latest().clone_holder()), None, &"b".to_owned()));
}

#[test]
fn versioned_map_create_if_necessary() {
    let (_, store) = VersionedMap::new();
    let mut latest_version = store.latest_version();
    let (value, reply, update) =
        VersionedMap::create_if_necessary(&mut latest_version, &store.latest().map, "k".to_owned(), hello_factory);
    assert_eq!("Hello, k!", value);
    assert_eq!(1, latest_version);
    assert_eq!(1, reply.version);
    let (new_map, new_version) = update.unwrap();
    assert_eq!(1, new_version);
    assert_eq!(Some(&"Hello, k!".to_owned()), new_map.get("k"));
    assert_eq!(None, store.latest().map.get("k"));

    let (value, reply, update) =
        VersionedMap::create_if_necessary(&mut latest_version, &new_map, "k".to_owned(), unused_factory);
    assert_eq!("Hello, k!", value);
    assert_eq!(1, latest_version);
    assert_eq!(1, reply.version);
    assert!(update.is_none());
}

#[test]
fn map_return_future_hands_over_once() {
    let mut future = MapReturnFuture::new("key".to_owned(), hello_factory, 17u8);
    match future.poll() {
        PollStep::Send(key, factory, sender) => {
            assert_eq!("key", key);
            assert_eq!("Hello, key!", factory(&key));
            assert_eq!(17, sender);
        }
        PollStep::Ready => panic!("the request was not handed over"),
    }
    assert!(matches!(future.poll(), PollStep::Ready));
}

#[test]
fn nonpointermap_get_sync() {
    let (mut map, writer) = NonPointerMap::new();

    assert_eq!(None, map.get_if_present(writer.latest_version(), Some(writer.latest_holder()), None, &"foo".to_owned()));
}

#[test]
fn nonpointermap_get_sync2() {
    let (mut map, mut writer) = NonPointerMap::new();
    let key = "foo".to_owned();

    assert_eq!(None, map.get_if_present(writer.latest_version(), Some(writer.latest_holder()), None, &key));
    let (value, reply) = writer.get_or_create(key.clone(), |key: &String| format!("Hello, {}!", key));

    assert_eq!("Hello, foo!", value);
    assert_eq!("Hello, foo!", map.get_if_present(writer.latest_version(), Some(writer.latest_holder()), Some(reply), &key).unwrap());
}

#[test]
fn nonpointermap_reads_the_writer_map_when_out_of_date() {
    let (mut a, mut writer) = NonPointerMap::new();
    let mut b = a.clone_reader();

    // Reader a writes "x" and takes back its reply.
    let (_, reply) = writer.get_or_create("x".to_owned(), hello_factory);
    assert_eq!(
        Some("Hello, x!".to_owned()),
        a.get_if_present(writer.latest_version(), Some(writer.latest_holder()), Some(reply), &"x".to_owned())
    );

    // Reader b writes "y": a's copy is now out of date, yet a still reads "x".
    let (_, reply_b) = writer.get_or_create("y".to_owned(), hello_factory);
    assert_eq!(
        Some("Hello, y!".to_owned()),
        b.get_if_present(writer.latest_version(), Some(writer.latest_holder()), Some(reply_b), &"y".to_owned())
    );
    assert!(a.needs_latest_map(writer.latest_version(), &None));
    assert_eq!(
        Some("Hello, x!".to_owned()),
        a.get_if_present(writer.latest_version(), Some(writer.latest_holder()), None, &"x".to_owned())
    );
    assert!(!a.needs_latest_map(writer.latest_version(), &None));
    assert_eq!(
        Some("Hello, y!".to_owned()),
        a.get_if_present(writer.latest_version(), None, None, &"y".to_owned())
    );
    assert_eq!(None, a.get_if_present(writer.latest_version(), None, None, &"z".to_owned()));
}

#[test]
fn non_locking_map_get_sync() {
    let (mut map, _writer, chain) = NonLockingMap::new();

    assert_eq!(None, map.get_if_present(&chain, &"foo".to_owned()));
}

#[test]
fn non_locking_map_get_sync2() {
    let (mut map, writer, mut chain) = NonLockingMap::new();
    let key = "foo".to_owned();
    let answer = RefCell::new(None);

    assert_eq!(None, map.get_if_present(&chain, &key));
    let request_key = key.clone();
    let (_writer, _) = writer.process(
        &mut chain,
        VersionedUpdaterAction::Update(|latest: &StrMap| {
            let (value, new_map) = NonLockingMap::create_update(latest, request_key, hello_factory);
            *answer.borrow_mut() = Some(value);
            new_map
        }),
    );

    assert_eq!(Some("Hello, foo!".to_owned()), answer.into_inner());
    assert_eq!("Hello, foo!", map.get_if_present(&chain, &key).unwrap());
}

#[test]
fn non_locking_map_create_update() {
    let empty = StrMap::new();
    let (value, new_map) = NonLockingMap::create_update(&empty, "a".to_owned(), hello_factory);
    assert_eq!("Hello, a!", value);
    let new_map = new_map.unwrap();
    assert_eq!(Some(&"Hello, a!".to_owned()), new_map.get("a"));

    let (value, none) = NonLockingMap::create_update(&new_map, "a".to_owned(), unused_factory);
    assert_eq!("Hello, a!", value);
    assert!(none.is_none());
}

#[test]
fn locking_map_gets_and_creates() {
    let mut map = LockingMap::new();
    let key = "foo".to_owned();
    assert_eq!(None, map.get_if_present(&key));
    assert_eq!("Hello, foo!", map.get(&key, hello_factory));
    assert_eq!(Some("Hello, foo!".to_owned()), map.get_if_present(&key));
    assert_eq!("Hello, foo!", map.get(&key, unused_factory));
    assert_eq!(None, map.get_if_present(&"bar".to_owned()));
}

#[test]
fn nonlockingmap_publishes_new_maps() {
    let (mut map, mut current) = nonlockingmap::NonLockingMap::new();
    let reader = map.clone_handle();
    assert_eq!(None, map.get_if_present(&"foo".to_owned()));

    let new_map = map.create_if_necessary(&current, "foo".to_owned(), hello_factory).unwrap();
    current = new_map;
    assert_eq!(Some("Hello, foo!".to_owned()), map.get_if_present(&"foo".to_owned()));
    assert_eq!(Some("Hello, foo!".to_owned()), nonlockingmap::NonLockingMap::get_sync(&current, &"foo".to_owned()));
    // A handle taken before the write still reads the map it was given.
    assert_eq!(None, reader.get_if_present(&"foo".to_owned()));

    assert!(map.create_if_necessary(&current, "foo".to_owned(), unused_factory).is_none());
}

#[test]
fn nonlockingmap_future_polls() {
    let (mut map, current) = nonlockingmap::NonLockingMap::new();
    let mut future = nonlockingmap::MapReturnFuture::new("foo".to_owned(), hello_factory);
    let factory = match future.poll(&map) {
        PollOutcome::Send(key, factory) => {
            assert_eq!("foo", key);
            factory
        }
        PollOutcome::Ready(_) => panic!("ready before the key was added"),
    };
    map.create_if_necessary(&current, "foo".to_owned(), factory).unwrap();
    match future.poll(&map) {
        PollOutcome::Ready(value) => assert_eq!("Hello, foo!", value),
        PollOutcome::Send(_, _) => panic!("handed over twice"),
    }
}

#[test]
fn swappable_swaps() {
    let mut slot = Swappable::new(1u8);
    assert_eq!(1, slot.swap(2));
    assert_eq!(2, slot.swap(3));
}

#[test]
fn stores_hold_one_key_per_version() {
    let (mut map, mut store) = VersionedMap::new();
    assert_eq!(0, store.latest().map.len());
    for key in ["a", "b", "a", "c", "b"] {
        let (_, reply) = store.get_or_create(key.to_string(), hello_factory);
        assert_eq!(reply.version as usize, reply.map.len());
        assert_eq!(store.latest_version() as usize, store.latest().map.len());
    }
    assert_eq!(3, store.latest_version());
    // A reader that is up to date needs nothing from the writer.
    let _ = map.latest_map(store.latest_version(), Some(store.latest().clone_holder()), None);
    assert!(!map.needs_latest_map(store.latest_version(), &None));
    assert_eq!(Some("Hello, c!".to_owned()), map.get_if_present(store.latest_version(), None, None, &"c".to_owned()));
}

#[test]
fn stores_can_serve_requests() {
    let (_, mut store) = VersionedMap::new();
    assert!(store.can_serve(&"a".to_owned()));
    let (_, reply) = store.get_or_create("a".to_owned(), hello_factory);
    assert!(reply.is_version(1));
    assert!(!reply.is_version(0));
    assert!(store.can_serve(&"a".to_owned()));

    let (_, mut writer) = NonPointerMap::new();
    assert!(writer.can_serve(&"a".to_owned()));
    let (_, reply) = writer.get_or_create("a".to_owned(), hello_factory);
    assert!(reply.is_version(writer.latest_version()));
}
