use async_map::single_writer_versioned::version::Version;

#[test]
fn it_creates_sensible_initial() {
    let (chain, version, _) = Version::initial("hello");
    assert_eq!("hello", *version.as_ref(&chain));
    assert_eq!(0, version.number());
}

#[test]
fn it_accepts_a_next_version() {
    let (mut chain, first, _) = Version::initial("hello");
    let (second, _) = first.set_next(&mut chain, "goodbye").unwrap();

    assert_eq!("hello", *first.as_ref(&chain));
    assert_eq!(0, first.number());
    assert_eq!(second.number(), first.next(&chain).number());

    assert_eq!("goodbye", *second.as_ref(&chain));
    assert_eq!(1, second.number());
}

#[test]
fn it_does_not_update_next_version() {
    let (mut chain, first, _) = Version::initial("hello");
    let (_, _) = first.set_next(&mut chain, "goodbye").unwrap();
    let result = first.set_next(&mut chain, "au revoir");

    assert_eq!(true, result.is_err());
}

#[test]
fn latest_returns_none_on_latest() {
    let (mut chain, first, _) = Version::initial("hello");

    assert_eq!(true, first.latest(&chain).is_none());

    let second = first.set_next(&mut chain, "goodbye").unwrap().0;
    assert_eq!(true, second.latest(&chain).is_none());
}

#[test]
fn latest_returns_latest() {
    let (mut chain, first, _) = Version::initial("hello");

    let second = first.set_next(&mut chain, "goodbye").unwrap().0;
    assert_eq!("goodbye", *first.latest(&chain).unwrap().as_ref(&chain));

    let third = second.set_next(&mut chain, "servus").unwrap().0;
    assert_eq!("servus", *first.latest(&chain).unwrap().as_ref(&chain));
    assert_eq!("servus", *second.latest(&chain).unwrap().as_ref(&chain));
    assert_eq!(true, third.latest(&chain).is_none());
}

#[test]
fn updater_updates() {
    let (mut chain, first, updater) = Version::initial("hello");

    let (second, updater) = updater.update(&mut chain, "goodbye");
    assert_eq!("goodbye", *first.latest(&chain).unwrap().as_ref(&chain));

    let third = updater.update(&mut chain, "servus").0;
    assert_eq!("servus", *first.latest(&chain).unwrap().as_ref(&chain));
    assert_eq!("servus", *second.latest(&chain).unwrap().as_ref(&chain));
    assert_eq!(true, third.latest(&chain).is_none());
}

#[test]
fn rejected_next_gives_data_back_and_keeps_chain() {
    let (mut chain, first, _) = Version::initial(String::from("a"));
    let second = first.set_next(&mut chain, String::from("b")).unwrap().0;
    match first.set_next(&mut chain, String::from("c")) {
        Err(data) => assert_eq!("c", data),
        Ok(_) => panic!("an older version accepted a next version"),
    }
    assert_eq!("b", second.as_ref(&chain).as_str());
    assert_eq!(1, first.latest(&chain).unwrap().number());
    assert_eq!("a", first.as_ref(&chain).as_str());
}

#[test]
fn every_version_keeps_its_data() {
    let (mut chain, first, mut updater) = Version::initial(0u64);
    let mut handles = vec![first];
    for i in 1..10u64 {
        let (next, next_updater) = updater.update(&mut chain, i * 10);
        handles.push(next);
        updater = next_updater;
    }
    for (i, handle) in handles.iter().enumerate() {
        assert_eq!(i as u32, handle.number());
        assert_eq!(i as u64 * 10, *handle.as_ref(&chain));
        match handle.latest(&chain) {
            Some(newest) => assert_eq!(90, *newest.as_ref(&chain)),
            None => assert_eq!(9, handle.number()),
        }
    }
    assert_eq!(4, handles[3].next(&chain).number());
}
