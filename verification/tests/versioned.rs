use async_map::single_writer_versioned::{Versioned, VersionedUpdaterAction};

#[test]
fn intial_holds_passed_data() {
    let (mut versioned, _writer, chain) = Versioned::from_initial(String::from("Hello"));

    versioned.with_latest(&chain, |data: &String| assert_eq!("Hello", data));
}

#[test]
fn updates_are_processed() {
    let (mut versioned, writer, mut chain) = Versioned::from_initial(String::from("Hello"));

    let (_writer, running) = writer.process(
        &mut chain,
        VersionedUpdaterAction::Update(|old: &String| Some(old.clone() + ", World")),
    );
    assert!(running);

    versioned.with_latest(&chain, |data: &String| assert_eq!("Hello, World", data));
}

#[test]
fn updates_are_shared() {
    let (mut versioned, writer, mut chain) = Versioned::from_initial(String::from("Hello"));
    let mut clone = versioned;

    let (_writer, _) = writer.process(
        &mut chain,
        VersionedUpdaterAction::Update(|old: &String| Some(old.clone() + ", World")),
    );

    versioned.with_latest(&chain, |data: &String| assert_eq!("Hello, World", data));
    clone.with_latest(&chain, |data: &String| assert_eq!("Hello, World", data));
}

#[test]
fn quitter_quits() {
    let (mut versioned, writer, mut chain) = Versioned::from_initial(String::from("Hello"));

    let (writer, running) = writer.process(
        &mut chain,
        VersionedUpdaterAction::Update(|old: &String| Some(old.clone() + ", World")),
    );
    assert!(running);

    let (writer, running) = writer.process(
        &mut chain,
        VersionedUpdaterAction::<fn(&String) -> Option<String>>::Quit,
    );
    assert!(!running);
    assert!(writer.is_stopped());

    let (writer, running) = writer.process(
        &mut chain,
        VersionedUpdaterAction::Update(|old: &String| Some(old.clone() + "! And Moon!")),
    );
    // The update after quitting is refused.
    assert!(!running);
    assert!(writer.is_stopped());
    assert_eq!(1, chain.latest_version());

    // The second update did not take.
    versioned.with_latest(&chain, |data: &String| assert_eq!("Hello, World", data));
}

#[test]
fn an_update_that_returns_none_changes_nothing() {
    let (mut versioned, writer, mut chain) = Versioned::from_initial(7u64);
    let (writer, running) =
        writer.process(&mut chain, VersionedUpdaterAction::Update(|_: &u64| None::<u64>));
    assert!(running);
    assert_eq!(7, versioned.with_latest(&chain, |data: &u64| *data));

    let (_writer, _) =
        writer.process(&mut chain, VersionedUpdaterAction::Update(|old: &u64| Some(old * 6)));
    assert_eq!(42, versioned.with_latest(&chain, |data: &u64| *data));
}

#[test]
fn updates_run_one_after_another_in_order() {
    let (mut versioned, writer, mut chain) = Versioned::from_initial(String::from("a"));
    let mut writer = writer;
    for suffix in ["b", "", "c"] {
        let out = writer.run_update(&chain, |old: &String| {
            if suffix.is_empty() {
                None
            } else {
                Some(old.clone() + suffix)
            }
        });
        writer = writer.commit(&mut chain, out);
    }
    assert_eq!(2, chain.latest_version());
    assert_eq!("abc", versioned.with_latest(&chain, |data: &String| data.clone()));
}
