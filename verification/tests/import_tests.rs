use librarian::import::{
    plan_placement, release_dir_path, track_dest_path, ImportBatcher, ImportPlacement,
    FS_HANDLE_LIMIT,
};

#[test]
fn destination_paths_follow_the_layout() {
    let dir = release_dir_path("/music/lib", "Queen", "A Night at the Opera");
    assert_eq!(dir, "/music/lib/Queen/A Night at the Opera");
    let dest = track_dest_path(&dir, "song.flac");
    assert_eq!(dest, "/music/lib/Queen/A Night at the Opera/song.flac");
}

#[test]
fn placement_policy() {
    match plan_placement(false, String::from("/lib/a/b/t.flac"), false) {
        ImportPlacement::KeepInPlace => (),
        _ => panic!("copying disabled must keep the file in place"),
    }
    match plan_placement(true, String::from("/lib/a/b/t.flac"), true) {
        ImportPlacement::SkipExisting => (),
        _ => panic!("an existing destination must skip the record"),
    }
    match plan_placement(true, String::from("/lib/a/b/t.flac"), false) {
        ImportPlacement::CopyTo(d) => assert_eq!(d, "/lib/a/b/t.flac"),
        _ => panic!("a fresh destination must be copied to"),
    }
}

#[test]
fn batcher_fills_and_drains() {
    assert_eq!(FS_HANDLE_LIMIT, 20);
    let mut b = ImportBatcher::new(2);
    assert!(!b.must_drain());
    b.note_started();
    assert!(!b.must_drain());
    b.note_started();
    assert!(b.must_drain());
    b.drain();
    assert!(!b.must_drain());
    b.note_started();
    assert!(!b.must_drain());
}
