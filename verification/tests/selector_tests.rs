use rustify::dir_error::MusicDirCreationError;
use rustify::music_dir::{is_track_file, DirListing, MusicDir};

fn listing(name: &str, files: &[&str], dirs: Vec<DirListing>) -> DirListing {
    DirListing {
        name: name.to_string(),
        file_names: files.iter().map(|f| f.to_string()).collect(),
        sub_dirs: dirs,
    }
}

#[test]
fn empty_directory_yields_empty_error() {
    let l = listing("root", &[], Vec::new());
    match MusicDir::build(&l) {
        Err(MusicDirCreationError::Empty) => {}
        _ => panic!("an empty directory must fail with Empty"),
    }
}

#[test]
fn directory_without_tracks_yields_empty_error() {
    let sub = listing("sub", &["notes.txt", "cover.png"], Vec::new());
    let l = listing("root", &["readme.md"], vec![sub]);
    match MusicDir::build(&l) {
        Err(MusicDirCreationError::Empty) => {}
        _ => panic!("a directory with no track anywhere must fail with Empty"),
    }
}

#[test]
fn build_keeps_only_track_files_in_order() {
    let l = listing("root", &["a.mp3", "b.txt", "c.mp3", ".mp3", "dmp3"], Vec::new());
    let m = MusicDir::build(&l).unwrap();
    assert_eq!(m.local_track_names, vec!["a.mp3".to_string(), "c.mp3".to_string()]);
    assert_eq!(m.subtree_tracks, 2);
    assert_eq!(m.local_plays, 0);
    assert_eq!(m.sub_plays, 0);
}

#[test]
fn build_prunes_empty_subdirectories() {
    let empty_sub = listing("empty", &["cover.jpg"], Vec::new());
    let full_sub = listing("full", &["x.mp3"], Vec::new());
    let l = listing("root", &["a.mp3"], vec![empty_sub, full_sub]);
    let m = MusicDir::build(&l).unwrap();
    assert_eq!(m.sub_dirs.len(), 1);
    assert_eq!(m.sub_dirs[0].name, "full");
    assert_eq!(m.subtree_tracks, 2);
}

#[test]
fn build_counts_nested_tracks() {
    let inner = listing("inner", &["one.mp3", "two.mp3"], Vec::new());
    let mid = listing("mid", &["three.mp3"], vec![inner]);
    let l = listing("root", &[], vec![mid]);
    let m = MusicDir::build(&l).unwrap();
    assert_eq!(m.subtree_tracks, 3);
    assert_eq!(m.sub_dirs.len(), 1);
    assert_eq!(m.sub_dirs[0].subtree_tracks, 3);
}

#[test]
fn single_track_selection_returns_its_path() {
    let l = listing("root", &["only.mp3"], Vec::new());
    let mut m = MusicDir::build(&l).unwrap();
    let path = m.next_track();
    assert_eq!(path, vec!["root".to_string(), "only.mp3".to_string()]);
    assert_eq!(m.local_plays, 1);
    assert_eq!(m.sub_plays, 0);
}

#[test]
fn two_equal_children_alternate() {
    let a = listing("a", &["a1.mp3"], Vec::new());
    let b = listing("b", &["b1.mp3"], Vec::new());
    let l = listing("root", &[], vec![a, b]);
    let mut m = MusicDir::build(&l).unwrap();
    let first = m.next_track();
    let second = m.next_track();
    // Whichever child the tie-break picked first, the other one must follow.
    assert_ne!(first[1], second[1]);
    assert_eq!(m.sub_plays, 2);
    assert_eq!(m.sub_dirs[0].local_plays + m.sub_dirs[1].local_plays, 2);
    assert_eq!(m.sub_dirs[0].local_plays, 1);
    assert_eq!(m.sub_dirs[1].local_plays, 1);
}

#[test]
fn plays_follow_subtree_sizes() {
    // One child holds two tracks, the other one: after three selections the
    // bigger child must have been visited twice and the smaller once.
    let a = listing("a", &["a1.mp3", "a2.mp3"], Vec::new());
    let b = listing("b", &["b1.mp3"], Vec::new());
    let l = listing("root", &[], vec![a, b]);
    let mut m = MusicDir::build(&l).unwrap();
    for _ in 0..3 {
        m.next_track();
    }
    assert_eq!(m.sub_plays, 3);
    let plays_a = m.sub_dirs[0].local_plays + m.sub_dirs[0].sub_plays;
    let plays_b = m.sub_dirs[1].local_plays + m.sub_dirs[1].sub_plays;
    assert_eq!(plays_a, 2);
    assert_eq!(plays_b, 1);
}

#[test]
fn tie_between_local_and_child_goes_to_the_child() {
    let sub = listing("sub", &["s.mp3"], Vec::new());
    let l = listing("root", &["local.mp3"], vec![sub]);
    let mut m = MusicDir::build(&l).unwrap();
    let path = m.next_track();
    assert_eq!(path, vec!["root".to_string(), "sub".to_string(), "s.mp3".to_string()]);
    assert_eq!(m.local_plays, 0);
    assert_eq!(m.sub_plays, 1);
    // With the child one play ahead, the local track is now least played.
    let path2 = m.next_track();
    assert_eq!(path2, vec!["root".to_string(), "local.mp3".to_string()]);
    assert_eq!(m.local_plays, 1);
    assert_eq!(m.sub_plays, 1);
}

#[test]
fn emptiness_getters() {
    let l = listing("root", &["a.mp3"], Vec::new());
    let m = MusicDir::build(&l).unwrap();
    assert!(m.has_tracks());
    assert!(!m.has_sub_dirs());
    assert!(!m.is_empty());
}

#[test]
fn track_file_names_need_a_stem_and_the_extension() {
    assert!(is_track_file("a.mp3"));
    assert!(is_track_file("x.tar.mp3"));
    assert!(!is_track_file(".mp3"));
    assert!(!is_track_file("a.mp4"));
    assert!(!is_track_file("mp3"));
    assert!(!is_track_file("a.MP3"));
}

#[test]
fn error_messages_name_the_cause() {
    assert_eq!(MusicDirCreationError::NotFound.message(), "Error: path not found");
    assert_eq!(
        MusicDirCreationError::NotDir.message(),
        "Error: selected path is not a folder"
    );
    assert_eq!(
        MusicDirCreationError::Empty.message(),
        "Error: no .mp3 files found inside the selected folder and its relative sub-folders"
    );
    assert_eq!(MusicDirCreationError::Unknown.message(), "An unknown error occurred");
}
