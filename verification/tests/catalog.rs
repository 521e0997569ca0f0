use tunequeue::audio::{get_audio_paths, is_audio_path};
use tunequeue::track::Track;

#[test]
fn title_taken_from_tag() {
    let path = String::from("music/recording.mp3");
    let title = Track::get_title(Some("My Song"), &path);
    assert_eq!(title, "My Song");
}

#[test]
fn title_falls_back_to_basename() {
    let path = String::from("music/artist/song.mp3");
    assert_eq!(Track::get_title(None, &path), "song.mp3");

    let bare = String::from("loose-file.wav");
    assert_eq!(Track::get_title(None, &bare), "loose-file.wav");

    let trailing = String::from("music/dir/");
    assert_eq!(Track::get_title(None, &trailing), "");
}

#[test]
fn recognizes_audio_extensions() {
    assert!(is_audio_path("a.mp3"));
    assert!(is_audio_path("b.aac"));
    assert!(is_audio_path("c.m4a"));
    assert!(is_audio_path("d.wav"));
    assert!(is_audio_path("dir/sub/e.mp3"));
    assert!(is_audio_path("archive.tar.m4a"));

    assert!(!is_audio_path("notes.txt"));
    assert!(!is_audio_path("noextension"));
    assert!(!is_audio_path("song."));
    // Extensions are compared case-sensitively.
    assert!(!is_audio_path("A.MP3"));
    // A lone hidden file has no extension.
    assert!(!is_audio_path(".mp3"));
    assert!(!is_audio_path("dir/.mp3"));
    // The extension belongs to the basename, not to a directory.
    assert!(!is_audio_path("dir.mp3/readme"));
    assert!(!is_audio_path(""));
}

#[test]
fn filters_audio_paths_in_order() {
    let paths = vec![
        String::from("one.mp3"),
        String::from("skip.txt"),
        String::from("two.wav"),
        String::from("cover.png"),
        String::from("three.aac"),
    ];
    let kept = get_audio_paths(paths);
    assert_eq!(kept, vec!["one.mp3", "two.wav", "three.aac"]);
}

#[test]
fn filters_nothing_from_empty() {
    let kept = get_audio_paths(Vec::new());
    assert!(kept.is_empty());
}
