use music_browser::paths::extension;
use std::path::Path;

#[test]
fn extension_follows_the_last_dot() {
    assert_eq!(extension("song.mp3"), Some("mp3".to_string()));
    assert_eq!(extension("a.b.c"), Some("c".to_string()));
    assert_eq!(extension(".a.b"), Some("b".to_string()));
    assert_eq!(extension("a."), Some("".to_string()));
    assert_eq!(extension("x.flac"), Some("flac".to_string()));
}

#[test]
fn extension_is_missing_without_an_inner_dot() {
    assert_eq!(extension(""), None);
    assert_eq!(extension("Album"), None);
    assert_eq!(extension(".hidden"), None);
    assert_eq!(extension("."), None);
}

#[test]
fn extension_agrees_with_the_standard_library_on_file_names() {
    let names = [
        "song.mp3", "cover.jpg", "Album", ".hidden", "a.b.c", ".a.b", "a.", "archive.tar.gz",
        "..x", "x..", "caf\u{e9}.wav", "\u{266b}.m4a", "no_dot",
    ];
    for name in names {
        let expected = Path::new(name).extension().map(|e| e.to_string_lossy().into_owned());
        assert_eq!(extension(name), expected);
    }
}
