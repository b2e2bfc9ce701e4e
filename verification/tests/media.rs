use knoobar::library::not_a_directory;
use knoobar::media::{extension_hint, is_audio_file, prefers_ffmpeg};

#[test]
fn audio_extensions_are_recognised_in_any_case() {
    assert!(is_audio_file("/music/album/01 - Intro.flac"));
    assert!(is_audio_file("/music/album/01 - Intro.FLAC"));
    assert!(is_audio_file("C:/Music/track.Mp3"));
    assert!(is_audio_file("song.opus"));
    assert!(is_audio_file("x.wave"));
    assert!(is_audio_file("x.mpc"));
}

#[test]
fn non_audio_paths_are_rejected() {
    assert!(!is_audio_file("/music/cover.jpg"));
    assert!(!is_audio_file("/music/notes"));
    assert!(!is_audio_file("/music/.flac"));
    assert!(!is_audio_file("/music/flac"));
    assert!(!is_audio_file(""));
    assert!(!is_audio_file("/music/a.flac.txt"));
}

#[test]
fn ffmpeg_formats() {
    assert!(prefers_ffmpeg("a.wma"));
    assert!(prefers_ffmpeg("a.ASF"));
    assert!(prefers_ffmpeg("a.dsf"));
    assert!(prefers_ffmpeg("a.DFF"));
    assert!(prefers_ffmpeg("a.dsdiff"));
    assert!(!prefers_ffmpeg("a.flac"));
    assert!(!prefers_ffmpeg("a.mp3"));
    assert!(!prefers_ffmpeg("noext"));
}

#[test]
fn ffmpeg_formats_are_audio_files() {
    for p in ["a.wma", "a.asf", "a.dsf", "a.dff", "a.dsdiff", "b.WMA", "c.DsF"] {
        assert!(prefers_ffmpeg(p));
        assert!(is_audio_file(p));
    }
}

#[test]
fn extension_hint_lowercases() {
    assert_eq!(extension_hint("/a/b/Track.M4A"), Some("m4a".to_string()));
    assert_eq!(extension_hint("/a/b/Track"), None);
    assert_eq!(extension_hint("/a/b.dir/Track"), None);
    assert_eq!(extension_hint("archive.tar.GZ"), Some("gz".to_string()));
}

#[test]
fn extensions_follow_std_paths() {
    assert_eq!(extension_hint("/x/y.Flac"), Some("flac".to_string()));
    assert_eq!(extension_hint("/x/.hidden"), None);
    assert_eq!(extension_hint("/x/a.b.c"), Some("c".to_string()));
    assert_eq!(extension_hint("/x/trailing."), Some(String::new()));
}

#[test]
fn not_a_directory_message() {
    assert_eq!(not_a_directory("/srv/music"), "not a directory: /srv/music");
}

#[test]
fn bare_file_names() {
    assert!(is_audio_file("x.FLAC"));
    assert!(!is_audio_file("song.wma.bak"));
    assert!(!is_audio_file(".mp3"));
    assert!(!is_audio_file("..."));
    assert_eq!(extension_hint("..."), Some(String::new()));
    assert_eq!(extension_hint(".a.B"), Some("b".to_string()));
}

#[test]
fn plain_paths_use_the_name_after_the_last_slash() {
    assert!(is_audio_file("/music/x.FLAC"));
    assert!(!is_audio_file("/music.flac/cover"));
    assert!(!is_audio_file("/music/.mp3"));
    assert!(!is_audio_file("/music/song.wma.bak"));
    assert_eq!(extension_hint("a/b.c/d.Ogg"), Some("ogg".to_string()));
}
