use lofty::file::FileType;
use knoobar::library::{
    cover_mime, epoch_ms, index_duration, normalize_root_path, now_ms, primary_tag_from_guess, primary_tag_to_create,
    resolve_tags,
    tag_edits, track_filter_pattern, track_row, CoverMime, RawTags, ScanTally, TagEdit, TagPatch, TagRead,
    TrackTags,
};
use knoobar::probe::{probed_info, ProbedInfo};

fn raw(title: Option<&str>, artist: Option<&str>, album_artist: Option<&str>) -> RawTags {
    RawTags {
        title: title.map(|s| s.to_string()),
        album: Some("Album".to_string()),
        artist: artist.map(|s| s.to_string()),
        album_artist: album_artist.map(|s| s.to_string()),
        track: Some(3),
        disk: None,
    }
}

#[test]
fn root_paths_are_trimmed_and_must_not_be_empty() {
    assert_eq!(normalize_root_path("  /srv/music \n"), Ok("/srv/music".to_string()));
    assert_eq!(normalize_root_path("/srv/music"), Ok("/srv/music".to_string()));
    assert_eq!(normalize_root_path(""), Err("empty path".to_string()));
    assert_eq!(normalize_root_path(" \t "), Err("empty path".to_string()));
    let once = normalize_root_path("  x  ").unwrap();
    assert_eq!(normalize_root_path(&once), Ok(once.clone()));
}

#[test]
fn filters_become_like_patterns() {
    assert_eq!(track_filter_pattern(None), None);
    assert_eq!(track_filter_pattern(Some(String::new())), None);
    assert_eq!(track_filter_pattern(Some("   ".to_string())), None);
    assert_eq!(track_filter_pattern(Some(" The Beatles ".to_string())), Some("%the beatles%".to_string()));
    assert_eq!(track_filter_pattern(Some("\u{c4}rzte".to_string())), Some("%\u{e4}rzte%".to_string()));
}

#[test]
fn unreadable_files_have_no_tags() {
    let t = resolve_tags(TagRead::Unreadable, "/m/Song.flac");
    assert_eq!(t.title, None);
    assert_eq!(t.artist, None);
    assert_eq!(t.track_number, None);
}

#[test]
fn untagged_files_are_titled_by_stem() {
    let t = resolve_tags(TagRead::Read { primary: None, first: None }, "/m/My Song.flac");
    assert_eq!(t.title, Some("My Song".to_string()));
    assert_eq!(t.album, None);
    assert_eq!(t.album_artist, None);
}

#[test]
fn tag_fallbacks() {
    let t = resolve_tags(TagRead::Read { primary: Some(raw(None, None, Some("AA"))), first: None }, "/m/x.mp3");
    assert_eq!(t.title, Some("x".to_string()));
    assert_eq!(t.artist, Some("AA".to_string()));
    assert_eq!(t.album_artist, Some("AA".to_string()));
    assert_eq!(t.album, Some("Album".to_string()));
    assert_eq!(t.track_number, Some(3));
    assert_eq!(t.disc_number, None);
    let t = resolve_tags(TagRead::Read { primary: Some(raw(Some("T"), Some("A"), Some("AA"))), first: None }, "/m/x.mp3");
    assert_eq!(t.title, Some("T".to_string()));
    assert_eq!(t.artist, Some("A".to_string()));
}

#[test]
fn primary_tag_wins_over_first() {
    let t = resolve_tags(
        TagRead::Read { primary: Some(raw(Some("P"), None, None)), first: Some(raw(Some("F"), None, None)) },
        "/m/x.mp3",
    );
    assert_eq!(t.title, Some("P".to_string()));
    let t = resolve_tags(TagRead::Read { primary: None, first: Some(raw(Some("F"), None, None)) }, "/m/x.mp3");
    assert_eq!(t.title, Some("F".to_string()));
}

#[test]
fn patch_edits() {
    let patch = TagPatch {
        title: "T".to_string(),
        album: "Al".to_string(),
        artist: "Ar".to_string(),
        album_artist: "AA".to_string(),
        track_number: Some(4),
        disc_number: None,
    };
    let edits = tag_edits(patch);
    assert_eq!(edits.len(), 5);
    assert!(matches!(&edits[0], TagEdit::SetTitle(s) if s == "T"));
    assert!(matches!(&edits[1], TagEdit::SetAlbum(s) if s == "Al"));
    assert!(matches!(&edits[2], TagEdit::SetArtist(s) if s == "Ar"));
    assert!(matches!(&edits[3], TagEdit::AddAlbumArtist(s) if s == "AA"));
    assert!(matches!(&edits[4], TagEdit::SetTrack(4)));
    let patch = TagPatch {
        title: String::new(),
        album: String::new(),
        artist: String::new(),
        album_artist: String::new(),
        track_number: Some(1),
        disc_number: Some(2),
    };
    let edits = tag_edits(patch);
    assert_eq!(edits.len(), 6);
    assert!(matches!(&edits[5], TagEdit::SetDisk(2)));
}

#[test]
fn primary_tag_creation() {
    assert!(matches!(primary_tag_to_create(true, "/m/x.unknownext"), Ok(None)));
    assert!(matches!(primary_tag_to_create(false, "/m/x.flac"), Ok(Some(_))));
    assert_eq!(
        primary_tag_to_create(false, "/m/x.unknownext").err(),
        Some("could not guess tag type for file".to_string())
    );
}

#[test]
fn cover_art_types() {
    assert_eq!(cover_mime(&[0xff, 0xd8, 0xff, 0xe0]), CoverMime::Jpeg);
    assert_eq!(cover_mime(&[0xff, 0xd8]), CoverMime::Jpeg);
    assert_eq!(cover_mime(&[0x89, b'P', b'N', b'G']), CoverMime::Png);
    assert_eq!(cover_mime(&[0xff]), CoverMime::Png);
    assert_eq!(cover_mime(&[]), CoverMime::Png);
}

#[test]
fn stored_durations() {
    assert_eq!(index_duration(Some(1234), Some(99)), Some(1234));
    assert_eq!(index_duration(None, Some(99)), Some(99));
    assert_eq!(index_duration(Some(0), Some(99)), Some(99));
    assert_eq!(index_duration(Some(0), None), Some(0));
    assert_eq!(index_duration(None, None), None);
}

#[test]
fn rows_combine_tags_and_probe() {
    let tags = TrackTags {
        title: Some("T".to_string()),
        album: None,
        artist: Some("A".to_string()),
        album_artist: None,
        track_number: Some(1),
        disc_number: Some(2),
    };
    let probed = probed_info(Some(44100), Some(2), None, "Flac".to_string(), "/m/t.FLAC");
    let row = track_row(7, "/m/t.FLAC".to_string(), tags, probed, Some(5000), Some(1_700_000_000_000), 1234);
    assert_eq!(row.root_id, 7);
    assert_eq!(row.path, "/m/t.FLAC");
    assert_eq!(row.title, Some("T".to_string()));
    assert_eq!(row.duration_ms, Some(5000));
    assert_eq!(row.sample_rate, Some(44100));
    assert_eq!(row.channels, Some(2));
    assert_eq!(row.bit_depth, None);
    assert_eq!(row.codec_hint, Some("Flac".to_string()));
    assert_eq!(row.container, Some("flac".to_string()));
    assert_eq!(row.file_mtime, 1_700_000_000_000);
    assert_eq!(row.file_size, 1234);
}

#[test]
fn probe_facts() {
    let p = probed_info(None, Some(258), Some(10), "Mp3".to_string(), "a.noext.");
    assert_eq!(p.channels, Some(2));
    assert_eq!(p.container, Some(String::new()));
    let u = ProbedInfo::unknown();
    assert!(u.sample_rate.is_none() && u.duration_ms.is_none() && u.container.is_none());
}

#[test]
fn epoch_times() {
    assert_eq!(epoch_ms(None), 0);
    assert_eq!(epoch_ms(Some(42)), 42);
    assert!(now_ms() > 1_600_000_000_000);
}

#[test]
fn scan_counts_audio_files_and_stored_tracks() {
    let mut t = ScanTally::new();
    assert!(t.consider(true, "/m/a.flac"));
    t.record(true);
    assert!(!t.consider(true, "/m/cover.jpg"));
    assert!(!t.consider(false, "/m/dir.flac"));
    assert!(t.consider(true, "/m/b.MP3"));
    assert!(t.awaiting());
    t.record(false);
    assert!(!t.awaiting());
    assert_eq!(t.counts(), (2, 1));
}

#[test]
fn primary_tag_decision_from_guess() {
    assert!(matches!(primary_tag_from_guess(true, Some(FileType::Flac)), Ok(None)));
    assert!(matches!(primary_tag_from_guess(true, None), Ok(None)));
    assert!(matches!(primary_tag_from_guess(false, Some(FileType::Mpeg)), Ok(Some(FileType::Mpeg))));
    assert_eq!(
        primary_tag_from_guess(false, None).err(),
        Some("could not guess tag type for file".to_string())
    );
}

#[test]
fn files_without_extension_get_no_tag_type() {
    assert!(primary_tag_to_create(false, "noext").is_err());
    assert!(primary_tag_to_create(false, ".flac").is_err());
    assert!(matches!(primary_tag_to_create(false, "song.MP3"), Ok(Some(_))));
}
