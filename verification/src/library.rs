//! The rules of the music library: which root paths are accepted, how a
//! search filter becomes a pattern, how a file's tags become the title,
//! album and artist columns of its row, which edits a tag patch makes, how
//! embedded cover art is typed, and how a scan counts what it found.

use vstd::prelude::*;

use lofty::file::FileType;

use crate::media::{bare_name_extension, is_audio_file, is_plain_path, name_part, path_file_stem, spec_is_audio_file, spec_path_extension, spec_path_file_stem};
use crate::probe::{spec_needs_ffprobe, ProbedInfo};
use crate::text::{concat_str, opt_view, spec_to_lowercase, to_lowercase, trim, trimmed};

verus! {

// ---------------------------------------------------------------------------
// Library roots
// ---------------------------------------------------------------------------

/// The path stored for a new library root: the given path without leading
/// and trailing white space; refused with `"empty path"` when nothing is
/// left.
pub fn normalize_root_path(path: &str) -> (r: Result<String, String>)
    ensures
        trimmed(path@).len() == 0 <==> r is Err,
        r matches Err(e) ==> e@ == "empty path"@,
        r matches Ok(p) ==> p@ == trimmed(path@),
{
    let t = trim(path);
    if t.as_str().is_empty() {
        Err("empty path".to_string())
    } else {
        Ok(t)
    }
}

/// The message of the error for a library root that is not a directory.
pub fn not_a_directory(path: &str) -> (r: String)
    ensures
        r@ == "not a directory: "@ + path@,
{
    concat_str("not a directory: ", path)
}

// ---------------------------------------------------------------------------
// Track search
// ---------------------------------------------------------------------------

/// The normalized search text: trimmed, then lower-cased.
pub open spec fn spec_filter_text(filter: Option<String>) -> Seq<char> {
    let f = match filter {
        Some(f) => f@,
        None => Seq::empty(),
    };
    spec_to_lowercase(trimmed(f))
}

/// The `LIKE` pattern that selects tracks whose title, album, artist or album
/// artist (lower-cased) contains the normalized search text; none (list every
/// track) when that text is empty.
pub fn track_filter_pattern(filter: Option<String>) -> (r: Option<String>)
    ensures
        spec_filter_text(filter).len() == 0 <==> r is None,
        r matches Some(p) ==> p@ == "%"@ + spec_filter_text(filter) + "%"@,
        // A blank filter (absent, empty or only white space) lists every track.
        (filter matches Some(f) ==> trimmed(f@).len() == 0) ==> r is None,
{
    let raw = match &filter {
        Some(f) => f.clone(),
        None => String::new(),
    };
    let t = trim(raw.as_str());
    let lower = to_lowercase(t.as_str());
    if lower.as_str().is_empty() {
        None
    } else {
        let front = concat_str("%", lower.as_str());
        let pattern = concat_str(front.as_str(), "%");
        assert(pattern@ =~= "%"@ + spec_filter_text(filter) + "%"@);
        Some(pattern)
    }
}

// ---------------------------------------------------------------------------
// Tags read from a file
// ---------------------------------------------------------------------------

/// The text and number fields of one tag of a file.
pub struct RawTags {
    pub title: Option<String>,
    pub album: Option<String>,
    pub artist: Option<String>,
    pub album_artist: Option<String>,
    pub track: Option<u32>,
    pub disk: Option<u32>,
}

/// What reading a file's tags gave.
pub enum TagRead {
    /// The file could not be opened or parsed.
    Unreadable,
    /// The file was read; it may have a primary tag and a first tag.
    Read { primary: Option<RawTags>, first: Option<RawTags> },
}

/// The tag columns of a track's row.
pub struct TrackTags {
    pub title: Option<String>,
    pub album: Option<String>,
    pub artist: Option<String>,
    pub album_artist: Option<String>,
    pub track_number: Option<i64>,
    pub disc_number: Option<i64>,
}

/// An optional number widened to a signed column value.
pub open spec fn widen(n: Option<u32>) -> Option<i64> {
    match n {
        Some(v) => Some(v as i64),
        None => None,
    }
}

/// The first of two optional texts that is present.
pub open spec fn or_text(a: Option<Seq<char>>, b: Option<Seq<char>>) -> Option<Seq<char>> {
    match a {
        Some(x) => Some(x),
        None => b,
    }
}

/// The tag columns of a file at `path`: nothing for an unreadable file; only
/// the file stem as title for a file without tags; otherwise the primary tag
/// (or else the first tag), the title falling back to the file stem and the
/// artist falling back to the album artist.
pub open spec fn spec_resolve_tags(read: TagRead, path: Seq<char>) -> (
    Option<Seq<char>>,
    Option<Seq<char>>,
    Option<Seq<char>>,
    Option<Seq<char>>,
    Option<i64>,
    Option<i64>,
) {
    match read {
        TagRead::Unreadable => (None, None, None, None, None, None),
        TagRead::Read { primary, first } => {
            let tag = match primary {
                Some(t) => Some(t),
                None => first,
            };
            match tag {
                None => (spec_path_file_stem(path), None, None, None, None, None),
                Some(t) => (
                    or_text(opt_view(t.title), spec_path_file_stem(path)),
                    opt_view(t.album),
                    or_text(opt_view(t.artist), opt_view(t.album_artist)),
                    opt_view(t.album_artist),
                    widen(t.track),
                    widen(t.disk),
                ),
            }
        },
    }
}

/// The columns of `tags` in the shape of `spec_resolve_tags`.
pub open spec fn track_tags_view(tags: TrackTags) -> (
    Option<Seq<char>>,
    Option<Seq<char>>,
    Option<Seq<char>>,
    Option<Seq<char>>,
    Option<i64>,
    Option<i64>,
) {
    (
        opt_view(tags.title),
        opt_view(tags.album),
        opt_view(tags.artist),
        opt_view(tags.album_artist),
        tags.track_number,
        tags.disc_number,
    )
}

fn widen_number(n: Option<u32>) -> (r: Option<i64>)
    ensures
        r == widen(n),
{
    match n {
        Some(v) => Some(v as i64),
        None => None,
    }
}

/// The tag columns for the file at `path` from what reading its tags gave.
pub fn resolve_tags(read: TagRead, path: &str) -> (t: TrackTags)
    ensures
        track_tags_view(t) == spec_resolve_tags(read, path@),
        read matches TagRead::Read { primary: Some(p), .. } ==> {
            &&& t.track_number == (match p.track {
                Some(n) => Some(n as i64),
                None => None,
            })
            &&& t.disc_number == (match p.disk {
                Some(d) => Some(d as i64),
                None => None,
            })
            &&& opt_view(t.album) == opt_view(p.album)
            &&& opt_view(t.album_artist) == opt_view(p.album_artist)
        },
        read is Unreadable ==> t.title is None && t.album is None && t.artist is None
            && t.album_artist is None && t.track_number is None && t.disc_number is None,
{
    let ghost read0 = read;
    match read {
        TagRead::Unreadable => TrackTags {
            title: None,
            album: None,
            artist: None,
            album_artist: None,
            track_number: None,
            disc_number: None,
        },
        TagRead::Read { primary, first } => {
            let tag = match primary {
                Some(t) => Some(t),
                None => first,
            };
            match tag {
                None => TrackTags {
                    title: path_file_stem(path),
                    album: None,
                    artist: None,
                    album_artist: None,
                    track_number: None,
                    disc_number: None,
                },
                Some(t) => {
                    let title = match t.title {
                        Some(s) => Some(s),
                        None => path_file_stem(path),
                    };
                    let artist = match t.artist {
                        Some(s) => Some(s),
                        None => match &t.album_artist {
                            Some(s) => Some(s.clone()),
                            None => None,
                        },
                    };
                    TrackTags {
                        title,
                        album: t.album,
                        artist,
                        album_artist: t.album_artist,
                        track_number: widen_number(t.track),
                        disc_number: widen_number(t.disk),
                    }
                },
            }
        },
    }
}

// ---------------------------------------------------------------------------
// Tag edits
// ---------------------------------------------------------------------------

/// New values for the tags of a track.
pub struct TagPatch {
    pub title: String,
    pub album: String,
    pub artist: String,
    pub album_artist: String,
    pub track_number: Option<u32>,
    pub disc_number: Option<u32>,
}

/// One change to a file's primary tag.
pub enum TagEdit {
    SetTitle(String),
    SetAlbum(String),
    SetArtist(String),
    /// Adds an album-artist text item.
    AddAlbumArtist(String),
    SetTrack(u32),
    SetDisk(u32),
}

/// The edits a patch makes, in order: title, album, artist, album artist,
/// then the track and disc numbers that it gives.
pub open spec fn spec_tag_edits(patch: TagPatch) -> Seq<TagEdit> {
    let base = seq![
        TagEdit::SetTitle(patch.title),
        TagEdit::SetAlbum(patch.album),
        TagEdit::SetArtist(patch.artist),
        TagEdit::AddAlbumArtist(patch.album_artist),
    ];
    let with_track = match patch.track_number {
        Some(n) => base.push(TagEdit::SetTrack(n)),
        None => base,
    };
    match patch.disc_number {
        Some(n) => with_track.push(TagEdit::SetDisk(n)),
        None => with_track,
    }
}

/// The edits to apply to a file's primary tag for `patch`.
pub fn tag_edits(patch: TagPatch) -> (v: Vec<TagEdit>)
    ensures
        v@ == spec_tag_edits(patch),
{
    let ghost p = patch;
    let mut v: Vec<TagEdit> = Vec::new();
    v.push(TagEdit::SetTitle(patch.title));
    v.push(TagEdit::SetAlbum(patch.album));
    v.push(TagEdit::SetArtist(patch.artist));
    v.push(TagEdit::AddAlbumArtist(patch.album_artist));
    if let Some(n) = patch.track_number {
        v.push(TagEdit::SetTrack(n));
    }
    if let Some(n) = patch.disc_number {
        v.push(TagEdit::SetDisk(n));
    }
    assert(v@ =~= spec_tag_edits(p));
    v
}

/// The file types of lofty (`lofty::file::FileType`), carried through
/// unopened.
#[verifier::external_type_specification]
#[verifier::external_body]
pub struct ExFileType(FileType);

/// `FileType::from_path` of lofty: the file type that lofty guesses from the
/// extension of `path`. Stated: a path without an extension gets no guess
/// (`from_path` returns `None` when `Path::extension` does; for a plain path
/// that is when its file name has no `.` or only a leading one). Not stated: which
/// extensions get a guess, since that also depends on the file-type resolvers
/// registered with lofty in the running process.
#[verifier::external_body]
fn guess_file_type(path: &str) -> (r: Option<FileType>)
    ensures
        spec_path_extension(path@) is None ==> r is None,
        is_plain_path(path@) && bare_name_extension(name_part(path@)) is None ==> r is None,
{
    FileType::from_path(path)
}

/// Which primary tag has to be created before a file can be edited, given
/// whether the file has one and the type guessed for it: none when the file
/// has one; otherwise one of the guessed type, or an error when there is no
/// guess.
pub fn primary_tag_from_guess(has_primary_tag: bool, guessed: Option<FileType>) -> (r: Result<Option<FileType>, String>)
    ensures
        has_primary_tag ==> r == Ok::<Option<FileType>, String>(None),
        !has_primary_tag && guessed is Some ==> r == Ok::<Option<FileType>, String>(guessed),
        !has_primary_tag && guessed is None ==> (r matches Err(e) && e@ == "could not guess tag type for file"@),
{
    if has_primary_tag {
        return Ok(None);
    }
    match guessed {
        Some(ft) => Ok(Some(ft)),
        None => Err("could not guess tag type for file".to_string()),
    }
}

/// Which primary tag has to be created before the file at `path` can be
/// edited: none when the file has one; otherwise one of the type lofty
/// guesses from the path, or an error when it guesses none (always so for a
/// path without an extension).
pub fn primary_tag_to_create(has_primary_tag: bool, path: &str) -> (r: Result<Option<FileType>, String>)
    ensures
        has_primary_tag <==> r matches Ok(None),
        r matches Err(e) ==> e@ == "could not guess tag type for file"@,
        !has_primary_tag ==> (r is Err || r matches Ok(Some(_))),
        !has_primary_tag && spec_path_extension(path@) is None ==> r is Err,
        !has_primary_tag && is_plain_path(path@) && bare_name_extension(name_part(path@)) is None
            ==> r is Err,
{
    if has_primary_tag {
        return primary_tag_from_guess(true, None);
    }
    let guessed = guess_file_type(path);
    primary_tag_from_guess(false, guessed)
}

// ---------------------------------------------------------------------------
// Cover art
// ---------------------------------------------------------------------------

/// The image type recorded for embedded cover art.
#[derive(Clone, Copy, Debug, PartialEq, Eq, Structural)]
pub enum CoverMime {
    Jpeg,
    Png,
}

/// JPEG when the data starts with the JPEG start-of-image marker `FF D8`,
/// PNG otherwise.
pub open spec fn spec_cover_mime(bytes: Seq<u8>) -> CoverMime {
    if bytes.len() >= 2 && bytes[0] == 0xff && bytes[1] == 0xd8 {
        CoverMime::Jpeg
    } else {
        CoverMime::Png
    }
}

/// The image type of cover art `bytes`.
pub fn cover_mime(bytes: &[u8]) -> (m: CoverMime)
    ensures
        m == spec_cover_mime(bytes@),
{
    if bytes.len() >= 2 && bytes[0] == 0xff && bytes[1] == 0xd8 {
        CoverMime::Jpeg
    } else {
        CoverMime::Png
    }
}

// ---------------------------------------------------------------------------
// Track rows
// ---------------------------------------------------------------------------

/// The values stored in the `tracks` table for one file.
pub struct TrackRow {
    pub root_id: i64,
    pub path: String,
    pub title: Option<String>,
    pub album: Option<String>,
    pub artist: Option<String>,
    pub album_artist: Option<String>,
    pub track_number: Option<i64>,
    pub disc_number: Option<i64>,
    pub duration_ms: Option<i64>,
    pub sample_rate: Option<i64>,
    pub channels: Option<i64>,
    pub bit_depth: Option<i64>,
    pub codec_hint: Option<String>,
    pub container: Option<String>,
    pub file_mtime: i64,
    pub file_size: i64,
}

/// The stored duration: the probed one, or `ffprobe`'s when probing found
/// none or zero (and `ffprobe` found one).
pub open spec fn spec_index_duration(probed_ms: Option<u64>, ffprobe_ms: Option<u64>) -> Option<i64> {
    if spec_needs_ffprobe(probed_ms) {
        match ffprobe_ms {
            Some(f) => Some(f as i64),
            None => match probed_ms {
                Some(d) => Some(d as i64),
                None => None,
            },
        }
    } else {
        Some(probed_ms->Some_0 as i64)
    }
}

/// Computes the stored duration of a track.
pub fn index_duration(probed_ms: Option<u64>, ffprobe_ms: Option<u64>) -> (d: Option<i64>)
    ensures
        d == spec_index_duration(probed_ms, ffprobe_ms),
{
    let mut d = match probed_ms {
        Some(v) => Some(v as i64),
        None => None,
    };
    // `v as i64` is zero exactly when `v` is.
    let missing = match probed_ms {
        Some(v) => v == 0,
        None => true,
    };
    if missing {
        if let Some(f) = ffprobe_ms {
            d = Some(f as i64);
        }
    }
    d
}

/// A time stored in the database: milliseconds since the Unix epoch (as
/// `as i64` keeps them), or 0 when unknown.
pub open spec fn spec_epoch_ms(ms: Option<u128>) -> i64 {
    match ms {
        Some(m) => m as i64,
        None => 0,
    }
}

/// Converts a time in milliseconds since the epoch to its stored value.
pub fn epoch_ms(ms: Option<u128>) -> (r: i64)
    ensures
        r == spec_epoch_ms(ms),
{
    match ms {
        Some(m) => m as i64,
        None => 0,
    }
}

/// Points in time of the system clock (`std::time::SystemTime`), carried
/// through unopened.
#[verifier::external_type_specification]
#[verifier::external_body]
pub struct ExSystemTime(std::time::SystemTime);

/// `SystemTime::now()`: the current time of the system clock. Nothing is
/// stated of it.
#[verifier::external_body]
fn system_now() -> (t: std::time::SystemTime) {
    std::time::SystemTime::now()
}

/// `SystemTime::duration_since(UNIX_EPOCH)` of `t`, converted to whole
/// milliseconds; none when `t` lies before the epoch. Nothing is stated of
/// the value: a point in time has no view here.
#[verifier::external_body]
fn millis_since_epoch(t: std::time::SystemTime) -> (r: Option<u128>) {
    match t.duration_since(std::time::UNIX_EPOCH) {
        Ok(d) => Some(d.as_millis()),
        Err(_) => None,
    }
}

/// The current time as stored in the database (the `added_at` of a root).
pub fn now_ms() -> (r: i64) {
    epoch_ms(millis_since_epoch(system_now()))
}

/// Builds the row stored for the file at `path` under root `root_id`.
pub fn track_row(
    root_id: i64,
    path: String,
    tags: TrackTags,
    probed: ProbedInfo,
    ffprobe_ms: Option<u64>,
    modified_ms: Option<u128>,
    file_len: u64,
) -> (row: TrackRow)
    ensures
        row.root_id == root_id,
        row.path == path,
        row.title == tags.title,
        row.album == tags.album,
        row.artist == tags.artist,
        row.album_artist == tags.album_artist,
        row.track_number == tags.track_number,
        row.disc_number == tags.disc_number,
        row.duration_ms == spec_index_duration(probed.duration_ms, ffprobe_ms),
        row.sample_rate == (match probed.sample_rate {
            Some(v) => Some(v as i64),
            None => None,
        }),
        row.channels == (match probed.channels {
            Some(v) => Some(v as i64),
            None => None,
        }),
        row.bit_depth is None,
        row.codec_hint == probed.codec_hint,
        row.container == probed.container,
        row.file_mtime == spec_epoch_ms(modified_ms),
        row.file_size == file_len as i64,
{
    let duration_ms = index_duration(probed.duration_ms, ffprobe_ms);
    let sample_rate = match probed.sample_rate {
        Some(v) => Some(v as i64),
        None => None,
    };
    let channels = match probed.channels {
        Some(v) => Some(v as i64),
        None => None,
    };
    let file_mtime = epoch_ms(modified_ms);
    TrackRow {
        root_id,
        path,
        title: tags.title,
        album: tags.album,
        artist: tags.artist,
        album_artist: tags.album_artist,
        track_number: tags.track_number,
        disc_number: tags.disc_number,
        duration_ms,
        sample_rate,
        channels,
        bit_depth: None,
        codec_hint: probed.codec_hint,
        container: probed.container,
        file_mtime,
        file_size: file_len as i64,
    }
}

// ---------------------------------------------------------------------------
// Scanning
// ---------------------------------------------------------------------------

/// The counts of a scan: audio files seen, and of those, tracks stored.
pub struct ScanTally {
    files_seen: usize,
    upserted: usize,
    awaiting: bool,
}

impl ScanTally {
    #[verifier::type_invariant]
    spec fn counts_consistent(self) -> bool {
        if self.awaiting {
            self.upserted < self.files_seen
        } else {
            self.upserted <= self.files_seen
        }
    }

    /// Audio files seen so far.
    pub closed spec fn spec_files_seen(self) -> usize {
        self.files_seen
    }

    /// Tracks stored so far.
    pub closed spec fn spec_upserted(self) -> usize {
        self.upserted
    }

    /// Whether the last file seen still waits for the outcome of indexing.
    pub closed spec fn spec_awaiting(self) -> bool {
        self.awaiting
    }

    /// A scan that has seen nothing.
    pub fn new() -> (t: ScanTally)
        ensures
            t.spec_files_seen() == 0,
            t.spec_upserted() == 0,
            !t.spec_awaiting(),
    {
        ScanTally { files_seen: 0, upserted: 0, awaiting: false }
    }

    /// Looks at one entry of the walk over the root: a regular file with an
    /// audio extension is counted and is to be indexed (the result says so).
    pub fn consider(&mut self, is_file: bool, path: &str) -> (index: bool)
        requires
            !old(self).spec_awaiting(),
            is_file && spec_is_audio_file(path@) ==> old(self).spec_files_seen() < usize::MAX,
        ensures
            index == (is_file && spec_is_audio_file(path@)),
            final(self).spec_files_seen() == old(self).spec_files_seen() + (if index {
                1int
            } else {
                0int
            }),
            final(self).spec_upserted() == old(self).spec_upserted(),
            final(self).spec_awaiting() == index,
            final(self).spec_upserted() <= final(self).spec_files_seen(),
    {
        proof {
            use_type_invariant(&*self);
        }
        let index = is_file && is_audio_file(path);
        if index {
            *self = ScanTally { files_seen: self.files_seen + 1, upserted: self.upserted, awaiting: true };
        }
        index
    }

    /// Records whether indexing the file just counted stored its track.
    pub fn record(&mut self, indexed: bool)
        requires
            old(self).spec_awaiting(),
        ensures
            final(self).spec_files_seen() == old(self).spec_files_seen(),
            final(self).spec_upserted() == old(self).spec_upserted() + (if indexed {
                1int
            } else {
                0int
            }),
            !final(self).spec_awaiting(),
            final(self).spec_upserted() <= final(self).spec_files_seen(),
    {
        proof {
            use_type_invariant(&*self);
        }
        let upserted = if indexed {
            self.upserted + 1
        } else {
            self.upserted
        };
        *self = ScanTally { files_seen: self.files_seen, upserted, awaiting: false };
    }

    /// Whether a file has been counted whose indexing outcome is not yet
    /// recorded.
    pub fn awaiting(&self) -> (b: bool)
        ensures
            b == self.spec_awaiting(),
    {
        self.awaiting
    }

    /// The counts: audio files seen, tracks stored. A scan never reports
    /// more stored tracks than audio files seen.
    pub fn counts(&self) -> (r: (usize, usize))
        ensures
            r == (self.spec_files_seen(), self.spec_upserted()),
            r.1 <= r.0,
    {
        proof {
            use_type_invariant(self);
        }
        (self.files_seen, self.upserted)
    }
}

// ---------------------------------------------------------------------------
// Laws
// ---------------------------------------------------------------------------

/// A stored root path is already normalized: normalizing it again keeps it.
pub proof fn law_root_path_normalized(path: Seq<char>)
    ensures
        trimmed(path).len() > 0 ==> trimmed(trimmed(path)) == trimmed(path),
{
    crate::text::lemma_trimmed_idempotent(path);
}

/// A file whose tag names an artist is listed under that artist; one whose
/// tag names only an album artist is listed under the album artist; a file
/// without a tag title is listed under its file stem.
pub proof fn law_tag_fallbacks(t: RawTags, path: Seq<char>)
    ensures
        ({
            let r = spec_resolve_tags(TagRead::Read { primary: Some(t), first: None }, path);
            &&& t.artist is Some ==> r.2 == opt_view(t.artist)
            &&& t.artist is None ==> r.2 == opt_view(t.album_artist)
            &&& t.title is None ==> r.0 == spec_path_file_stem(path)
        }),
{
}

/// The primary tag, when there is one, wins over the first tag.
pub proof fn law_primary_tag_wins(p: RawTags, f: Option<RawTags>, path: Seq<char>)
    ensures
        spec_resolve_tags(TagRead::Read { primary: Some(p), first: f }, path) == spec_resolve_tags(
            TagRead::Read { primary: Some(p), first: None },
            path,
        ),
{
}

/// A patch always sets title, album, artist and album artist, and sets the
/// track and disc numbers exactly when it gives them.
pub proof fn law_patch_edit_count(patch: TagPatch)
    ensures
        spec_tag_edits(patch).len() == 4 + (if patch.track_number is Some {
            1int
        } else {
            0int
        }) + (if patch.disc_number is Some {
            1int
        } else {
            0int
        }),
{
}

/// When indexing, a duration found by probing is stored as it is; `ffprobe`'s
/// answer replaces it only when probing found none or zero.
pub proof fn law_index_duration_fallback(probed_ms: Option<u64>, ffprobe_ms: Option<u64>)
    ensures
        !spec_needs_ffprobe(probed_ms) ==> spec_index_duration(probed_ms, ffprobe_ms) == Some(
            probed_ms->Some_0 as i64,
        ),
        spec_needs_ffprobe(probed_ms) && ffprobe_ms is Some ==> spec_index_duration(
            probed_ms,
            ffprobe_ms,
        ) == Some(ffprobe_ms->Some_0 as i64),
        spec_needs_ffprobe(probed_ms) && ffprobe_ms is None ==> spec_index_duration(
            probed_ms,
            ffprobe_ms,
        ) == (match probed_ms {
            Some(d) => Some(d as i64),
            None => None,
        }),
{
}

/// The columns of a file read with a tag come from that tag's fields: the
/// track and disc numbers are the tag's numbers widened to `i64`, the album
/// and album artist are the tag's, and a title or artist given by the tag is
/// kept. The first tag stands in when there is no primary tag.
pub proof fn law_tag_fields_become_columns(t: RawTags, other: Option<RawTags>, path: Seq<char>)
    ensures
        ({
            let from_primary = spec_resolve_tags(TagRead::Read { primary: Some(t), first: other }, path);
            let from_first = spec_resolve_tags(TagRead::Read { primary: None, first: Some(t) }, path);
            &&& from_primary == from_first
            &&& (t.disk matches Some(d) ==> from_primary.5 == Some(d as i64))
            &&& (t.disk is None ==> from_primary.5 is None)
            &&& (t.track matches Some(n) ==> from_primary.4 == Some(n as i64))
            &&& (t.track is None ==> from_primary.4 is None)
            &&& from_primary.1 == opt_view(t.album)
            &&& from_primary.3 == opt_view(t.album_artist)
            &&& (t.title matches Some(x) ==> from_primary.0 == Some(x@))
            &&& (t.artist matches Some(x) ==> from_primary.2 == Some(x@))
        }),
{
}

/// Data that starts with the JPEG start-of-image marker `FF D8` is typed as
/// JPEG whatever follows it; all other data is typed as PNG.
pub proof fn law_jpeg_marker_decides_cover_type(bytes: Seq<u8>)
    ensures
        bytes.len() >= 2 && bytes[0] == 0xffu8 && bytes[1] == 0xd8u8 ==> spec_cover_mime(bytes)
            == CoverMime::Jpeg,
        !(bytes.len() >= 2 && bytes[0] == 0xffu8 && bytes[1] == 0xd8u8) ==> spec_cover_mime(bytes)
            == CoverMime::Png,
{
}

} // verus!
