//! Classification of files by the extension of their path: which files the
//! library treats as audio, and which formats are handed to an external
//! decoder process rather than decoded in-process.

use vstd::prelude::*;

use crate::text::{ascii_lower, ascii_lowercase, opt_view};

verus! {

// ---------------------------------------------------------------------------
// Path queries (`std::path::Path`)
// ---------------------------------------------------------------------------

/// What `Path::extension` gives for a path, as text: the part of the file
/// name after its final `.` (none when the file name has no `.` other than a
/// leading one, or when there is no file name).
pub uninterp spec fn spec_path_extension(path: Seq<char>) -> Option<Seq<char>>;

/// What `Path::file_stem` gives for a path, as text: the file name without
/// its extension.
pub uninterp spec fn spec_path_file_stem(path: Seq<char>) -> Option<Seq<char>>;

/// A path that is a bare file name: not empty, without `/`, `\` or `:`, and
/// neither `.` nor `..`. On every platform such a path is one normal
/// component, its own file name.
pub open spec fn is_bare_file_name(p: Seq<char>) -> bool {
    &&& p.len() > 0
    &&& forall|i: int| 0 <= i < p.len() ==> p[i] != '/' && p[i] != '\\' && p[i] != ':'
    &&& !(p.len() == 1 && p[0] == '.')
    &&& !(p.len() == 2 && p[0] == '.' && p[1] == '.')
}

/// The index of the last `.` in `p`, or -1 when there is none.
pub open spec fn last_dot(p: Seq<char>) -> int
    decreases p.len(),
{
    if p.len() == 0 {
        -1
    } else if p.last() == '.' {
        p.len() - 1
    } else {
        last_dot(p.drop_last())
    }
}

/// The index of the last `/` in `p`, or -1 when there is none.
pub open spec fn last_slash(p: Seq<char>) -> int
    decreases p.len(),
{
    if p.len() == 0 {
        -1
    } else if p.last() == '/' {
        p.len() - 1
    } else {
        last_slash(p.drop_last())
    }
}

/// The text after the last `/` of `p` (all of `p` when it has none).
pub open spec fn name_part(p: Seq<char>) -> Seq<char> {
    p.subrange(last_slash(p) + 1, p.len() as int)
}

/// A path whose file name the standard library finds after its last `/` on
/// every platform: it holds no `\` and no `:` (so no Windows drive, UNC,
/// device or verbatim prefix), does not start with `//` (a UNC prefix on
/// Windows), and the text after its last `/` is a bare file name. Bare file
/// names themselves are such paths.
pub open spec fn is_plain_path(p: Seq<char>) -> bool {
    &&& forall|i: int| 0 <= i < p.len() ==> p[i] != '\\' && p[i] != ':'
    &&& !(p.len() >= 2 && p[0] == '/' && p[1] == '/')
    &&& is_bare_file_name(name_part(p))
}

/// The extension of a file name, as `Path::extension` documents it: the text
/// after the last `.`; none when there is no `.` or only a leading one.
pub open spec fn bare_name_extension(p: Seq<char>) -> Option<Seq<char>> {
    let k = last_dot(p);
    if k <= 0 {
        None
    } else {
        Some(p.subrange(k + 1, p.len() as int))
    }
}

/// The stem of a file name, as `Path::file_stem` documents it: the text
/// before the last `.`; the whole name when there is no `.` or only a
/// leading one.
pub open spec fn bare_name_stem(p: Seq<char>) -> Option<Seq<char>> {
    let k = last_dot(p);
    if k <= 0 {
        Some(p)
    } else {
        Some(p.subrange(0, k))
    }
}

/// `Path::extension` of `path`, converted to a string. The result is named by
/// `spec_path_extension`. Stated: for a plain path (see `is_plain_path`),
/// the rule of the standard library's documentation applied to the text after
/// the last `/`: the text after its last `.`, none without a `.` or with only
/// a leading one. Not stated: how other paths (with `\`, `:`, a leading `//`,
/// or ending in `/`, `.` or `..`) are split on the target platform.
#[verifier::external_body]
pub(crate) fn path_extension(path: &str) -> (r: Option<String>)
    ensures
        opt_view(r) == spec_path_extension(path@),
        is_plain_path(path@) ==> opt_view(r) == bare_name_extension(name_part(path@)),
{
    match std::path::Path::new(path).extension() {
        Some(e) => Some(e.to_string_lossy().into_owned()),
        None => None,
    }
}

/// `Path::file_stem` of `path`, converted to a string. The result is named by
/// `spec_path_file_stem`. Stated: for a plain path, the documented rule
/// applied to the text after the last `/` (text before its last `.`, the
/// whole name without a `.` or with only a leading one). Not stated: the
/// splitting of other paths.
#[verifier::external_body]
pub(crate) fn path_file_stem(path: &str) -> (r: Option<String>)
    ensures
        opt_view(r) == spec_path_file_stem(path@),
        is_plain_path(path@) ==> opt_view(r) == bare_name_stem(name_part(path@)),
{
    match std::path::Path::new(path).file_stem() {
        Some(s) => Some(s.to_string_lossy().into_owned()),
        None => None,
    }
}

// ---------------------------------------------------------------------------
// Extension tables
// ---------------------------------------------------------------------------

/// Lower-case extensions of the files that the library indexes as audio.
pub open spec fn audio_extensions() -> Seq<Seq<char>> {
    seq![
        "flac"@, "mp3"@, "wav"@, "wave"@, "ogg"@, "oga"@, "opus"@, "m4a"@, "mp4"@, "aac"@,
        "alac"@, "mka"@, "webm"@, "wv"@, "wma"@, "asf"@, "dsf"@, "dff"@, "dsdiff"@, "mpc"@,
    ]
}

/// Lower-case extensions of the formats decoded by the external `ffmpeg`
/// process.
pub open spec fn ffmpeg_extensions() -> Seq<Seq<char>> {
    seq!["wma"@, "asf"@, "dsf"@, "dff"@, "dsdiff"@]
}

fn audio_extension_list() -> (v: Vec<String>)
    ensures
        v@.map_values(|s: String| s@) == audio_extensions(),
{
    let v = vec![
        "flac".to_string(), "mp3".to_string(), "wav".to_string(), "wave".to_string(),
        "ogg".to_string(), "oga".to_string(), "opus".to_string(), "m4a".to_string(),
        "mp4".to_string(), "aac".to_string(), "alac".to_string(), "mka".to_string(),
        "webm".to_string(), "wv".to_string(), "wma".to_string(), "asf".to_string(),
        "dsf".to_string(), "dff".to_string(), "dsdiff".to_string(), "mpc".to_string(),
    ];
    assert(v@.map_values(|s: String| s@) =~= audio_extensions());
    v
}

fn ffmpeg_extension_list() -> (v: Vec<String>)
    ensures
        v@.map_values(|s: String| s@) == ffmpeg_extensions(),
{
    let v = vec![
        "wma".to_string(), "asf".to_string(), "dsf".to_string(), "dff".to_string(),
        "dsdiff".to_string(),
    ];
    assert(v@.map_values(|s: String| s@) =~= ffmpeg_extensions());
    v
}

fn list_contains(list: &Vec<String>, e: &String) -> (b: bool)
    ensures
        b == list@.map_values(|s: String| s@).contains(e@),
{
    let ghost views = list@.map_values(|s: String| s@);
    let mut i: usize = 0;
    while i < list.len()
        invariant
            i <= list@.len(),
            views == list@.map_values(|s: String| s@),
            forall|j: int| 0 <= j < i ==> views[j] != e@,
        decreases list@.len() - i,
    {
        if list[i] == *e {
            assert(views[i as int] == e@);
            return true;
        }
        i += 1;
    }
    proof {
        if views.contains(e@) {
            let j = choose|j: int| 0 <= j < views.len() && views[j] == e@;
            assert(views[j] != e@);
        }
    }
    false
}

// ---------------------------------------------------------------------------
// Classification
// ---------------------------------------------------------------------------

/// The lower-cased extension of a path, if it has one.
pub open spec fn spec_extension_hint(path: Seq<char>) -> Option<Seq<char>> {
    match spec_path_extension(path) {
        Some(e) => Some(ascii_lower(e)),
        None => None,
    }
}

/// Whether the library treats a file with this path as audio.
pub open spec fn spec_is_audio_file(path: Seq<char>) -> bool {
    match spec_extension_hint(path) {
        Some(e) => audio_extensions().contains(e),
        None => false,
    }
}

/// Whether playback of a file with this path goes through `ffmpeg`.
pub open spec fn spec_prefers_ffmpeg(path: Seq<char>) -> bool {
    match spec_extension_hint(path) {
        Some(e) => ffmpeg_extensions().contains(e),
        None => false,
    }
}

/// The extension of `path`, ASCII lower-cased.
pub fn extension_hint(path: &str) -> (r: Option<String>)
    ensures
        opt_view(r) == spec_extension_hint(path@),
        is_plain_path(path@) ==> spec_path_extension(path@) == bare_name_extension(name_part(path@)),
{
    match path_extension(path) {
        Some(e) => Some(ascii_lowercase(e.as_str())),
        None => None,
    }
}

/// Whether files with this path are decoded by the external `ffmpeg` process
/// (WMA/ASF and the DSD containers DSF, DFF and DSDIFF), whatever the case of
/// the extension.
pub fn prefers_ffmpeg(path: &str) -> (b: bool)
    ensures
        b == spec_prefers_ffmpeg(path@),
        is_plain_path(path@) ==> spec_path_extension(path@) == bare_name_extension(name_part(path@)),
{
    match extension_hint(path) {
        Some(e) => list_contains(&ffmpeg_extension_list(), &e),
        None => false,
    }
}

/// Whether the library indexes the file at `path` as audio: its extension,
/// compared without regard to ASCII case, is one of `audio_extensions()`.
pub fn is_audio_file(path: &str) -> (b: bool)
    ensures
        b == spec_is_audio_file(path@),
        is_plain_path(path@) ==> spec_path_extension(path@) == bare_name_extension(name_part(path@)),
{
    match extension_hint(path) {
        Some(e) => list_contains(&audio_extension_list(), &e),
        None => false,
    }
}

// ---------------------------------------------------------------------------
// Laws
// ---------------------------------------------------------------------------

/// Every format that goes to `ffmpeg` is also one the library indexes as
/// audio.
pub proof fn law_ffmpeg_formats_are_audio(path: Seq<char>)
    ensures
        spec_prefers_ffmpeg(path) ==> spec_is_audio_file(path),
{
    if spec_prefers_ffmpeg(path) {
        let e = spec_extension_hint(path)->Some_0;
        let a = audio_extensions();
        let f = ffmpeg_extensions();
        let k = choose|k: int| 0 <= k < f.len() && f[k] == e;
        assert(f[0] == a[14]);
        assert(f[1] == a[15]);
        assert(f[2] == a[16]);
        assert(f[3] == a[17]);
        assert(f[4] == a[18]);
        assert(a.contains(f[k]));
    }
}

/// Classification depends only on the extension, compared without regard to
/// ASCII case: two paths whose extensions agree up to case are classified
/// alike.
pub proof fn law_classification_ignores_case(p: Seq<char>, q: Seq<char>)
    requires
        spec_path_extension(p) matches Some(e1) && spec_path_extension(q) matches Some(e2)
            && ascii_lower(e1) == ascii_lower(e2),
    ensures
        spec_is_audio_file(p) == spec_is_audio_file(q),
        spec_prefers_ffmpeg(p) == spec_prefers_ffmpeg(q),
        spec_extension_hint(p) == spec_extension_hint(q),
{
}

/// The extension hint is already lower-case: lower-casing it again changes
/// nothing.
pub proof fn law_extension_hint_is_lower_case(path: Seq<char>)
    ensures
        spec_extension_hint(path) matches Some(e) ==> ascii_lower(e) == e,
{
    if let Some(e0) = spec_path_extension(path) {
        crate::text::lemma_ascii_lower_idempotent(e0);
    }
}

/// Exactly these extensions make a file audio, compared without regard to
/// ASCII case: flac, mp3, wav, wave, ogg, oga, opus, m4a, mp4, aac, alac,
/// mka, webm, wv, wma, asf, dsf, dff, dsdiff, mpc.
pub proof fn law_audio_extension_set(path: Seq<char>, e: Seq<char>)
    requires
        spec_path_extension(path) == Some(e),
    ensures
        spec_is_audio_file(path) <==> ({
            let l = ascii_lower(e);
            ||| l == "flac"@
            ||| l == "mp3"@
            ||| l == "wav"@
            ||| l == "wave"@
            ||| l == "ogg"@
            ||| l == "oga"@
            ||| l == "opus"@
            ||| l == "m4a"@
            ||| l == "mp4"@
            ||| l == "aac"@
            ||| l == "alac"@
            ||| l == "mka"@
            ||| l == "webm"@
            ||| l == "wv"@
            ||| l == "wma"@
            ||| l == "asf"@
            ||| l == "dsf"@
            ||| l == "dff"@
            ||| l == "dsdiff"@
            ||| l == "mpc"@
        }),
{
    let l = ascii_lower(e);
    let a = audio_extensions();
    assert(a.len() == 20);
    if a.contains(l) {
        let i = choose|i: int| 0 <= i < a.len() && a[i] == l;
        if i == 0 {
            assert(l == "flac"@);
        } else if i == 1 {
            assert(l == "mp3"@);
        } else if i == 2 {
            assert(l == "wav"@);
        } else if i == 3 {
            assert(l == "wave"@);
        } else if i == 4 {
            assert(l == "ogg"@);
        } else if i == 5 {
            assert(l == "oga"@);
        } else if i == 6 {
            assert(l == "opus"@);
        } else if i == 7 {
            assert(l == "m4a"@);
        } else if i == 8 {
            assert(l == "mp4"@);
        } else if i == 9 {
            assert(l == "aac"@);
        } else if i == 10 {
            assert(l == "alac"@);
        } else if i == 11 {
            assert(l == "mka"@);
        } else if i == 12 {
            assert(l == "webm"@);
        } else if i == 13 {
            assert(l == "wv"@);
        } else if i == 14 {
            assert(l == "wma"@);
        } else if i == 15 {
            assert(l == "asf"@);
        } else if i == 16 {
            assert(l == "dsf"@);
        } else if i == 17 {
            assert(l == "dff"@);
        } else if i == 18 {
            assert(l == "dsdiff"@);
        } else if i == 19 {
            assert(l == "mpc"@);
        }
    }
    if l == "flac"@ {
        assert(a[0] == l);
    }
    if l == "mp3"@ {
        assert(a[1] == l);
    }
    if l == "wav"@ {
        assert(a[2] == l);
    }
    if l == "wave"@ {
        assert(a[3] == l);
    }
    if l == "ogg"@ {
        assert(a[4] == l);
    }
    if l == "oga"@ {
        assert(a[5] == l);
    }
    if l == "opus"@ {
        assert(a[6] == l);
    }
    if l == "m4a"@ {
        assert(a[7] == l);
    }
    if l == "mp4"@ {
        assert(a[8] == l);
    }
    if l == "aac"@ {
        assert(a[9] == l);
    }
    if l == "alac"@ {
        assert(a[10] == l);
    }
    if l == "mka"@ {
        assert(a[11] == l);
    }
    if l == "webm"@ {
        assert(a[12] == l);
    }
    if l == "wv"@ {
        assert(a[13] == l);
    }
    if l == "wma"@ {
        assert(a[14] == l);
    }
    if l == "asf"@ {
        assert(a[15] == l);
    }
    if l == "dsf"@ {
        assert(a[16] == l);
    }
    if l == "dff"@ {
        assert(a[17] == l);
    }
    if l == "dsdiff"@ {
        assert(a[18] == l);
    }
    if l == "mpc"@ {
        assert(a[19] == l);
    }
}

/// Exactly these extensions go to `ffmpeg`, compared without regard to ASCII
/// case: wma, asf, dsf, dff, dsdiff.
pub proof fn law_ffmpeg_extension_set(path: Seq<char>, e: Seq<char>)
    requires
        spec_path_extension(path) == Some(e),
    ensures
        spec_prefers_ffmpeg(path) <==> ({
            let l = ascii_lower(e);
            ||| l == "wma"@
            ||| l == "asf"@
            ||| l == "dsf"@
            ||| l == "dff"@
            ||| l == "dsdiff"@
        }),
{
    let l = ascii_lower(e);
    let a = ffmpeg_extensions();
    assert(a.len() == 5);
    if a.contains(l) {
        let i = choose|i: int| 0 <= i < a.len() && a[i] == l;
        if i == 0 {
            assert(l == "wma"@);
        } else if i == 1 {
            assert(l == "asf"@);
        } else if i == 2 {
            assert(l == "dsf"@);
        } else if i == 3 {
            assert(l == "dff"@);
        } else if i == 4 {
            assert(l == "dsdiff"@);
        }
    }
    if l == "wma"@ {
        assert(a[0] == l);
    }
    if l == "asf"@ {
        assert(a[1] == l);
    }
    if l == "dsf"@ {
        assert(a[2] == l);
    }
    if l == "dff"@ {
        assert(a[3] == l);
    }
    if l == "dsdiff"@ {
        assert(a[4] == l);
    }
}

} // verus!
