//! The decisions of the playback engine. The engine's state is the status
//! shown to the user (loaded path, decoder, duration, position, playing), the
//! flag that lets the output callback take samples, and the two counters from
//! which the output callback computes the position. Every command is a
//! transition of this state; the caller performs the I/O that a transition
//! asks for (stopping and starting decoder threads, probing files) and feeds
//! back what it found.

use vstd::prelude::*;

use crate::media::{prefers_ffmpeg, spec_prefers_ffmpeg};
use crate::probe::spec_needs_ffprobe;

verus! {

/// The decoder that produces samples for a loaded file.
#[derive(Clone, Copy, Debug, PartialEq, Eq, Structural)]
pub enum DecoderKind {
    /// In-process decoding with Symphonia.
    Symphonia,
    /// Decoding by an `ffmpeg` subprocess.
    Ffmpeg,
}

impl DecoderKind {
    /// The name under which the status reports the decoder.
    pub open spec fn spec_name(self) -> Seq<char> {
        match self {
            DecoderKind::Symphonia => "symphonia"@,
            DecoderKind::Ffmpeg => "ffmpeg"@,
        }
    }

    /// `"symphonia"` or `"ffmpeg"`.
    pub fn name(&self) -> (s: String)
        ensures
            s@ == self.spec_name(),
    {
        match self {
            DecoderKind::Symphonia => "symphonia".to_string(),
            DecoderKind::Ffmpeg => "ffmpeg".to_string(),
        }
    }
}

/// What the user sees of the engine. (The output volume, a float, is kept
/// beside this status by the caller.)
pub struct PlaybackStatus {
    pub path: Option<String>,
    pub decoder: Option<DecoderKind>,
    pub duration_ms: u64,
    pub position_ms: u64,
    pub playing: bool,
}

impl PlaybackStatus {
    /// The status before anything is loaded.
    pub open spec fn spec_initial() -> PlaybackStatus {
        PlaybackStatus { path: None, decoder: None, duration_ms: 0, position_ms: 0, playing: false }
    }

    /// A copy of this status.
    pub fn snapshot(&self) -> (r: PlaybackStatus)
        ensures
            r == *self,
    {
        let path = match &self.path {
            Some(p) => Some(p.clone()),
            None => None,
        };
        PlaybackStatus {
            path,
            decoder: self.decoder,
            duration_ms: self.duration_ms,
            position_ms: self.position_ms,
            playing: self.playing,
        }
    }
}

/// What the caller must start after a load or a seek: a decoder of the given
/// kind on `path`, beginning at `start_ms`, producing stereo at `output_rate`.
pub struct DecodePlan {
    pub path: String,
    pub decoder: DecoderKind,
    pub start_ms: u64,
    pub output_rate: u32,
}

/// The decoder for a file: `ffmpeg` for the formats that prefer it and for
/// every file that Symphonia cannot open, Symphonia otherwise.
pub open spec fn spec_choose_decoder(path: Seq<char>, symphonia_ok: bool) -> DecoderKind {
    if spec_prefers_ffmpeg(path) || !symphonia_ok {
        DecoderKind::Ffmpeg
    } else {
        DecoderKind::Symphonia
    }
}

/// Chooses the decoder for `path`, given whether Symphonia can decode it.
pub fn choose_decoder(path: &str, symphonia_ok: bool) -> (d: DecoderKind)
    ensures
        d == spec_choose_decoder(path@, symphonia_ok),
{
    if prefers_ffmpeg(path) || !symphonia_ok {
        DecoderKind::Ffmpeg
    } else {
        DecoderKind::Symphonia
    }
}

/// The duration shown for a loaded file: the probed one, or else the one
/// from `ffprobe`, or else zero.
pub open spec fn spec_resolve_duration(probed_ms: Option<u64>, ffprobe_ms: Option<u64>) -> u64 {
    let d = match probed_ms {
        Some(d) => d,
        None => 0,
    };
    if d == 0 {
        match ffprobe_ms {
            Some(f) => f,
            None => 0,
        }
    } else {
        d
    }
}

/// Resolves the duration of a loaded file.
pub fn resolve_duration(probed_ms: Option<u64>, ffprobe_ms: Option<u64>) -> (d: u64)
    ensures
        d == spec_resolve_duration(probed_ms, ffprobe_ms),
{
    let d = match probed_ms {
        Some(d) => d,
        None => 0,
    };
    if d == 0 {
        match ffprobe_ms {
            Some(f) => f,
            None => 0,
        }
    } else {
        d
    }
}

/// The state of the playback engine.
pub struct PlaybackEngine {
    /// The status reported to the user.
    pub status: PlaybackStatus,
    /// Whether the output callback takes samples from the queue (it plays
    /// silence otherwise).
    pub playing: bool,
    /// Samples handed to the output device since the position was last set.
    pub samples_sent: u64,
    /// The position at which `samples_sent` started counting.
    pub base_position_ms: u64,
    /// Frames per second of the output device.
    pub output_sample_rate: u32,
}

/// Milliseconds of stereo output that `samples` interleaved samples last at
/// `rate` frames per second.
pub open spec fn played_ms(samples: u64, rate: u32) -> int {
    (samples / 2) * 1000 / (rate as int)
}

impl PlaybackEngine {
    // -----------------------------------------------------------------------
    // Transitions
    // -----------------------------------------------------------------------

    /// The engine for an output device running at `output_sample_rate`.
    pub open spec fn spec_new(output_sample_rate: u32) -> PlaybackEngine {
        PlaybackEngine {
            status: PlaybackStatus::spec_initial(),
            playing: false,
            samples_sent: 0,
            base_position_ms: 0,
            output_sample_rate,
        }
    }

    /// The first half of a load: everything about the previous file is
    /// forgotten and `path` becomes the loaded file, paused at zero.
    pub open spec fn spec_begin_load(self, path: String) -> PlaybackEngine {
        PlaybackEngine {
            status: PlaybackStatus {
                path: Some(path),
                decoder: None,
                duration_ms: 0,
                position_ms: 0,
                playing: false,
            },
            playing: false,
            samples_sent: 0,
            base_position_ms: 0,
            ..self
        }
    }

    /// The second half of a load: the status learns the decoder and the
    /// duration.
    pub open spec fn spec_finish_load(self, decoder: DecoderKind, duration_ms: u64) -> PlaybackEngine {
        PlaybackEngine {
            status: PlaybackStatus { decoder: Some(decoder), duration_ms, ..self.status },
            ..self
        }
    }

    /// Playing from the current position.
    pub open spec fn spec_play(self) -> PlaybackEngine {
        PlaybackEngine {
            status: PlaybackStatus { playing: true, ..self.status },
            playing: true,
            samples_sent: 0,
            base_position_ms: self.status.position_ms,
            ..self
        }
    }

    /// Pausing at the current position.
    pub open spec fn spec_pause(self) -> PlaybackEngine {
        PlaybackEngine {
            status: PlaybackStatus { playing: false, ..self.status },
            playing: false,
            samples_sent: 0,
            base_position_ms: self.status.position_ms,
            ..self
        }
    }

    /// Where a seek to `position_ms` lands: the requested position, but no
    /// further than the duration.
    pub open spec fn spec_seek_target(self, position_ms: u64) -> u64 {
        if position_ms <= self.status.duration_ms {
            position_ms
        } else {
            self.status.duration_ms
        }
    }

    /// Moving to `pos`: output stops taking samples until the decoder for the
    /// new position runs, and the position counts from `pos`.
    pub open spec fn spec_seek(self, pos: u64) -> PlaybackEngine {
        PlaybackEngine {
            status: PlaybackStatus { position_ms: pos, ..self.status },
            playing: false,
            samples_sent: 0,
            base_position_ms: pos,
            ..self
        }
    }

    /// Whether the output callback can account for `pushed` more samples
    /// without overflow (and with a non-zero sample rate).
    pub open spec fn spec_render_fits(self, pushed: u64) -> bool {
        &&& self.output_sample_rate > 0
        &&& self.samples_sent + pushed <= u64::MAX
        &&& ((self.samples_sent + pushed) / 2) * 1000 <= u64::MAX
        &&& self.base_position_ms + played_ms((self.samples_sent + pushed) as u64, self.output_sample_rate) <= u64::MAX
    }

    /// The output device consumed `pushed` more samples: the position is the
    /// base position plus the time those samples last.
    pub open spec fn spec_rendered(self, pushed: u64) -> PlaybackEngine {
        let total = (self.samples_sent + pushed) as u64;
        PlaybackEngine {
            status: PlaybackStatus {
                position_ms: (self.base_position_ms + played_ms(total, self.output_sample_rate)) as u64,
                ..self.status
            },
            samples_sent: total,
            ..self
        }
    }

    // -----------------------------------------------------------------------
    // Commands
    // -----------------------------------------------------------------------

    /// The engine for an output device with `output_channels` channels at
    /// `output_sample_rate`; mono devices are refused.
    pub fn new(output_sample_rate: u32, output_channels: u16) -> (r: Result<PlaybackEngine, String>)
        ensures
            output_channels < 2 <==> r is Err,
            r matches Err(e) ==> e@ == "mono output not supported"@,
            r matches Ok(engine) ==> engine == PlaybackEngine::spec_new(output_sample_rate),
    {
        if output_channels < 2 {
            return Err("mono output not supported".to_string());
        }
        Ok(PlaybackEngine {
            status: PlaybackStatus {
                path: None,
                decoder: None,
                duration_ms: 0,
                position_ms: 0,
                playing: false,
            },
            playing: false,
            samples_sent: 0,
            base_position_ms: 0,
            output_sample_rate,
        })
    }

    /// Starts loading `path` (after the caller has stopped the previous
    /// decoder).
    pub fn begin_load(&mut self, path: String)
        ensures
            *final(self) == old(self).spec_begin_load(path),
    {
        self.playing = false;
        self.samples_sent = 0;
        self.status = PlaybackStatus {
            path: Some(path),
            decoder: None,
            duration_ms: 0,
            position_ms: 0,
            playing: false,
        };
        self.base_position_ms = 0;
    }

    /// Completes a load with what probing found: whether Symphonia can decode
    /// the file, the probed duration, and the `ffprobe` duration (asked for
    /// only when `needs_ffprobe` says so). Returns the decoder to start, at
    /// position zero.
    pub fn finish_load(
        &mut self,
        symphonia_ok: bool,
        probed_ms: Option<u64>,
        ffprobe_ms: Option<u64>,
    ) -> (plan: DecodePlan)
        requires
            old(self).status.path is Some,
        ensures
            ({
                let path = old(self).status.path->Some_0;
                let decoder = spec_choose_decoder(path@, symphonia_ok);
                &&& *final(self) == old(self).spec_finish_load(
                    decoder,
                    spec_resolve_duration(probed_ms, ffprobe_ms),
                )
                &&& plan == (DecodePlan {
                    path,
                    decoder,
                    start_ms: 0,
                    output_rate: old(self).output_sample_rate,
                })
            }),
    {
        let path = match &self.status.path {
            Some(p) => p.clone(),
            None => String::new(),
        };
        let decoder = choose_decoder(path.as_str(), symphonia_ok);
        let duration_ms = resolve_duration(probed_ms, ffprobe_ms);
        self.status.duration_ms = duration_ms;
        self.status.decoder = Some(decoder);
        DecodePlan { path, decoder, start_ms: 0, output_rate: self.output_sample_rate }
    }

    /// Plays from the current position; refused when nothing is loaded.
    pub fn play(&mut self) -> (r: Result<(), String>)
        ensures
            old(self).status.path is None <==> r is Err,
            r matches Err(e) ==> e@ == "nothing loaded"@ && *final(self) == *old(self),
            r is Ok ==> *final(self) == old(self).spec_play(),
    {
        if self.status.path.is_none() {
            return Err("nothing loaded".to_string());
        }
        self.status.playing = true;
        self.base_position_ms = self.status.position_ms;
        self.samples_sent = 0;
        self.playing = true;
        Ok(())
    }

    /// Pauses at the current position.
    pub fn pause(&mut self)
        ensures
            *final(self) == old(self).spec_pause(),
    {
        self.playing = false;
        self.base_position_ms = self.status.position_ms;
        self.samples_sent = 0;
        self.status.playing = false;
    }

    /// Moves to `position_ms` (clamped to the duration), after the caller has
    /// stopped the running decoder. Returns the loaded path and the position
    /// reached; refused when nothing is loaded.
    pub fn seek(&mut self, position_ms: u64) -> (r: Result<(String, u64), String>)
        ensures
            old(self).status.path is None <==> r is Err,
            r matches Err(e) ==> e@ == "nothing loaded"@ && *final(self) == *old(self),
            r matches Ok((path, pos)) ==> {
                &&& old(self).status.path == Some(path)
                &&& pos == old(self).spec_seek_target(position_ms)
                &&& *final(self) == old(self).spec_seek(pos)
            },
    {
        let path = match &self.status.path {
            Some(p) => p.clone(),
            None => {
                return Err("nothing loaded".to_string());
            },
        };
        let duration = self.status.duration_ms;
        let pos = if position_ms <= duration {
            position_ms
        } else {
            duration
        };
        self.playing = false;
        self.samples_sent = 0;
        self.base_position_ms = pos;
        self.status.position_ms = pos;
        Ok((path, pos))
    }

    /// The decoder to start after a seek to `pos` on `path`. (The decoder
    /// shown in the status is the one chosen at load time.)
    pub fn seek_plan(&self, path: String, symphonia_ok: bool, pos: u64) -> (plan: DecodePlan)
        ensures
            plan == (DecodePlan {
                path,
                decoder: spec_choose_decoder(path@, symphonia_ok),
                start_ms: pos,
                output_rate: self.output_sample_rate,
            }),
    {
        let decoder = choose_decoder(path.as_str(), symphonia_ok);
        DecodePlan { path, decoder, start_ms: pos, output_rate: self.output_sample_rate }
    }

    /// Whether `rendered(pushed)` may be called.
    pub fn render_fits(&self, pushed: u64) -> (b: bool)
        ensures
            b == self.spec_render_fits(pushed),
    {
        if self.output_sample_rate == 0 {
            return false;
        }
        if pushed > u64::MAX - self.samples_sent {
            return false;
        }
        let total = self.samples_sent + pushed;
        if total / 2 > u64::MAX / 1000 {
            return false;
        }
        let played = (total / 2) * 1000 / (self.output_sample_rate as u64);
        played <= u64::MAX - self.base_position_ms
    }

    /// Accounts for `pushed` samples taken by the output device and updates
    /// the position.
    pub fn rendered(&mut self, pushed: u64)
        requires
            old(self).spec_render_fits(pushed),
        ensures
            *final(self) == old(self).spec_rendered(pushed),
    {
        let total = self.samples_sent + pushed;
        self.samples_sent = total;
        let played = (total / 2) * 1000 / (self.output_sample_rate as u64);
        self.status.position_ms = self.base_position_ms + played;
    }

    /// A copy of the status.
    pub fn status_snapshot(&self) -> (r: PlaybackStatus)
        ensures
            r == self.status,
    {
        self.status.snapshot()
    }
}

// ---------------------------------------------------------------------------
// Laws
// ---------------------------------------------------------------------------

/// Pausing and then playing again resumes at the position where playback
/// was paused.
pub proof fn law_pause_then_play_resumes(e: PlaybackEngine)
    requires
        e.status.path is Some,
    ensures
        e.spec_pause().spec_play().status.position_ms == e.status.position_ms,
        e.spec_pause().spec_play().base_position_ms == e.status.position_ms,
        e.spec_pause().spec_play().status.playing,
        e.spec_pause().spec_play().playing,
        e.spec_pause().spec_play().status.path == e.status.path,
{
}

/// Pausing twice is pausing once.
pub proof fn law_pause_idempotent(e: PlaybackEngine)
    ensures
        e.spec_pause().spec_pause() == e.spec_pause(),
{
}

/// A seek never lands beyond the duration, and lands exactly on the target
/// when the target is within it.
pub proof fn law_seek_within_duration(e: PlaybackEngine, position_ms: u64)
    ensures
        e.spec_seek(e.spec_seek_target(position_ms)).status.position_ms <= e.status.duration_ms,
        position_ms <= e.status.duration_ms ==> e.spec_seek(
            e.spec_seek_target(position_ms),
        ).status.position_ms == position_ms,
{
}

/// Seeking to the same target twice is seeking once.
pub proof fn law_seek_idempotent(e: PlaybackEngine, position_ms: u64)
    ensures
        ({
            let once = e.spec_seek(e.spec_seek_target(position_ms));
            once.spec_seek(once.spec_seek_target(position_ms)) == once
        }),
{
}

/// A completed load starts the new file paused at zero, with the decoder and
/// duration that probing determined, whatever state came before.
pub proof fn law_load_starts_paused_at_zero(
    e: PlaybackEngine,
    path: String,
    symphonia_ok: bool,
    probed_ms: Option<u64>,
    ffprobe_ms: Option<u64>,
)
    ensures
        ({
            let d = spec_choose_decoder(path@, symphonia_ok);
            let l = e.spec_begin_load(path).spec_finish_load(
                d,
                spec_resolve_duration(probed_ms, ffprobe_ms),
            );
            &&& l.status.path == Some(path)
            &&& l.status.position_ms == 0
            &&& !l.status.playing
            &&& !l.playing
            &&& l.status.decoder == Some(d)
            &&& l.status.duration_ms == spec_resolve_duration(probed_ms, ffprobe_ms)
            &&& l.output_sample_rate == e.output_sample_rate
        }),
{
}

/// Files that prefer `ffmpeg` are decoded by it whether or not Symphonia
/// could open them, and files Symphonia cannot open always go to `ffmpeg`.
pub proof fn law_decoder_choice(path: Seq<char>, symphonia_ok: bool)
    ensures
        spec_prefers_ffmpeg(path) ==> spec_choose_decoder(path, symphonia_ok) == DecoderKind::Ffmpeg,
        !symphonia_ok ==> spec_choose_decoder(path, symphonia_ok) == DecoderKind::Ffmpeg,
{
}

/// As the output device consumes samples, the reported position never moves
/// backwards.
pub proof fn law_position_monotone(e: PlaybackEngine, a: u64, b: u64)
    requires
        e.spec_render_fits(a),
        e.spec_rendered(a).spec_render_fits(b),
    ensures
        e.spec_rendered(a).status.position_ms <= e.spec_rendered(a).spec_rendered(
            b,
        ).status.position_ms,
{
    let r = e.output_sample_rate as int;
    let t1 = (e.samples_sent + a) as u64;
    let t2 = (t1 + b) as u64;
    assert((t1 / 2) * 1000 <= (t2 / 2) * 1000) by (nonlinear_arith)
        requires
            t1 <= t2,
    ;
    vstd::arithmetic::div_mod::lemma_div_is_ordered((t1 / 2) * 1000, (t2 / 2) * 1000, r);
}

/// Right after playing starts, the position is where it was; the output
/// callback then counts from there.
pub proof fn law_play_keeps_position(e: PlaybackEngine)
    ensures
        e.spec_play().status.position_ms == e.status.position_ms,
        e.spec_play().spec_render_fits(0) ==> e.spec_play().spec_rendered(0).status.position_ms
            == e.status.position_ms,
{
    if e.spec_play().spec_render_fits(0) {
        assert(played_ms(0, e.output_sample_rate) == 0);
    }
}

/// A duration found by probing is kept; `ffprobe`'s answer is used only when
/// probing found none (or zero), and zero when neither found one.
pub proof fn law_duration_fallback(probed_ms: Option<u64>, ffprobe_ms: Option<u64>)
    ensures
        !spec_needs_ffprobe(probed_ms) ==> spec_resolve_duration(probed_ms, ffprobe_ms)
            == probed_ms->Some_0,
        spec_needs_ffprobe(probed_ms) ==> spec_resolve_duration(probed_ms, ffprobe_ms) == (
        match ffprobe_ms {
            Some(f) => f,
            None => 0,
        }),
{
}

/// Once a file has been loaded, playing and seeking are accepted: the
/// "nothing loaded" refusal happens only before the first load.
pub proof fn law_loaded_engine_accepts_play(
    e: PlaybackEngine,
    path: String,
    decoder: DecoderKind,
    duration_ms: u64,
)
    ensures
        e.spec_begin_load(path).spec_finish_load(decoder, duration_ms).status.path is Some,
        e.spec_begin_load(path).spec_finish_load(decoder, duration_ms).spec_play().spec_pause().status.path
            is Some,
{
}

/// After a seek, the position counts from the place the seek reached: once
/// the output device has consumed `k` more samples, the position is that
/// place plus the time the `k` samples last at the device's rate, and nothing
/// rendered before the seek counts. Pausing and playing again then resumes
/// from that same position.
pub proof fn law_seek_counts_from_target(e: PlaybackEngine, position_ms: u64, k: u64)
    requires
        e.output_sample_rate > 0,
        (k / 2) * 1000 <= u64::MAX,
        e.status.duration_ms + (k / 2) * 1000 / (e.output_sample_rate as int) <= u64::MAX,
    ensures
        ({
            let target = if position_ms <= e.status.duration_ms {
                position_ms
            } else {
                e.status.duration_ms
            };
            let s = e.spec_seek(e.spec_seek_target(position_ms));
            let played = (k / 2) * 1000 / (e.output_sample_rate as int);
            &&& s.status.position_ms == target
            &&& s.spec_render_fits(k)
            &&& s.spec_rendered(k).status.position_ms == target + played
            &&& s.spec_rendered(k).spec_pause().spec_play().status.position_ms == target + played
        }),
{
    let t = e.spec_seek_target(position_ms);
    let r = e.output_sample_rate as int;
    assert((k / 2) * 1000 / r <= (k / 2) * 1000) by (nonlinear_arith)
        requires
            r > 0,
            (k / 2) * 1000 >= 0,
    ;
    assert(t <= e.status.duration_ms);
}

} // verus!
