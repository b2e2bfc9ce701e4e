# knoobar

A desktop music library and player. The `knoobar` crate under `src/` is the
verified core; `app/` is the Tauri application around it.

- `src/text.rs` — ASCII lower-casing, Unicode white-space trimming, decimal
  rendering, Unicode lower-casing.
- `src/media.rs` — which paths are audio files, which formats go to `ffmpeg`.
- `src/samples.rs` — mono/multi-channel to interleaved stereo.
- `src/decode.rs` — the decisions of the decoding loop and the queue headroom.
- `src/probe.rs` — the stream facts reported for a file.
- `src/playback.rs` — the playback engine as a state machine: load, play,
  pause, seek, and the position kept by the output callback.
- `src/ffmpeg.rs` — command lines of `ffmpeg` and `ffprobe`.
- `src/library.rs` — library roots, search patterns, tag resolution, tag
  edits, cover-art types, track rows, scan counts.

`app/` opens the SQLite database, walks library roots, reads and writes tags
with lofty, probes and decodes with Symphonia or `ffmpeg`, drives the output
device with cpal, and exposes all of it as Tauri commands.
