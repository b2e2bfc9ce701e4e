//! Verified core of the knoobar music library and player: classification of
//! audio files by extension, the text helpers it rests on, the sample-layout
//! conversions of the decoder, the decisions of the playback engine, and the
//! rules by which library rows and tag edits are formed.

pub mod text;
pub mod media;
pub mod samples;
pub mod decode;
pub mod probe;
pub mod playback;
pub mod ffmpeg;
pub mod library;
