//! Verified decision logic of a set of GStreamer elements: an audio
//! spectrogram and ridgeline visualizer, two looping file sources, the
//! WebRTC sink's pad settings and public enums, and a terminal video sink.

pub mod chafasink;
pub mod element;
pub mod loopfilesrcbin;
pub mod metadata;
pub mod repeatfilesrc;
pub mod ridgeline;
pub mod spectrogram;
pub mod terminal;
pub mod webrtcsink;
