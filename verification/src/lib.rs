//! Real-time playback engine of a desktop music player.
//!
//! The engine decodes an audio file through an external decoder process,
//! streams raw PCM samples through a bounded single-producer/single-consumer
//! queue to a hardware output device, and supports pause/resume/seek/volume/
//! device switching and timed crossfade transitions between tracks.
//!
//! Samples are handled as signed fixed-point PCM values; the process and
//! device I/O around the engine converts at the boundary.

pub mod catalog;
pub mod decoder;
pub mod engine;
pub mod error;
pub mod fetch;
pub mod probe;
pub mod ring;
pub mod samples;
pub mod state;
pub mod update;
