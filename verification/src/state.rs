//! Shared playback state and the engine's command vocabulary.

use vstd::prelude::*;

use crate::samples::VOLUME_UNIT;

verus! {

/// Snapshot of the engine's externally visible state. Mutated only by the
/// playback worker; read by the facade and subscribers as an immutable copy.
/// Starts empty, is updated on every transition, and is reset to empty on
/// stop. `volume` is a fixed-point gain where `VOLUME_UNIT` is unity.
#[derive(Debug, Clone)]
pub struct PlaybackState {
    pub is_playing: bool,
    pub is_paused: bool,
    pub current_file: Option<String>,
    pub position_ms: u64,
    pub duration_ms: u64,
    pub volume: u32,
}

impl Default for PlaybackState {
    /// The empty state: nothing loaded, nothing playing, unity volume.
    fn default() -> (r: PlaybackState)
        ensures
            r == (PlaybackState {
                is_playing: false,
                is_paused: false,
                current_file: None,
                position_ms: 0,
                duration_ms: 0,
                volume: VOLUME_UNIT,
            }),
    {
        PlaybackState {
            is_playing: false,
            is_paused: false,
            current_file: None,
            position_ms: 0,
            duration_ms: 0,
            volume: VOLUME_UNIT,
        }
    }
}

/// An output device, named as the host enumerates it.
#[derive(Debug, Clone)]
pub struct AudioDevice {
    pub name: String,
}

/// A command sent from the facade to the playback worker. Created by the
/// facade, consumed exactly once by the worker.
pub enum Command {
    Play { path: String, title: String, artist: String, album: String, cover: Option<String> },
    Pause,
    Resume,
    Stop,
    Seek(u64),
    SetVolume(u32),
    SetDevice(String),
    SetCrossfade(u64),
}

} // verus!
