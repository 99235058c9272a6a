//! The playback worker's state machine.
//!
//! A single worker thread owns all engine state. It receives commands,
//! drives the decode/mix/push cycle, tracks position from the count of
//! samples pushed (never from a wall clock), and manages the decoder and
//! output-stream lifecycle. The worker's decisions live here, verified; the
//! loop around them performs the outside work (spawning and reading decoder
//! processes, building the device stream, publishing events) and feeds the
//! results back in as plain values.
//!
//! Decoder processes are tracked by the flags `primary` and `secondary`:
//! exactly one primary decoder exists while a track plays, and exactly one
//! additional secondary decoder exists only during an active crossfade. The
//! caller holds the process handles and kills or promotes them exactly when
//! a transition here says so.

use vstd::prelude::*;

use crate::probe::MediaMetadata;
use crate::ring::SampleQueue;
use crate::samples::{mixed_at, VOLUME_UNIT};
use crate::state::{Command, PlaybackState};

verus! {

/// How many samples one decoder read may hand the engine at a time.
pub const CHUNK_SAMPLES: usize = 8192;

/// Whether a crossfade is in progress. A fade holds the moment it started
/// and how long it runs; everything else is derived.
pub enum CrossfadeState {
    Inactive,
    Fading { start_ms: u64, duration_ms: u64 },
}

/// What the decode loop should do this iteration: read and push one plain
/// chunk, read two chunks and push their blend, or finish the fade by
/// promoting the incoming decoder.
pub enum FadeStep {
    Plain,
    Mix { elapsed_ms: u64, duration_ms: u64 },
    Promote,
}

/// Outcome of one push: samples were queued, or the track has ended.
pub enum PushOutcome {
    Pushed,
    Finished,
}

/// Which decoder processes a stop has to terminate.
pub struct StopKills {
    pub had_primary: bool,
    pub had_secondary: bool,
}

/// Which decoder processes a seek has to terminate, and whether a decoder
/// respawn should follow.
pub struct SeekPlan {
    pub proceed: bool,
    pub had_primary: bool,
    pub had_secondary: bool,
}

/// What the worker loop still has to do after a command's state transition
/// was applied: nothing, publish the snapshot, kill decoder processes and
/// publish, rebuild the output stream, or run the multi-step play or seek
/// protocol whose outside work (probing, spawning) cannot happen here.
pub enum CommandAction {
    Quiet,
    Publish,
    KillAndPublish(StopKills),
    RebuildStream,
    StartPlay { path: String, title: String, artist: String, album: String },
    StartSeek { pos_ms: u64 },
}

/// Samples per millisecond at a device configuration (zero when the
/// configuration yields less than one sample per millisecond).
pub open spec fn spec_samples_per_ms(rate: u32, ch: u16) -> int {
    (rate as int * ch as int) / 1000
}

/// Position derived purely from the samples pushed: `samples / (rate * ch /
/// 1000)`, or the previous position when the rate is degenerate.
pub open spec fn spec_position(samples: u64, rate: u32, ch: u16, prev: u64) -> int {
    if spec_samples_per_ms(rate, ch) > 0 {
        samples as int / spec_samples_per_ms(rate, ch)
    } else {
        prev as int
    }
}

/// Milliseconds elapsed since a fade started (zero outside a fade or for a
/// clock reading before the start).
pub open spec fn spec_fade_elapsed(cf: CrossfadeState, now_ms: u64) -> int {
    match cf {
        CrossfadeState::Fading { start_ms, .. } => if now_ms >= start_ms {
            now_ms - start_ms
        } else {
            0
        },
        CrossfadeState::Inactive => 0,
    }
}

/// The length of a fade (zero outside a fade).
pub open spec fn spec_fade_duration(cf: CrossfadeState) -> int {
    match cf {
        CrossfadeState::Fading { duration_ms, .. } => duration_ms as int,
        CrossfadeState::Inactive => 0,
    }
}

fn samples_per_ms(rate: u32, ch: u16) -> (r: u64)
    ensures
        r as int == spec_samples_per_ms(rate, ch),
{
    proof {
        assert(rate as int * ch as int <= 0x1_0000_0000 * 0x1_0000) by (nonlinear_arith)
            requires
                rate <= 0xffff_ffff,
                ch <= 0xffff,
        ;
        assert(rate as int * ch as int >= 0) by (nonlinear_arith)
            requires
                rate >= 0,
                ch >= 0,
        ;
    }
    (rate as u64) * (ch as u64) / 1000
}

/// All engine state, owned by the worker.
pub struct AudioWorker {
    /// The hardware stream is up (its callback drains the queue).
    pub stream_active: bool,
    /// The sample queue between the decode loop and the output callback;
    /// recreated whenever the stream is rebuilt.
    pub ring: Option<SampleQueue>,
    /// Fixed-point gain applied by the output callback.
    pub volume: u32,
    /// Audible: true while playing and not paused.
    pub playing: bool,
    /// The output callback reported a device fault to be handled on the next
    /// tick.
    pub device_fault: bool,
    /// A primary decoder process is live.
    pub primary: bool,
    /// An incoming (secondary) decoder process is live; only during a fade.
    pub secondary: bool,
    /// Configured crossfade length; zero means hard cuts only.
    pub crossfade_setting_ms: u64,
    pub crossfade: CrossfadeState,
    pub device_sample_rate: u32,
    pub device_channels: u16,
    /// Explicitly selected output device, if any.
    pub selected_device: Option<String>,
    pub current_file_path: Option<String>,
    pub duration_ms: u64,
    pub current_position_ms: u64,
    /// Count of samples pushed since the position was last seeded.
    pub samples_played: u64,
    /// The published snapshot.
    pub state: PlaybackState,
}

impl AudioWorker {
    /// The engine's invariant: the snapshot mirrors the worker fields it
    /// caches, a secondary decoder exists exactly during a fade, a fade has a
    /// primary decoder and a positive length, the queue exists exactly while
    /// the stream is up, and the tracked position never runs ahead of what
    /// the sample count supports.
    pub open spec fn wf(&self) -> bool {
        &&& (self.crossfade is Fading <==> self.secondary)
        &&& (self.crossfade is Fading ==> self.primary)
        &&& (self.crossfade matches CrossfadeState::Fading { duration_ms, .. }
            ==> duration_ms > 0)
        &&& self.state.is_playing == self.playing
        &&& self.state.current_file == self.current_file_path
        &&& self.state.duration_ms == self.duration_ms
        &&& self.state.volume == self.volume
        &&& (match self.ring {
            Some(q) => q.wf(),
            None => true,
        })
        &&& (self.stream_active <==> self.ring is Some)
        &&& (spec_samples_per_ms(self.device_sample_rate, self.device_channels) > 0
            ==> self.current_position_ms as int <= self.samples_played as int
            / spec_samples_per_ms(self.device_sample_rate, self.device_channels))
    }

    /// The decode loop may push another chunk: a queue and a primary decoder
    /// exist, the queue is under half full, and a full chunk fits.
    pub open spec fn spec_can_accept(&self) -> bool {
        &&& self.primary
        &&& (match self.ring {
            Some(q) => q@.len() < q.cap() / 2 && q.cap() - q@.len() >= CHUNK_SAMPLES,
            None => false,
        })
    }

    /// A fresh worker at the given device configuration: idle, empty
    /// snapshot, unity volume, crossfade off.
    pub fn new(sample_rate: u32, channels: u16) -> (r: AudioWorker)
        ensures
            r.wf(),
            r == (AudioWorker {
                stream_active: false,
                ring: None,
                volume: VOLUME_UNIT,
                playing: false,
                device_fault: false,
                primary: false,
                secondary: false,
                crossfade_setting_ms: 0,
                crossfade: CrossfadeState::Inactive,
                device_sample_rate: sample_rate,
                device_channels: channels,
                selected_device: None,
                current_file_path: None,
                duration_ms: 0,
                current_position_ms: 0,
                samples_played: 0,
                state: (PlaybackState {
                    is_playing: false,
                    is_paused: false,
                    current_file: None,
                    position_ms: 0,
                    duration_ms: 0,
                    volume: VOLUME_UNIT,
                }),
            }),
    {
        AudioWorker {
            stream_active: false,
            ring: None,
            volume: VOLUME_UNIT,
            playing: false,
            device_fault: false,
            primary: false,
            secondary: false,
            crossfade_setting_ms: 0,
            crossfade: CrossfadeState::Inactive,
            device_sample_rate: sample_rate,
            device_channels: channels,
            selected_device: None,
            current_file_path: None,
            duration_ms: 0,
            current_position_ms: 0,
            samples_played: 0,
            state: PlaybackState {
                is_playing: false,
                is_paused: false,
                current_file: None,
                position_ms: 0,
                duration_ms: 0,
                volume: VOLUME_UNIT,
            },
        }
    }

    /// Pause playback: the callback goes silent; no decoder or stream is torn
    /// down.
    pub fn pause(&mut self)
        requires
            old(self).wf(),
        ensures
            final(self).wf(),
            *final(self) == (AudioWorker {
                playing: false,
                state: (PlaybackState {
                    is_playing: false,
                    is_paused: true,
                    ..old(self).state
                }),
                ..(*old(self))
            }),
    {
        self.playing = false;
        self.state.is_playing = false;
        self.state.is_paused = true;
    }

    /// Resume playback after a pause.
    pub fn resume(&mut self)
        requires
            old(self).wf(),
        ensures
            final(self).wf(),
            *final(self) == (AudioWorker {
                playing: true,
                state: (PlaybackState {
                    is_playing: true,
                    is_paused: false,
                    ..old(self).state
                }),
                ..(*old(self))
            }),
    {
        self.playing = true;
        self.state.is_playing = true;
        self.state.is_paused = false;
    }

    /// Stop playback: every live decoder is reported for termination, the
    /// stream and queue are dropped, and all file/position/duration state is
    /// reset to empty (volume is kept).
    pub fn stop(&mut self) -> (r: StopKills)
        requires
            old(self).wf(),
        ensures
            final(self).wf(),
            r.had_primary == old(self).primary,
            r.had_secondary == old(self).secondary,
            *final(self) == (AudioWorker {
                stream_active: false,
                ring: None,
                playing: false,
                primary: false,
                secondary: false,
                crossfade: CrossfadeState::Inactive,
                current_file_path: None,
                duration_ms: 0,
                current_position_ms: 0,
                samples_played: 0,
                state: (PlaybackState {
                    is_playing: false,
                    is_paused: false,
                    current_file: None,
                    position_ms: 0,
                    duration_ms: 0,
                    volume: old(self).volume,
                }),
                ..(*old(self))
            }),
    {
        let r = StopKills { had_primary: self.primary, had_secondary: self.secondary };
        self.playing = false;
        self.primary = false;
        self.secondary = false;
        self.crossfade = CrossfadeState::Inactive;
        self.stream_active = false;
        self.ring = None;
        self.current_file_path = None;
        self.duration_ms = 0;
        self.current_position_ms = 0;
        self.samples_played = 0;
        self.state = PlaybackState {
            is_playing: false,
            is_paused: false,
            current_file: None,
            position_ms: 0,
            duration_ms: 0,
            volume: self.volume,
        };
        r
    }

    /// Set the volume factor consumed by the output callback.
    pub fn set_volume(&mut self, v: u32)
        requires
            old(self).wf(),
        ensures
            final(self).wf(),
            *final(self) == (AudioWorker {
                volume: v,
                state: (PlaybackState { volume: v, ..old(self).state }),
                ..(*old(self))
            }),
    {
        self.volume = v;
        self.state.volume = v;
    }

    /// Set the configured crossfade length.
    pub fn set_crossfade(&mut self, ms: u64)
        requires
            old(self).wf(),
        ensures
            final(self).wf(),
            *final(self) == (AudioWorker { crossfade_setting_ms: ms, ..(*old(self)) }),
    {
        self.crossfade_setting_ms = ms;
    }

    /// Remember an explicitly selected output device; the stream rebuild
    /// follows as a device change.
    pub fn set_device(&mut self, name: String)
        requires
            old(self).wf(),
        ensures
            final(self).wf(),
            *final(self) == (AudioWorker { selected_device: Some(name), ..(*old(self)) }),
    {
        self.selected_device = Some(name);
    }

    /// Record a fault the output callback reported; the worker acts on it on
    /// its next tick.
    pub fn note_device_fault(&mut self)
        requires
            old(self).wf(),
        ensures
            final(self).wf(),
            *final(self) == (AudioWorker { device_fault: true, ..(*old(self)) }),
    {
        self.device_fault = true;
    }

    /// Begin handling a device change or fault: clear the fault flag and,
    /// when a track is loaded, drop the stream and queue so they can be
    /// rebuilt. Returns whether a rebuild should follow.
    pub fn device_change_begin(&mut self) -> (rebuild: bool)
        requires
            old(self).wf(),
        ensures
            final(self).wf(),
            rebuild == old(self).current_file_path is Some,
            rebuild ==> *final(self) == (AudioWorker {
                device_fault: false,
                stream_active: false,
                ring: None,
                ..(*old(self))
            }),
            !rebuild ==> *final(self) == (AudioWorker { device_fault: false, ..(*old(self)) }),
    {
        self.device_fault = false;
        if self.current_file_path.is_some() {
            self.stream_active = false;
            self.ring = None;
            true
        } else {
            false
        }
    }

    /// The output stream was rebuilt at the given configuration: adopt it,
    /// size a fresh (empty) queue to one second of audio, and re-derive the
    /// position at the new configuration.
    pub fn stream_built(&mut self, sample_rate: u32, channels: u16)
        requires
            old(self).wf(),
            sample_rate >= 1,
            channels >= 1,
            sample_rate as int * channels as int <= usize::MAX as int,
        ensures
            final(self).wf(),
            final(self).ring is Some,
            (match final(self).ring {
                Some(q) => q@ == Seq::<i32>::empty() && q.cap() == sample_rate as int
                    * channels as int,
                None => false,
            }),
            final(self).current_position_ms as int == spec_position(
                old(self).samples_played,
                sample_rate,
                channels,
                old(self).current_position_ms,
            ),
            *final(self) == (AudioWorker {
                stream_active: true,
                ring: final(self).ring,
                device_sample_rate: sample_rate,
                device_channels: channels,
                current_position_ms: final(self).current_position_ms,
                ..(*old(self))
            }),
    {
        proof {
            assert(sample_rate as int * channels as int >= 1 * 1) by (nonlinear_arith)
                requires
                    sample_rate >= 1,
                    channels >= 1,
            ;
        }
        let buffer_size: usize = (sample_rate as usize) * (channels as usize);
        self.device_sample_rate = sample_rate;
        self.device_channels = channels;
        self.ring = Some(SampleQueue::new(buffer_size));
        self.stream_active = true;
        let spm = samples_per_ms(sample_rate, channels);
        if spm > 0 {
            self.current_position_ms = self.samples_played / spm;
        }
    }

    /// The stream rebuild failed: the engine is left with no stream and no
    /// queue.
    pub fn stream_failed(&mut self)
        requires
            old(self).wf(),
        ensures
            final(self).wf(),
            *final(self) == (AudioWorker {
                stream_active: false,
                ring: None,
                ..(*old(self))
            }),
    {
        self.stream_active = false;
        self.ring = None;
    }

    /// The play-request policy: crossfade exactly when something is playing,
    /// a nonzero crossfade is configured, a primary decoder exists, and the
    /// requested path differs from the current one; otherwise hard-cut.
    pub open spec fn spec_should_crossfade(&self, path: Seq<char>) -> bool {
        &&& self.playing
        &&& self.crossfade_setting_ms > 0
        &&& self.primary
        &&& (match self.current_file_path {
            Some(f) => f@ != path,
            None => true,
        })
    }

    /// Decide between a crossfade transition and a hard cut for a play
    /// request.
    pub fn should_crossfade(&self, path: &String) -> (r: bool)
        ensures
            r == self.spec_should_crossfade(path@),
    {
        let same: bool = match &self.current_file_path {
            Some(f) => f.eq(path),
            None => false,
        };
        self.playing && self.crossfade_setting_ms > 0 && self.primary && !same
    }

    /// A secondary decoder was spawned for `path`: enter the fade, and
    /// optimistically publish the incoming track's file and duration while
    /// the audible output is still a blend. A fade that was already running
    /// is replaced outright; the caller terminates the old incoming decoder
    /// when it hands over the new one.
    pub fn begin_crossfade(&mut self, path: String, meta: &MediaMetadata, now_ms: u64)
        requires
            old(self).wf(),
            old(self).spec_should_crossfade(path@),
        ensures
            final(self).wf(),
            final(self).current_file_path matches Some(f) && f@ == path@,
            *final(self) == (AudioWorker {
                secondary: true,
                crossfade: (CrossfadeState::Fading {
                    start_ms: now_ms,
                    duration_ms: old(self).crossfade_setting_ms,
                }),
                current_file_path: final(self).current_file_path,
                duration_ms: meta.duration_ms,
                current_position_ms: 0,
                samples_played: 0,
                state: (PlaybackState {
                    current_file: final(self).current_file_path,
                    duration_ms: meta.duration_ms,
                    position_ms: 0,
                    ..old(self).state
                }),
                ..(*old(self))
            }),
    {
        self.secondary = true;
        self.crossfade = CrossfadeState::Fading {
            start_ms: now_ms,
            duration_ms: self.crossfade_setting_ms,
        };
        self.duration_ms = meta.duration_ms;
        self.current_position_ms = 0;
        self.samples_played = 0;
        self.state.current_file = Some(path.clone());
        self.state.duration_ms = meta.duration_ms;
        self.state.position_ms = 0;
        self.current_file_path = Some(path);
    }

    /// A hard cut's primary decoder was spawned: adopt the new track and its
    /// probed duration, start at position zero, and become audible. Nothing
    /// earlier in a hard cut touches the published snapshot, so a probe, a
    /// stream build or a spawn that fails leaves the empty state the initial
    /// stop left.
    pub fn hard_cut_spawned(&mut self, path: String, meta: &MediaMetadata)
        requires
            old(self).wf(),
            old(self).crossfade is Inactive,
            !old(self).secondary,
        ensures
            final(self).wf(),
            final(self).current_file_path matches Some(f) && f@ == path@,
            *final(self) == (AudioWorker {
                primary: true,
                playing: true,
                current_file_path: final(self).current_file_path,
                duration_ms: meta.duration_ms,
                current_position_ms: 0,
                samples_played: 0,
                state: (PlaybackState {
                    is_playing: true,
                    is_paused: false,
                    current_file: final(self).current_file_path,
                    position_ms: 0,
                    duration_ms: meta.duration_ms,
                    ..old(self).state
                }),
                ..(*old(self))
            }),
    {
        self.primary = true;
        self.playing = true;
        self.duration_ms = meta.duration_ms;
        self.current_position_ms = 0;
        self.samples_played = 0;
        self.state.is_playing = true;
        self.state.is_paused = false;
        self.state.current_file = Some(path.clone());
        self.state.position_ms = 0;
        self.state.duration_ms = meta.duration_ms;
        self.current_file_path = Some(path);
    }

    /// Begin a seek: every decoder is reported for termination, an in-flight
    /// crossfade is cancelled, and the stream and queue are dropped so no
    /// stale samples survive. Nothing happens when no track is loaded.
    pub fn seek_begin(&mut self) -> (r: SeekPlan)
        requires
            old(self).wf(),
        ensures
            final(self).wf(),
            r.proceed == old(self).current_file_path is Some,
            r.had_primary == (old(self).primary && r.proceed),
            r.had_secondary == (old(self).secondary && r.proceed),
            !r.proceed ==> *final(self) == *old(self),
            r.proceed ==> *final(self) == (AudioWorker {
                primary: false,
                secondary: false,
                crossfade: CrossfadeState::Inactive,
                stream_active: false,
                ring: None,
                ..(*old(self))
            }),
    {
        if self.current_file_path.is_none() {
            return SeekPlan { proceed: false, had_primary: false, had_secondary: false };
        }
        let r = SeekPlan { proceed: true, had_primary: self.primary, had_secondary: self.secondary };
        self.primary = false;
        self.secondary = false;
        self.crossfade = CrossfadeState::Inactive;
        self.stream_active = false;
        self.ring = None;
        r
    }

    /// A decoder was respawned at the seek offset: adopt it as primary and
    /// seed the position counters directly from the offset (not recomputed
    /// from zero).
    pub fn seek_spawned(&mut self, pos_ms: u64)
        requires
            old(self).wf(),
            old(self).crossfade is Inactive,
            !old(self).secondary,
            pos_ms as int * old(self).device_sample_rate as int * old(self).device_channels as int
                <= u64::MAX as int,
        ensures
            final(self).wf(),
            final(self).current_position_ms == pos_ms,
            final(self).samples_played as int == pos_ms as int * (old(
                self,
            ).device_sample_rate as int * old(self).device_channels as int) / 1000,
            *final(self) == (AudioWorker {
                primary: true,
                current_position_ms: pos_ms,
                samples_played: final(self).samples_played,
                state: (PlaybackState { position_ms: pos_ms, ..old(self).state }),
                ..(*old(self))
            }),
    {
        let rate = self.device_sample_rate;
        let ch = self.device_channels;
        proof {
            assert(rate as int * ch as int <= 0x1_0000_0000 * 0x1_0000 && rate as int
                * ch as int >= 0) by (nonlinear_arith)
                requires
                    0 <= rate <= 0xffff_ffff,
                    0 <= ch <= 0xffff,
            ;
            assert(pos_ms as int * (rate as int * ch as int) == pos_ms as int * rate as int
                * ch as int && pos_ms as int * (rate as int * ch as int) >= 0)
                by (nonlinear_arith)
                requires
                    pos_ms >= 0,
                    rate >= 0,
                    ch >= 0,
            ;
        }
        let per_sec: u64 = (rate as u64) * (ch as u64);
        let seeded: u64 = pos_ms * per_sec / 1000;
        self.primary = true;
        self.current_position_ms = pos_ms;
        self.samples_played = seeded;
        self.state.position_ms = pos_ms;
        proof {
            lemma_seeded_position_consistent(pos_ms, rate, ch);
        }
    }

    /// What the decode loop should do at clock reading `now_ms`: push plainly
    /// outside a fade, blend while the fade runs, or promote the incoming
    /// decoder once the fade's time is up.
    pub fn fade_step(&self, now_ms: u64) -> (r: FadeStep)
        ensures
            self.crossfade is Inactive ==> r is Plain,
            self.crossfade is Fading ==> {
                if spec_fade_elapsed(self.crossfade, now_ms) < spec_fade_duration(self.crossfade) {
                    r == (FadeStep::Mix {
                        elapsed_ms: spec_fade_elapsed(self.crossfade, now_ms) as u64,
                        duration_ms: spec_fade_duration(self.crossfade) as u64,
                    })
                } else {
                    r is Promote
                }
            },
    {
        match self.crossfade {
            CrossfadeState::Inactive => FadeStep::Plain,
            CrossfadeState::Fading { start_ms, duration_ms } => {
                let elapsed: u64 = if now_ms >= start_ms {
                    now_ms - start_ms
                } else {
                    0
                };
                if elapsed < duration_ms {
                    FadeStep::Mix { elapsed_ms: elapsed, duration_ms }
                } else {
                    FadeStep::Promote
                }
            },
        }
    }

    /// The fade's time is up: the outgoing (primary) decoder is reported for
    /// termination and the incoming decoder is promoted to primary. The
    /// hand-off happens on a mix-loop boundary, so no samples are lost.
    pub fn finish_crossfade(&mut self)
        requires
            old(self).wf(),
            old(self).crossfade is Fading,
        ensures
            final(self).wf(),
            final(self).primary,
            !final(self).secondary,
            *final(self) == (AudioWorker {
                secondary: false,
                crossfade: CrossfadeState::Inactive,
                ..(*old(self))
            }),
    {
        self.secondary = false;
        self.crossfade = CrossfadeState::Inactive;
    }

    /// Whether the decode loop should read and push another chunk this tick.
    pub fn can_accept(&self) -> (r: bool)
        requires
            self.wf(),
        ensures
            r == self.spec_can_accept(),
    {
        if !self.primary {
            return false;
        }
        match &self.ring {
            Some(q) => {
                let occ = q.occupied();
                let cap = q.capacity();
                occ < cap / 2 && cap - occ >= CHUNK_SAMPLES
            },
            None => false,
        }
    }

    /// Push one plain (non-fading) chunk read from the primary decoder. An
    /// empty chunk means the decoder reached the end of the stream (or
    /// failed, treated identically): the track is finished and nothing
    /// changes here. Otherwise every sample is queued and the position
    /// advances by the samples pushed, never backward.
    pub fn push_plain(&mut self, chunk: &Vec<i32>) -> (r: PushOutcome)
        requires
            old(self).wf(),
            old(self).spec_can_accept(),
            old(self).crossfade is Inactive,
            chunk@.len() <= CHUNK_SAMPLES,
            old(self).samples_played + chunk@.len() <= u64::MAX,
        ensures
            final(self).wf(),
            chunk@.len() == 0 ==> r is Finished && *final(self) == *old(self),
            chunk@.len() > 0 ==> {
                &&& r is Pushed
                &&& final(self).samples_played == old(self).samples_played + chunk@.len()
                &&& (match (final(self).ring, old(self).ring) {
                    (Some(q2), Some(q1)) => q2@ == q1@ + chunk@ && q2.cap() == q1.cap(),
                    _ => false,
                })
                &&& final(self).current_position_ms as int == spec_position(
                    final(self).samples_played,
                    old(self).device_sample_rate,
                    old(self).device_channels,
                    old(self).current_position_ms,
                )
                &&& final(self).current_position_ms >= old(self).current_position_ms
                &&& *final(self) == (AudioWorker {
                    ring: final(self).ring,
                    samples_played: final(self).samples_played,
                    current_position_ms: final(self).current_position_ms,
                    ..(*old(self))
                })
            },
    {
        if chunk.len() == 0 {
            return PushOutcome::Finished;
        }
        match &mut self.ring {
            Some(q) => {
                let pushed = q.push_slice(chunk);
                proof {
                    assert(pushed == chunk@.len());
                    assert(chunk@.take(chunk@.len() as int) =~= chunk@);
                }
            },
            None => {
                proof {
                    assert(false);
                }
            },
        }
        self.samples_played = self.samples_played + chunk.len() as u64;
        self.advance_position();
        proof {
            let spm = spec_samples_per_ms(old(self).device_sample_rate, old(self).device_channels);
            if spm > 0 {
                vstd::arithmetic::div_mod::lemma_div_is_ordered(
                    old(self).samples_played as int,
                    self.samples_played as int,
                    spm,
                );
            }
        }
        PushOutcome::Pushed
    }

    /// Push the blend of one outgoing and one incoming chunk while a fade
    /// runs. The incoming chunk drives how much audio advances; an empty
    /// incoming chunk ends the crossfade and the track (deliberately so even
    /// though a zero-length read could also be a transient stall of the
    /// incoming decoder). The outgoing chunk is zero-padded where it ran
    /// short.
    pub fn push_mixed(&mut self, outgoing: &Vec<i32>, incoming: &Vec<i32>, now_ms: u64) -> (r:
        PushOutcome)
        requires
            old(self).wf(),
            old(self).spec_can_accept(),
            old(self).crossfade is Fading,
            spec_fade_elapsed(old(self).crossfade, now_ms) < spec_fade_duration(
                old(self).crossfade,
            ),
            incoming@.len() <= CHUNK_SAMPLES,
            old(self).samples_played + incoming@.len() <= u64::MAX,
        ensures
            final(self).wf(),
            incoming@.len() == 0 ==> r is Finished && *final(self) == *old(self),
            incoming@.len() > 0 ==> {
                &&& r is Pushed
                &&& final(self).samples_played == old(self).samples_played + incoming@.len()
                &&& (match (final(self).ring, old(self).ring) {
                    (Some(q2), Some(q1)) => {
                        &&& q2.cap() == q1.cap()
                        &&& q2@.len() == q1@.len() + incoming@.len()
                        &&& q2@.take(q1@.len() as int) == q1@
                        &&& forall|i: int|
                            0 <= i < incoming@.len() ==> q2@[q1@.len() + i] as int == mixed_at(
                                outgoing@,
                                incoming@,
                                spec_fade_elapsed(old(self).crossfade, now_ms),
                                spec_fade_duration(old(self).crossfade),
                                i,
                            )
                    },
                    _ => false,
                })
                &&& final(self).current_position_ms as int == spec_position(
                    final(self).samples_played,
                    old(self).device_sample_rate,
                    old(self).device_channels,
                    old(self).current_position_ms,
                )
                &&& final(self).current_position_ms >= old(self).current_position_ms
                &&& *final(self) == (AudioWorker {
                    ring: final(self).ring,
                    samples_played: final(self).samples_played,
                    current_position_ms: final(self).current_position_ms,
                    ..(*old(self))
                })
            },
    {
        if incoming.len() == 0 {
            return PushOutcome::Finished;
        }
        let (elapsed, duration): (u64, u64) = match self.crossfade {
            CrossfadeState::Fading { start_ms, duration_ms } => (
                if now_ms >= start_ms {
                    now_ms - start_ms
                } else {
                    0
                },
                duration_ms,
            ),
            CrossfadeState::Inactive => (0, 1),
        };
        let blended = crate::samples::mix_chunk(outgoing, incoming, elapsed, duration);
        match &mut self.ring {
            Some(q) => {
                let ghost q1at = q@;
                let pushed = q.push_slice(&blended);
                proof {
                    assert(pushed == blended@.len());
                    assert(blended@.take(blended@.len() as int) =~= blended@);
                    assert((q1at + blended@).take(q1at.len() as int) =~= q1at);
                }
            },
            None => {
                proof {
                    assert(false);
                }
            },
        }
        self.samples_played = self.samples_played + incoming.len() as u64;
        self.advance_position();
        proof {
            let spm = spec_samples_per_ms(old(self).device_sample_rate, old(self).device_channels);
            if spm > 0 {
                vstd::arithmetic::div_mod::lemma_div_is_ordered(
                    old(self).samples_played as int,
                    self.samples_played as int,
                    spm,
                );
            }
        }
        PushOutcome::Pushed
    }

    /// Re-derive the position from the sample count at the current device
    /// configuration.
    fn advance_position(&mut self)
        ensures
            final(self).current_position_ms as int == spec_position(
                old(self).samples_played,
                old(self).device_sample_rate,
                old(self).device_channels,
                old(self).current_position_ms,
            ),
            *final(self) == (AudioWorker {
                current_position_ms: final(self).current_position_ms,
                ..(*old(self))
            }),
    {
        let spm = samples_per_ms(self.device_sample_rate, self.device_channels);
        if spm > 0 {
            self.current_position_ms = self.samples_played / spm;
        }
    }

    /// One periodic progress publication: while playing and not paused, the
    /// snapshot's position is refreshed from the tracked position and should
    /// be emitted; otherwise nothing changes.
    pub fn progress_tick(&mut self) -> (emit: bool)
        requires
            old(self).wf(),
        ensures
            final(self).wf(),
            emit == (old(self).state.is_playing && !old(self).state.is_paused),
            emit ==> *final(self) == (AudioWorker {
                state: (PlaybackState {
                    position_ms: old(self).current_position_ms,
                    ..old(self).state
                }),
                ..(*old(self))
            }),
            !emit ==> *final(self) == *old(self),
    {
        if self.state.is_playing && !self.state.is_paused {
            self.state.position_ms = self.current_position_ms;
            true
        } else {
            false
        }
    }

    /// Apply one received command. Pause, resume, stop, volume, crossfade
    /// length and device selection are applied here in full; a play or seek
    /// request comes back as an action, since its probing and spawning happen
    /// outside, between further transitions.
    pub fn handle_command(&mut self, cmd: Command) -> (r: CommandAction)
        requires
            old(self).wf(),
        ensures
            final(self).wf(),
            (cmd matches Command::Play { path, title, artist, album, .. } ==> *final(self) == *old(
                self,
            ) && r == (CommandAction::StartPlay { path, title, artist, album })),
            cmd is Pause ==> r is Publish && *final(self) == (AudioWorker {
                playing: false,
                state: (PlaybackState { is_playing: false, is_paused: true, ..old(self).state }),
                ..(*old(self))
            }),
            cmd is Resume ==> r is Publish && *final(self) == (AudioWorker {
                playing: true,
                state: (PlaybackState { is_playing: true, is_paused: false, ..old(self).state }),
                ..(*old(self))
            }),
            cmd is Stop ==> (r matches CommandAction::KillAndPublish(k) && k.had_primary == old(
                self,
            ).primary && k.had_secondary == old(self).secondary) && *final(self) == (AudioWorker {
                stream_active: false,
                ring: None,
                playing: false,
                primary: false,
                secondary: false,
                crossfade: CrossfadeState::Inactive,
                current_file_path: None,
                duration_ms: 0,
                current_position_ms: 0,
                samples_played: 0,
                state: (PlaybackState {
                    is_playing: false,
                    is_paused: false,
                    current_file: None,
                    position_ms: 0,
                    duration_ms: 0,
                    volume: old(self).volume,
                }),
                ..(*old(self))
            }),
            (cmd matches Command::Seek(p) ==> *final(self) == *old(self) && r
                == (CommandAction::StartSeek { pos_ms: p })),
            (cmd matches Command::SetVolume(v) ==> r is Quiet && *final(self) == (AudioWorker {
                volume: v,
                state: (PlaybackState { volume: v, ..old(self).state }),
                ..(*old(self))
            })),
            (cmd matches Command::SetCrossfade(ms) ==> r is Quiet && *final(self) == (AudioWorker {
                crossfade_setting_ms: ms,
                ..(*old(self))
            })),
            (cmd matches Command::SetDevice(name) ==> {
                &&& (old(self).current_file_path is Some ==> r is RebuildStream && *final(self)
                    == (AudioWorker {
                    selected_device: Some(name),
                    device_fault: false,
                    stream_active: false,
                    ring: None,
                    ..(*old(self))
                }))
                &&& (old(self).current_file_path is None ==> r is Quiet && *final(self)
                    == (AudioWorker {
                    selected_device: Some(name),
                    device_fault: false,
                    ..(*old(self))
                }))
            }),
    {
        match cmd {
            Command::Play { path, title, artist, album, cover: _ } => {
                CommandAction::StartPlay { path, title, artist, album }
            },
            Command::Pause => {
                self.pause();
                CommandAction::Publish
            },
            Command::Resume => {
                self.resume();
                CommandAction::Publish
            },
            Command::Stop => {
                let kills = self.stop();
                CommandAction::KillAndPublish(kills)
            },
            Command::Seek(pos_ms) => CommandAction::StartSeek { pos_ms },
            Command::SetVolume(v) => {
                self.set_volume(v);
                CommandAction::Quiet
            },
            Command::SetCrossfade(ms) => {
                self.set_crossfade(ms);
                CommandAction::Quiet
            },
            Command::SetDevice(name) => {
                self.set_device(name);
                if self.device_change_begin() {
                    CommandAction::RebuildStream
                } else {
                    CommandAction::Quiet
                }
            },
        }
    }
}

/// Seeding the sample counter at a seek never makes the derived position fall
/// short of the seek target: deriving a position from
/// `pos_ms * rate * ch / 1000` samples gives back at least `pos_ms`.
pub proof fn lemma_seeded_position_consistent(pos_ms: u64, rate: u32, ch: u16)
    ensures
        spec_samples_per_ms(rate, ch) > 0 ==> pos_ms as int <= (pos_ms as int * (rate as int
            * ch as int) / 1000) / spec_samples_per_ms(rate, ch),
{
    let p = pos_ms as int;
    let r = rate as int * ch as int;
    let spm = r / 1000;
    if spm > 0 {
        vstd::arithmetic::div_mod::lemma_fundamental_div_mod(r, 1000);
        assert(r == 1000 * spm + r % 1000);
        assert(p * r >= p * (1000 * spm)) by (nonlinear_arith)
            requires
                p >= 0,
                r >= 1000 * spm,
        ;
        assert(p * (1000 * spm) == 1000 * (p * spm)) by (nonlinear_arith);
        vstd::arithmetic::div_mod::lemma_div_is_ordered(1000 * (p * spm), p * r, 1000);
        vstd::arithmetic::div_mod::lemma_div_multiples_vanish(p * spm, 1000);
        assert(p * r / 1000 >= p * spm);
        assert(p * spm == spm * p) by (nonlinear_arith);
        vstd::arithmetic::div_mod::lemma_div_is_ordered(spm * p, p * r / 1000, spm);
        vstd::arithmetic::div_mod::lemma_div_multiples_vanish(p, spm);
    }
}

/// The derived position is monotone in the samples pushed: pushing more
/// samples at a fixed device configuration never reports an earlier
/// position.
pub proof fn lemma_position_monotone(s1: u64, s2: u64, rate: u32, ch: u16, prev: u64)
    requires
        s1 <= s2,
    ensures
        spec_position(s1, rate, ch, prev) <= spec_position(s2, rate, ch, prev),
{
    if spec_samples_per_ms(rate, ch) > 0 {
        vstd::arithmetic::div_mod::lemma_div_is_ordered(
            s1 as int,
            s2 as int,
            spec_samples_per_ms(rate, ch),
        );
    }
}

} // verus!
