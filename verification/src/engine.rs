//! The audio engine: one state machine advanced fifty milliseconds at a
//! time.
//!
//! Each tick the engine applies at most one queued command, interpolates
//! ducking and fades, runs every ambient voice's A/B machine against the
//! drain state its sink reported, and republishes the snapshot records the
//! UI polls. The engine never touches a device itself: it keeps a model of
//! every sink and hands its caller explicit enqueue requests; the caller
//! mirrors the models onto real sinks and reports back which ones drained.
use vstd::prelude::*;
use crate::ambient::{ab_step_rel, ambient_ab_step, chain_of, lemma_ab_step_machine_view, machine_view, AmbientState, ChainParams};
use crate::fades::{
    advance_fades, str_vec_has, steps_bounded, FADE_STEPS, SCHEDULER_FADE_STEPS,
    SCHEDULER_VOLUME_TRANSITION_SPEED, VOLUME_TRANSITION_SPEED,
};
use crate::gain::{
    ambient_base_gain, ambient_gain, calc_ambient_volume, ducked_music_gain,
    ducked_music_gain_exec, milli_mul, music_gain, music_gain_exec, mul_milli, variation_window,
};
use crate::music::{
    fade_in_progress_exec, fade_in_progress_milli, fade_out_mult_exec, fade_out_mult_milli,
    FadeIn,
};
use crate::settings::{ActiveAmbientInfo, AmbientSettings};
use crate::sink::SinkModel;
use crate::strmap::StrMap;
use crate::types::{
    AudioProgress, CurrentTrackInfo, MusicPlaylist, PlaybackState, PlaylistState, PlaylistTrack,
    SchedulerState,
};

verus! {

/// Milliseconds per engine tick.
pub const TICK_MS: u64 = 50;

/// Ticks per scheduler second.
pub const SCHEDULER_TICKS_PER_SECOND: u32 = 20;

/// Ducking interpolation speed per tick, in thousandths: a full transition
/// takes about 300 ms.
pub const DUCK_FADE_SPEED: u32 = 150;

/// Ceiling on modeled track positions, comfortably past any real track.
pub const ELAPSED_CEILING_MS: u64 = 0x10_0000_0000;

/// The commands the engine consumes, one per tick.
#[derive(Debug)]
pub enum AudioCommand {
    Play { file_path: String, track_info: CurrentTrackInfo },
    Stop,
    Pause,
    Resume,
    Seek(u64),
    SetVolume(u32),
    SetMasterVolume(u32),
    SetMuted(bool),
    SetMasterMuted(bool),
    SetCrossfadeDuration(u32),
    PlaySoundboard { file_path: String, volume: u32 },
    StopSoundboard,
    SetDuckAmount(u32),
    PlayAmbient { id: String, file_a: String, file_b: String, settings: AmbientSettings },
    StopAmbient(String),
    UpdateAmbientSettings { id: String, settings: AmbientSettings },
    SetAmbientMasterVolume(u32),
    SetAmbientMuted(bool),
    PreloadAmbient(Vec<String>),
    PlayAmbientScheduler { id: String, file_a: String, file_b: String, settings: AmbientSettings },
    StopAmbientScheduler(String),
    UpdateAmbientSettingsScheduler { id: String, settings: AmbientSettings },
}

/// One request to decode a file and append its chain to a voice's sink.
#[derive(Debug)]
pub struct EnqueueRequest {
    /// The ambient voice the source belongs to.
    pub id: String,
    /// The file to decode.
    pub path: String,
    /// The chain the decoded source is wrapped with.
    pub chain: ChainParams,
    /// The gain the sink carries at this moment.
    pub volume: u32,
    /// Whether the engine's preload cache covers the path, so no disk read
    /// is needed.
    pub from_cache: bool,
}

/// The master gains and mute gates.
#[derive(Clone, Copy, Debug, PartialEq, Eq, Structural)]
pub struct Masters {
    pub music_volume: u32,
    pub master_volume: u32,
    pub ambient_master_volume: u32,
    pub is_muted: bool,
    pub is_master_muted: bool,
    pub is_ambient_muted: bool,
}

impl Masters {
    /// Every gain at most unity.
    pub open spec fn wf(self) -> bool {
        &&& self.music_volume <= 1000
        &&& self.master_volume <= 1000
        &&& self.ambient_master_volume <= 1000
    }
}

/// The music voice and its fade state.
#[derive(Debug)]
pub struct MusicCtl {
    /// The music sink, present while a track is loaded.
    pub sink: Option<SinkModel>,
    /// The track the voice is playing.
    pub current_track: Option<CurrentTrackInfo>,
    /// Milliseconds since the track started.
    pub track_elapsed_ms: u64,
    /// Full length of the track in milliseconds.
    pub track_duration_ms: u64,
    /// Crossfade length in milliseconds.
    pub crossfade_ms: u32,
    /// Whether the end-of-track fade-out has begun.
    pub fade_out_active: bool,
    /// The running fade-in, if one is.
    pub fade_in: Option<FadeIn>,
    /// Whether the previous tick saw the voice playing.
    pub was_playing: bool,
    /// A queued automatic advance to the next playlist track.
    pub pending_auto_advance: Option<PendingTrack>,
}

/// The file and track record of a queued automatic advance.
#[derive(Debug)]
pub struct PendingTrack {
    pub file_path: String,
    pub track_info: CurrentTrackInfo,
}

impl MusicCtl {
    /// Gains within range and positions below the model ceiling.
    pub open spec fn wf(self) -> bool {
        &&& match self.sink {
            Some(s) => s.volume <= 1000,
            None => true,
        }
        &&& self.track_elapsed_ms <= ELAPSED_CEILING_MS
        &&& match self.fade_in {
            Some(f) => f.elapsed_ms <= ELAPSED_CEILING_MS,
            None => true,
        }
        &&& self.track_duration_ms <= ELAPSED_CEILING_MS
    }
}

/// The soundboard voice and the ducking interpolator.
#[derive(Clone, Copy, Debug, PartialEq, Eq, Structural)]
pub struct DuckCtl {
    /// The soundboard sink, present while a clip plays.
    pub soundboard_sink: Option<SinkModel>,
    /// Whether a clip is playing, as exposed to the UI.
    pub soundboard_playing: bool,
    /// Configured attenuation depth, in thousandths.
    pub duck_amount: u32,
    /// Position of the gradual attenuation, in thousandths.
    pub duck_progress: u32,
    /// Where the attenuation is headed: zero or full scale.
    pub duck_target: u32,
}

impl DuckCtl {
    /// Depth and progress within one unit, target at an end.
    pub open spec fn wf(self) -> bool {
        &&& self.duck_amount <= 1000
        &&& self.duck_progress <= 1000
        &&& (self.duck_target == 0 || self.duck_target == 1000)
        &&& match self.soundboard_sink {
            Some(s) => s.volume <= 1000,
            None => true,
        }
    }
}

/// The ambient voices, their fade tables and the preload cache.
#[derive(Debug)]
pub struct AmbientCtl {
    /// The playing voices, keyed by id.
    pub voices: StrMap<AmbientState>,
    /// The published per-voice records, keyed by id.
    pub active: StrMap<ActiveAmbientInfo>,
    /// Paths whose bytes the caller holds in memory.
    pub cache: Vec<String>,
    /// User-cadence fade-ins, id to steps taken.
    pub fading_in: StrMap<u32>,
    /// User-cadence fade-outs, id to steps taken.
    pub fading_out: StrMap<u32>,
    /// User-cadence volume transitions, id to (current, target).
    pub transitions: StrMap<(u32, u32)>,
    /// Scheduler-cadence fade-ins.
    pub s_fading_in: StrMap<u32>,
    /// Scheduler-cadence fade-outs.
    pub s_fading_out: StrMap<u32>,
    /// Scheduler-cadence volume transitions.
    pub s_transitions: StrMap<(u32, u32)>,
}

/// Whether `paths` lists an entry viewing as `p`.
pub open spec fn path_listed(paths: Seq<String>, p: Seq<char>) -> bool {
    exists|i: int| 0 <= i < paths.len() && paths[i]@ == p
}

/// Whether the first `n` entries of `paths` list one viewing as `p`.
pub open spec fn path_prefix_listed(paths: Seq<String>, n: int, p: Seq<char>) -> bool {
    exists|k: int| 0 <= k < n && paths[k]@ == p
}

/// The cache holds exactly what it held before plus the first `n` newly
/// listed paths.
pub open spec fn cache_grown(
    cache: Seq<String>,
    pre_cache: Seq<String>,
    paths: Seq<String>,
    n: int,
) -> bool {
    forall|p: Seq<char>|
        path_listed(cache, p) == (path_listed(pre_cache, p) || path_prefix_listed(paths, n, p))
}

impl AmbientCtl {
    /// All tables well formed, every voice valid and inside its windows,
    /// and the published records keyed exactly as the voices: the two key
    /// sets agree at every stable point.
    pub open spec fn wf(self) -> bool {
        &&& self.voices.wf()
        &&& self.voices.len_spec() <= 1000000
        &&& self.active.wf()
        &&& self.fading_in.wf() && steps_bounded(self.fading_in)
        &&& self.fading_out.wf() && steps_bounded(self.fading_out)
        &&& self.s_fading_in.wf() && steps_bounded(self.s_fading_in)
        &&& self.s_fading_out.wf() && steps_bounded(self.s_fading_out)
        &&& self.transitions.wf()
        &&& self.s_transitions.wf()
        &&& forall|id: Seq<char>| self.voices.has(id) == self.active.has(id)
        &&& forall|id: Seq<char>|
            #[trigger] self.voices.has(id) ==> self.voices.value_of(id).settings.valid()
        &&& forall|id: Seq<char>|
            #[trigger] self.voices.has(id) ==> self.voices.value_of(id).sink.volume <= 1500
        &&& forall|id: Seq<char>|
            #[trigger] self.transitions.has(id) ==> self.transitions.value_of(id).0 <= 1500
                && self.transitions.value_of(id).1 <= 1500
        &&& forall|id: Seq<char>|
            #[trigger] self.s_transitions.has(id) ==> self.s_transitions.value_of(id).0 <= 1500
                && self.s_transitions.value_of(id).1 <= 1500
    }

    /// Whether the preload cache covers `p`.
    pub open spec fn cached(self, p: Seq<char>) -> bool {
        path_listed(self.cache@, p)
    }
}

/// The schedule runner's state and tick counter.
#[derive(Debug)]
pub struct SchedCtl {
    /// The shared scheduler record.
    pub state: SchedulerState,
    /// Ticks since the last scheduler second.
    pub tick_counter: u32,
    /// The item index whose preset was last loaded.
    pub last_item_index: Option<usize>,
    /// A preset id waiting to be read from disk.
    pub pending_preset: Option<String>,
}

impl SchedCtl {
    /// The counter inside a second; a playing schedule points at one of
    /// its items.
    pub open spec fn wf(self) -> bool {
        &&& self.tick_counter < SCHEDULER_TICKS_PER_SECOND
        &&& (self.state.is_playing && self.state.items@.len() > 0
            ==> self.state.current_item_index < self.state.items@.len())
        &&& (forall|k: int|
            0 <= k < self.state.items@.len() ==> (#[trigger] self.state.items@[k]).min_minutes
                <= 1000000 && self.state.items@[k].max_minutes <= 1000000)
        &&& self.state.time_remaining >= -1000000
    }
}

/// The playlist collaborator's shared state.
#[derive(Debug)]
pub struct CollabCtl {
    /// Shared playback position and flags.
    pub playlist_state: PlaylistState,
    /// Stored playlists, keyed by id.
    pub playlists: StrMap<MusicPlaylist>,
    /// Every known track.
    pub all_tracks: Vec<PlaylistTrack>,
}

impl CollabCtl {
    /// The playlist map is well formed and the position is in model range.
    pub open spec fn wf(self) -> bool {
        &&& self.playlists.wf()
        &&& -1 <= self.playlist_state.current_index <= 1000000
        &&& self.all_tracks@.len() <= 1000000
    }
}

/// The snapshot records the UI polls.
#[derive(Debug)]
pub struct Snapshots {
    /// Music progress.
    pub progress: AudioProgress,
    /// Visualization snapshot.
    pub playback: PlaybackState,
}

/// The engine's whole state.
#[derive(Debug)]
pub struct Engine {
    pub masters: Masters,
    pub music: MusicCtl,
    pub duck: DuckCtl,
    pub ambient: AmbientCtl,
    pub sched: SchedCtl,
    pub collab: CollabCtl,
    pub snap: Snapshots,
}

impl Engine {
    /// Every part of the engine is well formed.
    pub open spec fn wf(self) -> bool {
        &&& self.masters.wf()
        &&& self.music.wf()
        &&& self.duck.wf()
        &&& self.ambient.wf()
        &&& self.sched.wf()
        &&& self.collab.wf()
    }

    /// A fresh engine: unity masters, nothing playing, half-depth ducking
    /// configured, a three-second crossfade.
    pub fn new() -> (r: Engine)
        ensures
            r.wf(),
            r.masters == (Masters {
                music_volume: 1000u32,
                master_volume: 1000u32,
                ambient_master_volume: 1000u32,
                is_muted: false,
                is_master_muted: false,
                is_ambient_muted: false,
            }),
            r.music.sink is None,
            r.music.current_track is None,
            r.music.crossfade_ms == 3000,
            r.duck.duck_amount == 500,
            r.duck.duck_progress == 0,
            r.duck.duck_target == 0,
            r.ambient.voices.len_spec() == 0,
            r.ambient.active.len_spec() == 0,
            forall|id: Seq<char>| !r.ambient.fading_out.has(id),
            forall|id: Seq<char>| !r.ambient.fading_in.has(id),
            forall|p: Seq<char>| !r.ambient.cached(p),
            r.snap.progress == (AudioProgress {
                current_time_ms: 0u64,
                duration_ms: 0u64,
                is_playing: false,
                is_finished: true,
            }),
            !r.snap.playback.music_playing,
            r.snap.playback.music_volume == 0,
            r.snap.playback.ambient_count == 0,
            r.snap.playback.ambient_volume == 0,
            r.snap.playback.master_volume == 1000,
            !r.snap.playback.is_muted,
            r.snap.playback.frequencies@ == Seq::new(64nat, |i: int| 0u32),
            r.snap.playback.ambient_frequencies@ == Seq::new(64nat, |i: int| 0u32),
    {
        Engine {
            masters: Masters {
                music_volume: 1000,
                master_volume: 1000,
                ambient_master_volume: 1000,
                is_muted: false,
                is_master_muted: false,
                is_ambient_muted: false,
            },
            music: MusicCtl {
                sink: None,
                current_track: None,
                track_elapsed_ms: 0,
                track_duration_ms: 0,
                crossfade_ms: 3000,
                fade_out_active: false,
                fade_in: None,
                was_playing: false,
                pending_auto_advance: None,
            },
            duck: DuckCtl {
                soundboard_sink: None,
                soundboard_playing: false,
                duck_amount: 500,
                duck_progress: 0,
                duck_target: 0,
            },
            ambient: AmbientCtl {
                voices: StrMap::new(),
                active: StrMap::new(),
                cache: Vec::new(),
                fading_in: StrMap::new(),
                fading_out: StrMap::new(),
                transitions: StrMap::new(),
                s_fading_in: StrMap::new(),
                s_fading_out: StrMap::new(),
                s_transitions: StrMap::new(),
            },
            sched: SchedCtl {
                state: SchedulerState::default(),
                tick_counter: 0,
                last_item_index: None,
                pending_preset: None,
            },
            collab: CollabCtl {
                playlist_state: PlaylistState::default(),
                playlists: StrMap::new(),
                all_tracks: Vec::new(),
            },
            snap: Snapshots {
                progress: AudioProgress {
                    current_time_ms: 0,
                    duration_ms: 0,
                    is_playing: false,
                    is_finished: true,
                },
                playback: PlaybackState {
                    music_playing: false,
                    music_volume: 0,
                    ambient_count: 0,
                    ambient_volume: 0,
                    master_volume: 1000,
                    is_muted: false,
                    frequencies: fresh_zero_bins(),
                    ambient_frequencies: fresh_zero_bins(),
                },
            },
        }
    }
}

/// The sink with its gain replaced, when one is there.
pub open spec fn sink_with_volume(sink: Option<SinkModel>, g: int) -> Option<SinkModel> {
    match sink {
        Some(s) => Some(SinkModel { volume: g as u32, ..s }),
        None => None,
    }
}

/// The sink with its paused flag replaced, when one is there.
pub open spec fn sink_with_paused(sink: Option<SinkModel>, paused: bool) -> Option<SinkModel> {
    match sink {
        Some(s) => Some(SinkModel { paused, ..s }),
        None => None,
    }
}

/// What applying a music volume command does: the music master takes the
/// new value and a loaded sink immediately carries the recomputed music
/// gain. Nothing else moves.
pub open spec fn set_volume_spec(e: Engine, v: u32) -> Engine {
    Engine {
        masters: Masters { music_volume: v, ..e.masters },
        music: MusicCtl {
            sink: sink_with_volume(
                e.music.sink,
                music_gain(v, e.masters.master_volume, e.masters.is_muted, e.masters.is_master_muted),
            ),
            ..e.music
        },
        ..e
    }
}

/// What a pause command does: a loaded music sink is paused.
pub open spec fn pause_spec(e: Engine) -> Engine {
    Engine {
        music: MusicCtl { sink: sink_with_paused(e.music.sink, true), ..e.music },
        ..e
    }
}

/// What a resume command does: a loaded music sink plays again.
pub open spec fn resume_spec(e: Engine) -> Engine {
    Engine {
        music: MusicCtl { sink: sink_with_paused(e.music.sink, false), ..e.music },
        ..e
    }
}

/// Setting the music volume twice to the same value is the same as
/// setting it once: the final gain of every sink agrees.
pub proof fn lemma_set_volume_idempotent(e: Engine, v: u32)
    ensures
        set_volume_spec(set_volume_spec(e, v), v) == set_volume_spec(e, v),
{
}

/// A pause followed by a resume is exactly a resume, from any state: the
/// round trip only ever ends with the sink playing, and the modeled track
/// position never stops with the wall clock.
pub proof fn lemma_pause_resume_is_resume(e: Engine)
    ensures
        resume_spec(pause_spec(e)) == resume_spec(e),
{
}

/// A pause followed directly by a resume leaves the engine exactly as it
/// was when the sink was playing before the pause: the progression of
/// `current_time` matches doing nothing at all.
pub proof fn lemma_pause_resume_noop(e: Engine)
    requires
        match e.music.sink {
            Some(s) => !s.paused,
            None => true,
        },
    ensures
        resume_spec(pause_spec(e)) == e,
{
}

impl Engine {
    /// Start a track. When the caller decoded the file
    /// (`decoded_duration_ms` carries its length), any loaded sink is
    /// dropped, the fade-out flag resets, the new track record is
    /// published and a fresh sink starts it — from silence with a fade-in
    /// when a crossfade is configured, else straight at the music gain —
    /// and the progress snapshot restarts. When decoding failed, the
    /// command is a no-op: whatever was playing is left exactly as it
    /// was.
    pub fn on_play(
        &mut self,
        _file_path: String,
        track_info: CurrentTrackInfo,
        decoded_duration_ms: Option<u64>,
    )
        requires
            old(self).wf(),
            match decoded_duration_ms {
                Some(d) => d <= ELAPSED_CEILING_MS,
                None => true,
            },
        ensures
            final(self).wf(),
            final(self).masters == old(self).masters,
            final(self).duck == old(self).duck,
            final(self).ambient == old(self).ambient,
            final(self).sched == old(self).sched,
            final(self).collab == old(self).collab,
            decoded_duration_ms is None ==> *final(self) == *old(self),
            match decoded_duration_ms {
                Some(d) => {
                    &&& final(self).music.current_track == Some(track_info)
                    &&& !final(self).music.fade_out_active
                    &&& final(self).music.crossfade_ms == old(self).music.crossfade_ms
                    &&& final(self).music.pending_auto_advance == old(self).music.pending_auto_advance
                    &&& final(self).music.sink == Some(SinkModel {
                        volume: (if old(self).music.crossfade_ms > 0 {
                            0int
                        } else {
                            music_gain(
                                old(self).masters.music_volume,
                                old(self).masters.master_volume,
                                old(self).masters.is_muted,
                                old(self).masters.is_master_muted,
                            )
                        }) as u32,
                        paused: false,
                        empty: false,
                    })
                    &&& final(self).music.fade_in == (if old(self).music.crossfade_ms > 0 {
                        Some(FadeIn { elapsed_ms: 0u64, duration_ms: old(self).music.crossfade_ms as u64 })
                    } else {
                        old(self).music.fade_in
                    })
                    &&& final(self).music.track_elapsed_ms == 0
                    &&& final(self).music.track_duration_ms == d
                    &&& final(self).snap.progress == (AudioProgress {
                        current_time_ms: 0u64,
                        duration_ms: d,
                        is_playing: true,
                        is_finished: false,
                    })
                },
                None => true,
            },
    {
        match decoded_duration_ms {
            Some(d) => {
                self.music.sink = None;
                self.music.fade_out_active = false;
                self.music.current_track = Some(track_info);
                let start_vol: u32 = if self.music.crossfade_ms > 0 {
                    self.music.fade_in = Some(FadeIn {
                        elapsed_ms: 0,
                        duration_ms: self.music.crossfade_ms as u64,
                    });
                    0
                } else {
                    music_gain_exec(
                        self.masters.music_volume,
                        self.masters.master_volume,
                        self.masters.is_muted,
                        self.masters.is_master_muted,
                    )
                };
                self.music.sink = Some(SinkModel { volume: start_vol, paused: false, empty: false });
                self.music.track_elapsed_ms = 0;
                self.music.track_duration_ms = d;
                self.snap.progress = AudioProgress {
                    current_time_ms: 0,
                    duration_ms: d,
                    is_playing: true,
                    is_finished: false,
                };
            },
            None => {},
        }
    }

    /// Stop the music voice: the sink is dropped, the track record is
    /// cleared, and the progress snapshot reads finished.
    pub fn on_stop(&mut self)
        requires
            old(self).wf(),
        ensures
            final(self).wf(),
            final(self).masters == old(self).masters,
            final(self).duck == old(self).duck,
            final(self).ambient == old(self).ambient,
            final(self).sched == old(self).sched,
            final(self).collab == old(self).collab,
            final(self).music.sink is None,
            final(self).music.current_track is None,
            !final(self).snap.progress.is_playing,
            final(self).snap.progress.is_finished,
            final(self).snap.playback == old(self).snap.playback,
    {
        self.music.sink = None;
        self.music.current_track = None;
        self.snap.progress = AudioProgress {
            current_time_ms: self.snap.progress.current_time_ms,
            duration_ms: self.snap.progress.duration_ms,
            is_playing: false,
            is_finished: true,
        };
    }

    /// Pause the music voice.
    pub fn on_pause(&mut self)
        requires
            old(self).wf(),
        ensures
            final(self).wf(),
            *final(self) == pause_spec(*old(self)),
    {
        match &mut self.music.sink {
            Some(s) => {
                s.pause();
            },
            None => {},
        }
    }

    /// Resume the music voice.
    pub fn on_resume(&mut self)
        requires
            old(self).wf(),
        ensures
            final(self).wf(),
            *final(self) == resume_spec(*old(self)),
    {
        match &mut self.music.sink {
            Some(s) => {
                s.play();
            },
            None => {},
        }
    }

    /// Seek within the loaded track. The caller reopened the file
    /// (`decoded_duration_ms` carries its length on success); the track
    /// restarts at the requested position, clamped to the track's length,
    /// at the plain music gain with no fade. Without a loaded track the
    /// command does nothing; on a failed decode the sink is gone.
    pub fn on_seek(&mut self, position_ms: u64, decoded_duration_ms: Option<u64>)
        requires
            old(self).wf(),
            match decoded_duration_ms {
                Some(d) => d <= ELAPSED_CEILING_MS,
                None => true,
            },
        ensures
            final(self).wf(),
            final(self).masters == old(self).masters,
            final(self).duck == old(self).duck,
            final(self).ambient == old(self).ambient,
            final(self).sched == old(self).sched,
            final(self).collab == old(self).collab,
            old(self).music.current_track is None ==> *final(self) == *old(self),
            old(self).music.current_track is Some ==> {
                &&& final(self).music.current_track == old(self).music.current_track
                &&& match decoded_duration_ms {
                    Some(d) => {
                        &&& final(self).music.sink == Some(SinkModel {
                            volume: music_gain(
                                old(self).masters.music_volume,
                                old(self).masters.master_volume,
                                old(self).masters.is_muted,
                                old(self).masters.is_master_muted,
                            ) as u32,
                            paused: false,
                            empty: false,
                        })
                        &&& final(self).music.track_duration_ms == d
                        &&& final(self).music.track_elapsed_ms == (if position_ms <= d {
                            position_ms
                        } else {
                            d
                        })
                        &&& final(self).snap.progress == (AudioProgress {
                            current_time_ms: final(self).music.track_elapsed_ms,
                            duration_ms: d,
                            is_playing: true,
                            is_finished: false,
                        })
                    },
                    None => {
                        &&& final(self).music.sink is None
                        &&& final(self).snap.progress == old(self).snap.progress
                    },
                }
            },
    {
        if self.music.current_track.is_some() {
            self.music.sink = None;
            match decoded_duration_ms {
                Some(d) => {
                    let pos = if position_ms <= d {
                        position_ms
                    } else {
                        d
                    };
                    let g = music_gain_exec(
                        self.masters.music_volume,
                        self.masters.master_volume,
                        self.masters.is_muted,
                        self.masters.is_master_muted,
                    );
                    self.music.sink = Some(SinkModel { volume: g, paused: false, empty: false });
                    self.music.track_elapsed_ms = pos;
                    self.music.track_duration_ms = d;
                    self.snap.progress = AudioProgress {
                        current_time_ms: pos,
                        duration_ms: d,
                        is_playing: true,
                        is_finished: false,
                    };
                },
                None => {},
            }
        }
    }

    /// Set the music layer's volume; a loaded sink carries the recomputed
    /// gain at once.
    pub fn on_set_volume(&mut self, volume: u32)
        requires
            old(self).wf(),
            volume <= 1000,
        ensures
            final(self).wf(),
            *final(self) == set_volume_spec(*old(self), volume),
    {
        self.masters.music_volume = volume;
        let g = music_gain_exec(
            self.masters.music_volume,
            self.masters.master_volume,
            self.masters.is_muted,
            self.masters.is_master_muted,
        );
        match &mut self.music.sink {
            Some(s) => {
                s.set_volume(g);
            },
            None => {},
        }
    }

    /// Set the global master volume; a loaded music sink carries the
    /// recomputed gain at once.
    pub fn on_set_master_volume(&mut self, volume: u32)
        requires
            old(self).wf(),
            volume <= 1000,
        ensures
            final(self).wf(),
            final(self).masters == (Masters { master_volume: volume, ..old(self).masters }),
            final(self).music.sink == sink_with_volume(
                old(self).music.sink,
                music_gain(
                    old(self).masters.music_volume,
                    volume,
                    old(self).masters.is_muted,
                    old(self).masters.is_master_muted,
                ),
            ),
            final(self).music.current_track == old(self).music.current_track,
            final(self).music.fade_in == old(self).music.fade_in,
            final(self).duck == old(self).duck,
            final(self).ambient == old(self).ambient,
            final(self).sched == old(self).sched,
            final(self).collab == old(self).collab,
            final(self).snap.progress == old(self).snap.progress,
    {
        self.masters.master_volume = volume;
        let g = music_gain_exec(
            self.masters.music_volume,
            self.masters.master_volume,
            self.masters.is_muted,
            self.masters.is_master_muted,
        );
        match &mut self.music.sink {
            Some(s) => {
                s.set_volume(g);
            },
            None => {},
        }
    }

    /// Mute or unmute the music layer; a loaded sink carries the
    /// recomputed gain at once.
    pub fn on_set_muted(&mut self, muted: bool)
        requires
            old(self).wf(),
        ensures
            final(self).wf(),
            final(self).masters == (Masters { is_muted: muted, ..old(self).masters }),
            final(self).music.sink == sink_with_volume(
                old(self).music.sink,
                music_gain(
                    old(self).masters.music_volume,
                    old(self).masters.master_volume,
                    muted,
                    old(self).masters.is_master_muted,
                ),
            ),
            final(self).music.current_track == old(self).music.current_track,
            final(self).duck == old(self).duck,
            final(self).ambient == old(self).ambient,
            final(self).sched == old(self).sched,
            final(self).collab == old(self).collab,
            final(self).snap.progress == old(self).snap.progress,
    {
        self.masters.is_muted = muted;
        let g = music_gain_exec(
            self.masters.music_volume,
            self.masters.master_volume,
            self.masters.is_muted,
            self.masters.is_master_muted,
        );
        match &mut self.music.sink {
            Some(s) => {
                s.set_volume(g);
            },
            None => {},
        }
    }

    /// Mute or unmute everything; a loaded music sink carries the
    /// recomputed gain at once.
    pub fn on_set_master_muted(&mut self, muted: bool)
        requires
            old(self).wf(),
        ensures
            final(self).wf(),
            final(self).masters == (Masters { is_master_muted: muted, ..old(self).masters }),
            final(self).music.sink == sink_with_volume(
                old(self).music.sink,
                music_gain(
                    old(self).masters.music_volume,
                    old(self).masters.master_volume,
                    old(self).masters.is_muted,
                    muted,
                ),
            ),
            final(self).music.current_track == old(self).music.current_track,
            final(self).duck == old(self).duck,
            final(self).ambient == old(self).ambient,
            final(self).sched == old(self).sched,
            final(self).collab == old(self).collab,
            final(self).snap.progress == old(self).snap.progress,
    {
        self.masters.is_master_muted = muted;
        let g = music_gain_exec(
            self.masters.music_volume,
            self.masters.master_volume,
            self.masters.is_muted,
            self.masters.is_master_muted,
        );
        match &mut self.music.sink {
            Some(s) => {
                s.set_volume(g);
            },
            None => {},
        }
    }

    /// Set the crossfade length.
    pub fn on_set_crossfade_duration(&mut self, ms: u32)
        requires
            old(self).wf(),
        ensures
            final(self).wf(),
            final(self).music.crossfade_ms == ms,
            final(self).music.sink == old(self).music.sink,
            final(self).masters == old(self).masters,
            final(self).duck == old(self).duck,
            final(self).ambient == old(self).ambient,
            final(self).sched == old(self).sched,
            final(self).collab == old(self).collab,
    {
        self.music.crossfade_ms = ms;
    }

    /// Start a soundboard clip: any playing clip is dropped and ducking
    /// heads for full depth before the file is even opened. When the
    /// caller decoded the clip, a sink plays it at the clip volume under
    /// the master gain, gated only by the master mute.
    pub fn on_play_soundboard(&mut self, volume: u32, opened: bool)
        requires
            old(self).wf(),
            volume <= 1000,
        ensures
            final(self).wf(),
            final(self).masters == old(self).masters,
            final(self).music == old(self).music,
            final(self).ambient == old(self).ambient,
            final(self).sched == old(self).sched,
            final(self).collab == old(self).collab,
            final(self).snap.progress == old(self).snap.progress,
            final(self).duck.duck_target == 1000,
            final(self).duck.duck_amount == old(self).duck.duck_amount,
            final(self).duck.duck_progress == old(self).duck.duck_progress,
            opened ==> final(self).duck.soundboard_sink == Some(SinkModel {
                volume: (if old(self).masters.is_master_muted {
                    0int
                } else {
                    milli_mul(volume, old(self).masters.master_volume)
                }) as u32,
                paused: false,
                empty: false,
            }) && final(self).duck.soundboard_playing,
            !opened ==> final(self).duck.soundboard_sink is None
                && final(self).duck.soundboard_playing == old(self).duck.soundboard_playing,
    {
        self.duck.soundboard_sink = None;
        self.duck.duck_target = 1000;
        if opened {
            let g: u32 = if self.masters.is_master_muted {
                0
            } else {
                proof {
                    crate::gain::lemma_milli_mul_bound(volume, self.masters.master_volume);
                }
                mul_milli(volume, self.masters.master_volume)
            };
            self.duck.soundboard_sink = Some(SinkModel { volume: g, paused: false, empty: false });
            self.duck.soundboard_playing = true;
        }
    }

    /// Stop the soundboard clip and let the ducking release.
    pub fn on_stop_soundboard(&mut self)
        requires
            old(self).wf(),
        ensures
            final(self).wf(),
            final(self).masters == old(self).masters,
            final(self).music == old(self).music,
            final(self).ambient == old(self).ambient,
            final(self).sched == old(self).sched,
            final(self).collab == old(self).collab,
            final(self).duck.soundboard_sink is None,
            !final(self).duck.soundboard_playing,
            final(self).duck.duck_target == 0,
            final(self).duck.duck_amount == old(self).duck.duck_amount,
            final(self).duck.duck_progress == old(self).duck.duck_progress,
    {
        self.duck.soundboard_sink = None;
        self.duck.duck_target = 0;
        self.duck.soundboard_playing = false;
    }

    /// Configure the ducking depth.
    pub fn on_set_duck_amount(&mut self, amount: u32)
        requires
            old(self).wf(),
            amount <= 1000,
        ensures
            final(self).wf(),
            final(self).duck == (DuckCtl { duck_amount: amount, ..old(self).duck }),
            final(self).masters == old(self).masters,
            final(self).music == old(self).music,
            final(self).ambient == old(self).ambient,
            final(self).sched == old(self).sched,
            final(self).collab == old(self).collab,
    {
        self.duck.duck_amount = amount;
    }
}

/// Difference between two gains, as a magnitude.
pub open spec fn abs_diff_u32(a: u32, b: u32) -> int {
    if a >= b {
        a - b
    } else {
        b - a
    }
}

/// Difference between two balances, as a magnitude.
pub open spec fn abs_diff_i32(a: i32, b: i32) -> int {
    if a >= b {
        a - b
    } else {
        b - a
    }
}

/// Whether moving from settings `a` to settings `b` forces the voice's
/// chain to be rebuilt: the rate, balance, cutoff or reverb moved past
/// its threshold, or the reverb preset name changed. Filter state is tied
/// to chain construction, so only these fields force a rebuild; a volume
/// move never does.
pub open spec fn settings_need_rebuild(a: AmbientSettings, b: AmbientSettings) -> bool {
    ||| abs_diff_u32(a.pitch, b.pitch) > 1
    ||| abs_diff_i32(a.pan, b.pan) > 1
    ||| abs_diff_u32(a.low_pass_freq, b.low_pass_freq) > 1
    ||| abs_diff_u32(a.algorithmic_reverb, b.algorithmic_reverb) > 1
    ||| a.reverb_type@ !== b.reverb_type@
}

/// The sink gain `vol` is one the voice can legitimately carry under the
/// given masters and ducking state: the exact gain product for some
/// variation multiplier of the voice's configured spread.
pub open spec fn ambient_gain_matches(
    st: AmbientState,
    m: Masters,
    duck_progress: u32,
    duck_amount: u32,
    vol: u32,
) -> bool {
    exists|var: u32|
        #[trigger] variation_window(st.settings.volume_variation, var) && vol == ambient_gain(
            st.settings.volume,
            m.ambient_master_volume,
            m.master_volume,
            m.is_ambient_muted,
            m.is_master_muted,
            duck_progress,
            duck_amount,
            var,
        )
}

impl Engine {
    /// Recompute and apply every ambient voice's sink gain from the
    /// current masters and ducking state. Each voice keeps all its state
    /// but its sink gain, which afterwards matches the gain product for
    /// some drawn variation — exactly the base gain wherever no variation
    /// is configured.
    pub fn refresh_ambient_gains(&mut self)
        requires
            old(self).wf(),
        ensures
            final(self).wf(),
            final(self).masters == old(self).masters,
            final(self).music == old(self).music,
            final(self).duck == old(self).duck,
            final(self).sched == old(self).sched,
            final(self).collab == old(self).collab,
            final(self).snap.progress == old(self).snap.progress,
            final(self).ambient.active == old(self).ambient.active,
            final(self).ambient.cache == old(self).ambient.cache,
            final(self).ambient.fading_in == old(self).ambient.fading_in,
            final(self).ambient.fading_out == old(self).ambient.fading_out,
            final(self).ambient.transitions == old(self).ambient.transitions,
            final(self).ambient.s_fading_in == old(self).ambient.s_fading_in,
            final(self).ambient.s_fading_out == old(self).ambient.s_fading_out,
            final(self).ambient.s_transitions == old(self).ambient.s_transitions,
            final(self).ambient.voices.keys_view() == old(self).ambient.voices.keys_view(),
            forall|id: Seq<char>|
                final(self).ambient.voices.has(id) == old(self).ambient.voices.has(id),
            forall|id: Seq<char>|
                #[trigger] final(self).ambient.voices.has(id) ==> {
                    let pre = old(self).ambient.voices.value_of(id);
                    let post = final(self).ambient.voices.value_of(id);
                    &&& post == (AmbientState {
                        sink: SinkModel { volume: post.sink.volume, ..pre.sink },
                        ..pre
                    })
                    &&& ambient_gain_matches(
                        pre,
                        old(self).masters,
                        old(self).duck.duck_progress,
                        old(self).duck.duck_amount,
                        post.sink.volume,
                    )
                    &&& pre.settings.volume_variation == 0 ==> post.sink.volume
                        == ambient_base_gain(
                        pre.settings.volume,
                        old(self).masters.ambient_master_volume,
                        old(self).masters.master_volume,
                        old(self).masters.is_ambient_muted,
                        old(self).masters.is_master_muted,
                        old(self).duck.duck_progress,
                        old(self).duck.duck_amount,
                    )
                },
    {
        let ghost pre = *self;
        let n = self.ambient.voices.len();
        let mut i: usize = 0;
        while i < n
            invariant
                self.wf(),
                pre.wf(),
                self.masters == pre.masters,
                self.music == pre.music,
                self.duck == pre.duck,
                self.sched == pre.sched,
                self.collab == pre.collab,
                self.snap.progress == pre.snap.progress,
                self.ambient.active == pre.ambient.active,
                self.ambient.cache == pre.ambient.cache,
                self.ambient.fading_in == pre.ambient.fading_in,
                self.ambient.fading_out == pre.ambient.fading_out,
                self.ambient.transitions == pre.ambient.transitions,
                self.ambient.s_fading_in == pre.ambient.s_fading_in,
                self.ambient.s_fading_out == pre.ambient.s_fading_out,
                self.ambient.s_transitions == pre.ambient.s_transitions,
                self.ambient.voices.keys_view() == pre.ambient.voices.keys_view(),
                n == self.ambient.voices.len_spec(),
                i <= n,
                forall|k: int|
                    i <= k < n ==> self.ambient.voices.vals_view()[k]
                        == pre.ambient.voices.vals_view()[k],
                forall|k: int|
                    0 <= k < i ==> {
                        let prev = pre.ambient.voices.vals_view()[k];
                        let post = #[trigger] self.ambient.voices.vals_view()[k];
                        &&& post == (AmbientState {
                            sink: SinkModel { volume: post.sink.volume, ..prev.sink },
                            ..prev
                        })
                        &&& ambient_gain_matches(
                            prev,
                            pre.masters,
                            pre.duck.duck_progress,
                            pre.duck.duck_amount,
                            post.sink.volume,
                        )
                        &&& prev.settings.volume_variation == 0 ==> post.sink.volume
                            == ambient_base_gain(
                            prev.settings.volume,
                            pre.masters.ambient_master_volume,
                            pre.masters.master_volume,
                            pre.masters.is_ambient_muted,
                            pre.masters.is_master_muted,
                            pre.duck.duck_progress,
                            pre.duck.duck_amount,
                        )
                    },
            decreases n - i,
        {
            proof {
                self.ambient.voices.lemma_at(i as int);
            }
            let vol: u32;
            {
                let st = self.ambient.voices.val_at(i);
                vol = calc_ambient_volume(
                    &st.settings,
                    self.masters.ambient_master_volume,
                    self.masters.master_volume,
                    self.masters.is_ambient_muted,
                    self.masters.is_master_muted,
                    self.duck.duck_progress,
                    self.duck.duck_amount,
                );
            }
            let ghost mid = *self;
            let st = self.ambient.voices.val_at_mut(i);
            st.sink.set_volume(vol);
            proof {
                let ii = i as int;
                assert(self.ambient.voices.vals_view()[ii] == (AmbientState {
                    sink: SinkModel {
                        volume: vol,
                        ..pre.ambient.voices.vals_view()[ii].sink
                    },
                    ..pre.ambient.voices.vals_view()[ii]
                }));
                assert forall|k: int| 0 <= k < n && k != ii implies self.ambient.voices.vals_view()[
                    k
                ] == mid.ambient.voices.vals_view()[k] by {}
                assert forall|id: Seq<char>| #[trigger] self.ambient.voices.has(id) implies {
                    &&& self.ambient.voices.value_of(id).settings.valid()
                    &&& self.ambient.voices.value_of(id).sink.volume <= 1500
                } by {
                    let k = self.ambient.voices.index_of(id);
                    self.ambient.voices.lemma_at(k);
                    if k == ii {
                        pre.ambient.voices.lemma_at(k);
                        assert(pre.ambient.voices.has(id));
                        assert(pre.ambient.voices.value_of(id)
                            == pre.ambient.voices.vals_view()[k]);
                    } else {
                        mid.ambient.voices.lemma_at(k);
                        assert(mid.ambient.voices.has(id));
                        assert(mid.ambient.voices.value_of(id)
                            == mid.ambient.voices.vals_view()[k]);
                    }
                }
            }
            i += 1;
        }
        proof {
            assert forall|id: Seq<char>|
                #[trigger] self.ambient.voices.has(id) implies {
                let prev = pre.ambient.voices.value_of(id);
                let post = self.ambient.voices.value_of(id);
                &&& post == (AmbientState {
                    sink: SinkModel { volume: post.sink.volume, ..prev.sink },
                    ..prev
                })
                &&& ambient_gain_matches(
                    prev,
                    pre.masters,
                    pre.duck.duck_progress,
                    pre.duck.duck_amount,
                    post.sink.volume,
                )
                &&& prev.settings.volume_variation == 0 ==> post.sink.volume
                    == ambient_base_gain(
                    prev.settings.volume,
                    pre.masters.ambient_master_volume,
                    pre.masters.master_volume,
                    pre.masters.is_ambient_muted,
                    pre.masters.is_master_muted,
                    pre.duck.duck_progress,
                    pre.duck.duck_amount,
                )
            } by {
                let k = self.ambient.voices.index_of(id);
                self.ambient.voices.lemma_at(k);
                pre.ambient.voices.lemma_at(k);
            }
        }
    }

    /// Apply new settings to a playing ambient voice. When the rate,
    /// balance, cutoff, reverb mix or reverb preset moved past its
    /// threshold, the chain must be rebuilt: the sink restarts silent of
    /// sources at the recomputed gain, any in-flight volume transition for
    /// the id — at either cadence — is discarded, and the caller receives
    /// a request to decode the current phase's file wrapped in the new
    /// chain. When only the volume side changed, the sink is untouched and
    /// a smooth volume transition toward the recomputed gain is recorded
    /// instead, at the user or scheduler cadence. An id not playing
    /// changes nothing.
    #[verifier::rlimit(100)]
    #[verifier::spinoff_prover]
    pub fn on_update_ambient_settings(
        &mut self,
        id: &String,
        settings: AmbientSettings,
        scheduler: bool,
    ) -> (req: Option<EnqueueRequest>)
        requires
            old(self).wf(),
            settings.valid(),
        ensures
            final(self).wf(),
            final(self).masters == old(self).masters,
            final(self).music == old(self).music,
            final(self).duck == old(self).duck,
            final(self).sched == old(self).sched,
            final(self).collab == old(self).collab,
            final(self).snap.progress == old(self).snap.progress,
            final(self).ambient.cache == old(self).ambient.cache,
            final(self).ambient.fading_in == old(self).ambient.fading_in,
            final(self).ambient.fading_out == old(self).ambient.fading_out,
            final(self).ambient.s_fading_in == old(self).ambient.s_fading_in,
            final(self).ambient.s_fading_out == old(self).ambient.s_fading_out,
            !old(self).ambient.voices.has(id@) ==> *final(self) == *old(self) && req is None,
            old(self).ambient.voices.has(id@) ==> final(self).ambient.voices.has(id@),
            old(self).ambient.voices.has(id@) ==> (forall|other: Seq<char>|
                other !== id@ ==> final(self).ambient.voices.has(other)
                    == old(self).ambient.voices.has(other)),
            old(self).ambient.voices.has(id@) ==> (forall|other: Seq<char>|
                other !== id@ && old(self).ambient.voices.has(other)
                    ==> final(self).ambient.voices.value_of(other)
                    == old(self).ambient.voices.value_of(other)),
            old(self).ambient.voices.has(id@) ==> {
                let pre_v = old(self).ambient.voices.value_of(id@);
                let post_v = final(self).ambient.voices.value_of(id@);
                &&& post_v.settings == settings
                &&& post_v.is_playing_a == pre_v.is_playing_a
                &&& post_v.loops_remaining == pre_v.loops_remaining
                &&& post_v.is_paused == pre_v.is_paused
                &&& post_v.file_a == pre_v.file_a
                &&& post_v.file_b == pre_v.file_b
            },
            old(self).ambient.voices.has(id@) && settings_need_rebuild(
                old(self).ambient.voices.value_of(id@).settings,
                settings,
            ) ==> match req {
                Some(r) => {
                    let pre_v = old(self).ambient.voices.value_of(id@);
                    &&& r.id@ == id@
                    &&& r.chain == chain_of(settings)
                    &&& r.path@ == (if pre_v.is_playing_a {
                        pre_v.file_a@
                    } else {
                        pre_v.file_b@
                    })
                    &&& r.from_cache == old(self).ambient.cached(r.path@)
                    &&& final(self).ambient.voices.value_of(id@).sink == (SinkModel {
                        volume: r.volume,
                        paused: false,
                        empty: false,
                    })
                    &&& ambient_gain_matches(
                        final(self).ambient.voices.value_of(id@),
                        old(self).masters,
                        old(self).duck.duck_progress,
                        old(self).duck.duck_amount,
                        r.volume,
                    )
                    &&& !final(self).ambient.transitions.has(id@)
                    &&& !final(self).ambient.s_transitions.has(id@)
                    &&& (forall|other: Seq<char>|
                        other !== id@ ==> final(self).ambient.transitions.has(other) == old(self).ambient.transitions.has(other) && final(self).ambient.s_transitions.has(other) == old(self).ambient.s_transitions.has(other))
                    &&& (forall|other: Seq<char>|
                        other !== id@ && old(self).ambient.transitions.has(other) ==> final(self).ambient.transitions.value_of(other) == old(self).ambient.transitions.value_of(other))
                    &&& (forall|other: Seq<char>|
                        other !== id@ && old(self).ambient.s_transitions.has(other) ==> final(self).ambient.s_transitions.value_of(other) == old(self).ambient.s_transitions.value_of(other))
                },
                None => false,
            },
            old(self).ambient.voices.has(id@) && !settings_need_rebuild(
                old(self).ambient.voices.value_of(id@).settings,
                settings,
            ) ==> {
                &&& req is None
                &&& final(self).ambient.voices.value_of(id@).sink
                    == old(self).ambient.voices.value_of(id@).sink
                &&& (scheduler ==> final(self).ambient.transitions
                    == old(self).ambient.transitions)
                &&& (!scheduler ==> final(self).ambient.s_transitions
                    == old(self).ambient.s_transitions)
            },
            old(self).ambient.voices.has(id@) && !settings_need_rebuild(
                old(self).ambient.voices.value_of(id@).settings,
                settings,
            ) ==> {
                let table = if scheduler {
                    final(self).ambient.s_transitions
                } else {
                    final(self).ambient.transitions
                };
                let pre_table = if scheduler {
                    old(self).ambient.s_transitions
                } else {
                    old(self).ambient.transitions
                };
                &&& table.has(id@)
                &&& table.value_of(id@).0 == (if pre_table.has(id@) {
                    pre_table.value_of(id@).0
                } else {
                    old(self).ambient.voices.value_of(id@).sink.volume
                })
                &&& ambient_gain_matches(
                    final(self).ambient.voices.value_of(id@),
                    old(self).masters,
                    old(self).duck.duck_progress,
                    old(self).duck.duck_amount,
                    table.value_of(id@).1,
                )
                &&& settings.volume_variation == 0 ==> table.value_of(id@).1
                    == ambient_base_gain(
                    settings.volume,
                    old(self).masters.ambient_master_volume,
                    old(self).masters.master_volume,
                    old(self).masters.is_ambient_muted,
                    old(self).masters.is_master_muted,
                    old(self).duck.duck_progress,
                    old(self).duck.duck_amount,
                )
            },
    {
        let ghost pre = *self;
        let found = self.ambient.voices.find(id);
        match found {
            None => None,
            Some(ix) => {
                let rebuild: bool;
                {
                    let v = self.ambient.voices.val_at(ix);
                    rebuild = settings_changed(&v.settings, &settings);
                }
                match self.ambient.active.find(id) {
                    Some(jx) => {
                        let ghost active0 = self.ambient.active;
                        let info = self.ambient.active.val_at_mut(jx);
                        info.settings = settings.duplicate();
                        proof {
                            StrMap::<ActiveAmbientInfo>::lemma_update_at(
                                active0,
                                self.ambient.active,
                                jx as int,
                                self.ambient.active.vals_view()[jx as int],
                            );
                        }
                    },
                    None => {},
                }
                let vol = calc_ambient_volume(
                    &settings,
                    self.masters.ambient_master_volume,
                    self.masters.master_volume,
                    self.masters.is_ambient_muted,
                    self.masters.is_master_muted,
                    self.duck.duck_progress,
                    self.duck.duck_amount,
                );
                if rebuild {
                    self.ambient.transitions.remove(id);
                    self.ambient.s_transitions.remove(id);
                    let ghost voices0 = self.ambient.voices;
                    let path: String;
                    {
                        let v = self.ambient.voices.val_at_mut(ix);
                        v.settings = settings;
                        v.sink = SinkModel { volume: vol, paused: false, empty: false };
                        path = if v.is_playing_a {
                            v.file_a.clone()
                        } else {
                            v.file_b.clone()
                        };
                    }
                    proof {
                        StrMap::<AmbientState>::lemma_update_at(
                            voices0,
                            self.ambient.voices,
                            ix as int,
                            self.ambient.voices.vals_view()[ix as int],
                        );
                        assert(self.ambient.voices.value_of(id@)
                            == self.ambient.voices.vals_view()[ix as int]);
                    }
                    let chain: ChainParams;
                    {
                        let v = self.ambient.voices.val_at(ix);
                        chain = ChainParams::from_settings(&v.settings);
                    }
                    let from_cache = path_in_cache(&self.ambient.cache, &path);
                    Some(EnqueueRequest { id: id.clone(), path, chain, volume: vol, from_cache })
                } else {
                    let current: u32;
                    {
                        let prior = if scheduler {
                            self.ambient.s_transitions.get(id)
                        } else {
                            self.ambient.transitions.get(id)
                        };
                        match prior {
                            Some(t) => {
                                current = t.0;
                            },
                            None => {
                                let v = self.ambient.voices.val_at(ix);
                                current = v.sink.volume;
                            },
                        }
                    }
                    if scheduler {
                        self.ambient.s_transitions.set(id, (current, vol));
                    } else {
                        self.ambient.transitions.set(id, (current, vol));
                    }
                    let ghost voices0 = self.ambient.voices;
                    {
                        let v = self.ambient.voices.val_at_mut(ix);
                        v.settings = settings;
                    }
                    proof {
                        StrMap::<AmbientState>::lemma_update_at(
                            voices0,
                            self.ambient.voices,
                            ix as int,
                            self.ambient.voices.vals_view()[ix as int],
                        );
                        assert(self.ambient.voices.value_of(id@)
                            == self.ambient.voices.vals_view()[ix as int]);
                        let tbl = if scheduler {
                            self.ambient.s_transitions
                        } else {
                            self.ambient.transitions
                        };
                        assert(tbl.has(id@));
                        assert(tbl.value_of(id@) == (current, vol));
                        assert(self.ambient.voices.value_of(id@).settings == settings);
                        assert(ambient_gain_matches(
                            self.ambient.voices.value_of(id@),
                            pre.masters,
                            pre.duck.duck_progress,
                            pre.duck.duck_amount,
                            vol,
                        )) by {
                            let var = choose|var: u32|
                                variation_window(settings.volume_variation, var) && vol
                                    == ambient_gain(
                                    settings.volume,
                                    pre.masters.ambient_master_volume,
                                    pre.masters.master_volume,
                                    pre.masters.is_ambient_muted,
                                    pre.masters.is_master_muted,
                                    pre.duck.duck_progress,
                                    pre.duck.duck_amount,
                                    var,
                                );
                            assert(variation_window(
                                self.ambient.voices.value_of(id@).settings.volume_variation,
                                var,
                            ));
                        }
                    }
                    None
                }
            },
        }
    }
}

impl Engine {
    /// Set the ambient layer's master volume; every voice's sink carries
    /// its recomputed gain at once.
    pub fn on_set_ambient_master_volume(&mut self, volume: u32)
        requires
            old(self).wf(),
            volume <= 1000,
        ensures
            final(self).wf(),
            final(self).masters == (Masters {
                ambient_master_volume: volume,
                ..old(self).masters
            }),
            final(self).music == old(self).music,
            final(self).duck == old(self).duck,
            final(self).sched == old(self).sched,
            final(self).collab == old(self).collab,
            final(self).ambient.active == old(self).ambient.active,
            forall|id: Seq<char>|
                final(self).ambient.voices.has(id) == old(self).ambient.voices.has(id),
            forall|id: Seq<char>|
                #[trigger] final(self).ambient.voices.has(id)
                    && old(self).ambient.voices.value_of(id).settings.volume_variation == 0
                    ==> final(self).ambient.voices.value_of(id).sink.volume
                    == ambient_base_gain(
                    old(self).ambient.voices.value_of(id).settings.volume,
                    volume,
                    old(self).masters.master_volume,
                    old(self).masters.is_ambient_muted,
                    old(self).masters.is_master_muted,
                    old(self).duck.duck_progress,
                    old(self).duck.duck_amount,
                ),
    {
        self.masters.ambient_master_volume = volume;
        self.refresh_ambient_gains();
    }

    /// Mute or unmute the ambient layer; every voice's sink carries its
    /// recomputed gain at once — zero while muted.
    pub fn on_set_ambient_muted(&mut self, muted: bool)
        requires
            old(self).wf(),
        ensures
            final(self).wf(),
            final(self).masters == (Masters { is_ambient_muted: muted, ..old(self).masters }),
            final(self).music == old(self).music,
            final(self).duck == old(self).duck,
            final(self).sched == old(self).sched,
            final(self).collab == old(self).collab,
            final(self).ambient.active == old(self).ambient.active,
            forall|id: Seq<char>|
                final(self).ambient.voices.has(id) == old(self).ambient.voices.has(id),
            muted ==> forall|id: Seq<char>|
                #[trigger] final(self).ambient.voices.has(id)
                    ==> final(self).ambient.voices.value_of(id).sink.volume == 0,
    {
        self.masters.is_ambient_muted = muted;
        self.refresh_ambient_gains();
        proof {
            if muted {
                assert forall|id: Seq<char>|
                    #[trigger] self.ambient.voices.has(id) implies self.ambient.voices.value_of(
                    id,
                ).sink.volume == 0 by {
                    let prev = old(self).ambient.voices.value_of(id);
                    let post = self.ambient.voices.value_of(id);
                    assert(ambient_gain_matches(
                        prev,
                        Masters { is_ambient_muted: true, ..old(self).masters },
                        old(self).duck.duck_progress,
                        old(self).duck.duck_amount,
                        post.sink.volume,
                    ));
                }
            }
        }
    }

    /// Remember that the caller holds these files' bytes in memory: every
    /// listed path joins the preload cache, once, and every later enqueue
    /// for such a path is marked as served from the cache.
    pub fn on_preload_ambient(&mut self, paths: &Vec<String>)
        requires
            old(self).wf(),
        ensures
            final(self).wf(),
            final(self).masters == old(self).masters,
            final(self).music == old(self).music,
            final(self).duck == old(self).duck,
            final(self).sched == old(self).sched,
            final(self).collab == old(self).collab,
            final(self).ambient.voices == old(self).ambient.voices,
            final(self).ambient.active == old(self).ambient.active,
            final(self).ambient.fading_in == old(self).ambient.fading_in,
            final(self).ambient.fading_out == old(self).ambient.fading_out,
            final(self).ambient.transitions == old(self).ambient.transitions,
            final(self).ambient.s_fading_in == old(self).ambient.s_fading_in,
            final(self).ambient.s_fading_out == old(self).ambient.s_fading_out,
            final(self).ambient.s_transitions == old(self).ambient.s_transitions,
            forall|p: Seq<char>|
                final(self).ambient.cached(p) == (old(self).ambient.cached(p)
                    || path_prefix_listed(paths@, paths@.len() as int, p)),
            forall|k: int| 0 <= k < paths@.len() ==> final(self).ambient.cached(paths@[k]@),
    {
        let ghost pre = *self;
        let n = paths.len();
        let mut i: usize = 0;
        while i < n
            invariant
                self.wf(),
                self.masters == pre.masters,
                self.music == pre.music,
                self.duck == pre.duck,
                self.sched == pre.sched,
                self.collab == pre.collab,
                self.snap.progress == pre.snap.progress,
                self.snap.playback == pre.snap.playback,
                self.ambient.voices == pre.ambient.voices,
                self.ambient.active == pre.ambient.active,
                self.ambient.fading_in == pre.ambient.fading_in,
                self.ambient.fading_out == pre.ambient.fading_out,
                self.ambient.transitions == pre.ambient.transitions,
                self.ambient.s_fading_in == pre.ambient.s_fading_in,
                self.ambient.s_fading_out == pre.ambient.s_fading_out,
                self.ambient.s_transitions == pre.ambient.s_transitions,
                n == paths@.len(),
                i <= n,
                cache_grown(self.ambient.cache@, pre.ambient.cache@, paths@, i as int),
            decreases n - i,
        {
            let ghost cache0 = self.ambient.cache@;
            let listed = path_in_cache(&self.ambient.cache, &paths[i]);
            if !listed {
                self.ambient.cache.push(paths[i].clone());
                proof {
                    assert(self.ambient.cache@ == cache0.push(paths@[i as int]));
                }
            }
            proof {
                let ii = i as int;
                assert forall|p: Seq<char>|
                    path_listed(self.ambient.cache@, p) == (path_listed(pre.ambient.cache@, p)
                        || path_prefix_listed(paths@, ii + 1, p)) by {
                    assert(path_listed(cache0, p) == (path_listed(pre.ambient.cache@, p)
                        || path_prefix_listed(paths@, ii, p)));
                    if path_listed(self.ambient.cache@, p) {
                        let j = choose|j: int|
                            0 <= j < self.ambient.cache@.len() && self.ambient.cache@[j]@ == p;
                        if j < cache0.len() {
                            assert(path_listed(cache0, p));
                            if !path_listed(pre.ambient.cache@, p) {
                                assert(path_prefix_listed(paths@, ii, p));
                                let k = choose|k: int| 0 <= k < ii && paths@[k]@ == p;
                                assert(0 <= k < ii + 1 && paths@[k]@ == p);
                                assert(path_prefix_listed(paths@, ii + 1, p));
                            }
                        } else {
                            assert(self.ambient.cache@[j] == paths@[ii]);
                            assert(0 <= ii < ii + 1 && paths@[ii]@ == p);
                            assert(path_prefix_listed(paths@, ii + 1, p));
                        }
                    }
                    if path_listed(pre.ambient.cache@, p) {
                        assert(path_listed(cache0, p));
                        let j = choose|j: int| 0 <= j < cache0.len() && cache0[j]@ == p;
                        assert(self.ambient.cache@[j]@ == p);
                    }
                    if path_prefix_listed(paths@, ii + 1, p) {
                        let k = choose|k: int| 0 <= k < ii + 1 && paths@[k]@ == p;
                        if k < ii {
                            assert(path_listed(cache0, p));
                            let j = choose|j: int| 0 <= j < cache0.len() && cache0[j]@ == p;
                            assert(self.ambient.cache@[j]@ == p);
                        } else {
                            if listed {
                                let j = choose|j: int|
                                    0 <= j < cache0.len() && cache0[j]@ == paths@[ii]@;
                                assert(self.ambient.cache@[j]@ == p);
                            } else {
                                assert(self.ambient.cache@[cache0.len() as int]@ == p);
                            }
                        }
                    }
                }
                assert(cache_grown(self.ambient.cache@, pre.ambient.cache@, paths@, ii + 1));
            }
            i += 1;
        }
        proof {
            assert forall|p: Seq<char>|
                self.ambient.cached(p) == (pre.ambient.cached(p) || path_prefix_listed(
                    paths@,
                    paths@.len() as int,
                    p,
                )) by {
                assert(path_listed(self.ambient.cache@, p) == (path_listed(
                    pre.ambient.cache@,
                    p,
                ) || path_prefix_listed(paths@, n as int, p)));
            }
            assert forall|k: int| 0 <= k < paths@.len() implies self.ambient.cached(
                paths@[k]@,
            ) by {
                assert(path_prefix_listed(paths@, paths@.len() as int, paths@[k]@));
                assert(path_listed(self.ambient.cache@, paths@[k]@) == (path_listed(
                    pre.ambient.cache@,
                    paths@[k]@,
                ) || path_prefix_listed(paths@, n as int, paths@[k]@)));
            }
        }
    }

    /// Start (or restart) an ambient voice. When the caller decoded file
    /// A (`opened`), any voice under the id is dropped, a pending
    /// user-cadence fade-out for it is cancelled, and a fresh voice
    /// starts: phase A, a cycle countdown drawn from the repeat window, a
    /// silent sink awaiting its fade-in, a fade-in entry at step zero,
    /// and a published record. When decoding failed, the command is a
    /// no-op: a voice already playing under the id is left exactly as it
    /// was.
    pub fn on_play_ambient(
        &mut self,
        id: &String,
        file_a: String,
        file_b: String,
        settings: AmbientSettings,
        opened: bool,
    )
        requires
            old(self).wf(),
            settings.valid(),
        ensures
            final(self).wf(),
            final(self).masters == old(self).masters,
            final(self).music == old(self).music,
            final(self).duck == old(self).duck,
            final(self).sched == old(self).sched,
            final(self).collab == old(self).collab,
            final(self).snap.progress == old(self).snap.progress,
            final(self).ambient.cache == old(self).ambient.cache,
            final(self).ambient.transitions == old(self).ambient.transitions,
            final(self).ambient.s_fading_in == old(self).ambient.s_fading_in,
            final(self).ambient.s_fading_out == old(self).ambient.s_fading_out,
            final(self).ambient.s_transitions == old(self).ambient.s_transitions,
            !opened ==> *final(self) == *old(self),
            forall|other: Seq<char>|
                other !== id@ ==> final(self).ambient.fading_out.has(other)
                    == old(self).ambient.fading_out.has(other)
                    && final(self).ambient.voices.has(other)
                    == old(self).ambient.voices.has(other),
            forall|other: Seq<char>|
                other !== id@ && old(self).ambient.voices.has(other)
                    ==> final(self).ambient.voices.value_of(other)
                    == old(self).ambient.voices.value_of(other),
            opened ==> !final(self).ambient.fading_out.has(id@),
            opened && old(self).ambient.voices.len_spec() < 1000000 ==> {
                &&& final(self).ambient.voices.has(id@)
                &&& final(self).ambient.voices.value_of(id@).sink == (SinkModel {
                    volume: 0u32,
                    paused: false,
                    empty: false,
                })
                &&& final(self).ambient.voices.value_of(id@).is_playing_a
                &&& !final(self).ambient.voices.value_of(id@).is_paused
                &&& final(self).ambient.voices.value_of(id@).pause_remaining_ticks == 0
                &&& settings.repeat_min <= final(self).ambient.voices.value_of(
                    id@,
                ).loops_remaining <= settings.repeat_max
                &&& final(self).ambient.voices.value_of(id@).settings == settings
                &&& final(self).ambient.voices.value_of(id@).file_a@ == file_a@
                &&& final(self).ambient.voices.value_of(id@).file_b@ == file_b@
                &&& final(self).ambient.fading_in.has(id@)
                &&& final(self).ambient.fading_in.value_of(id@) == 0
            },
    {
        if opened {
            self.ambient.voices.remove(id);
            self.ambient.active.remove(id);
            self.ambient.fading_out.remove(id);
            if self.ambient.voices.len() < 1000000 {
                let loops = crate::rng::draw_u32_inclusive(
                    settings.repeat_min,
                    settings.repeat_max,
                );
                let info = ActiveAmbientInfo {
                    id: id.clone(),
                    file_a: file_a.clone(),
                    file_b: file_b.clone(),
                    settings: settings.duplicate(),
                };
                let voice = AmbientState {
                    sink: SinkModel { volume: 0, paused: false, empty: false },
                    file_a,
                    file_b,
                    settings,
                    is_playing_a: true,
                    loops_remaining: loops,
                    pause_remaining_ticks: 0,
                    is_paused: false,
                };
                self.ambient.voices.set(id, voice);
                self.ambient.active.set(id, info);
                self.ambient.fading_in.set(id, 0);
            }
        }
    }

    /// Start (or restart) an ambient voice at the scheduler cadence. An
    /// already-playing voice first gets a scheduler fade-out entry, unless
    /// one already runs; then, when the caller decoded file A, the voice
    /// under the id is replaced outright: phase A, a drawn countdown, a
    /// silent sink, a scheduler fade-in entry at step zero, and a
    /// published record.
    pub fn on_play_ambient_scheduler(
        &mut self,
        id: &String,
        file_a: String,
        file_b: String,
        settings: AmbientSettings,
        opened: bool,
    )
        requires
            old(self).wf(),
            settings.valid(),
        ensures
            final(self).wf(),
            final(self).masters == old(self).masters,
            final(self).music == old(self).music,
            final(self).duck == old(self).duck,
            final(self).sched == old(self).sched,
            final(self).collab == old(self).collab,
            final(self).ambient.cache == old(self).ambient.cache,
            final(self).ambient.fading_in == old(self).ambient.fading_in,
            final(self).ambient.fading_out == old(self).ambient.fading_out,
            final(self).ambient.transitions == old(self).ambient.transitions,
            final(self).ambient.s_transitions == old(self).ambient.s_transitions,
            old(self).ambient.voices.has(id@) && !old(self).ambient.s_fading_out.has(id@) ==> {
                &&& final(self).ambient.s_fading_out.has(id@)
                &&& final(self).ambient.s_fading_out.value_of(id@) == 0
            },
            forall|other: Seq<char>|
                other !== id@ ==> final(self).ambient.s_fading_out.has(other)
                    == old(self).ambient.s_fading_out.has(other)
                    && final(self).ambient.voices.has(other)
                    == old(self).ambient.voices.has(other),
            opened && old(self).ambient.voices.len_spec() < 1000000 ==> {
                &&& final(self).ambient.voices.has(id@)
                &&& final(self).ambient.voices.value_of(id@).sink == (SinkModel {
                    volume: 0u32,
                    paused: false,
                    empty: false,
                })
                &&& final(self).ambient.voices.value_of(id@).is_playing_a
                &&& !final(self).ambient.voices.value_of(id@).is_paused
                &&& settings.repeat_min <= final(self).ambient.voices.value_of(
                    id@,
                ).loops_remaining <= settings.repeat_max
                &&& final(self).ambient.voices.value_of(id@).settings == settings
                &&& final(self).ambient.s_fading_in.has(id@)
                &&& final(self).ambient.s_fading_in.value_of(id@) == 0
            },
            !opened ==> {
                &&& final(self).ambient.voices.has(id@) == old(self).ambient.voices.has(id@)
                &&& final(self).ambient.s_fading_in == old(self).ambient.s_fading_in
                &&& old(self).ambient.voices.has(id@) ==> final(self).ambient.voices.value_of(
                    id@,
                ) == old(self).ambient.voices.value_of(id@)
            },
    {
        let present = self.ambient.voices.contains(id);
        if present && !self.ambient.s_fading_out.contains(id) {
            self.ambient.s_fading_out.set(id, 0);
        }
        if opened && (present || self.ambient.voices.len() < 1000000) {
            let loops = crate::rng::draw_u32_inclusive(settings.repeat_min, settings.repeat_max);
            let info = ActiveAmbientInfo {
                id: id.clone(),
                file_a: file_a.clone(),
                file_b: file_b.clone(),
                settings: settings.duplicate(),
            };
            let voice = AmbientState {
                sink: SinkModel { volume: 0, paused: false, empty: false },
                file_a,
                file_b,
                settings,
                is_playing_a: true,
                loops_remaining: loops,
                pause_remaining_ticks: 0,
                is_paused: false,
            };
            self.ambient.voices.set(id, voice);
            self.ambient.active.set(id, info);
            self.ambient.s_fading_in.set(id, 0);
        }
    }

    /// Begin stopping an ambient voice: a fade-out entry starts at step
    /// zero for a playing voice that is not already fading out. A second
    /// stop for the same id — or a stop for an id not playing — changes
    /// nothing at all: the fade-out table can never hold the id twice.
    pub fn on_stop_ambient(&mut self, id: &String)
        requires
            old(self).wf(),
        ensures
            final(self).wf(),
            old(self).ambient.voices.has(id@) && !old(self).ambient.fading_out.has(id@) ==> {
                &&& final(self).ambient.fading_out.has(id@)
                &&& final(self).ambient.fading_out.value_of(id@) == 0
                &&& forall|other: Seq<char>|
                    other !== id@ ==> final(self).ambient.fading_out.has(other)
                        == old(self).ambient.fading_out.has(other)
                &&& final(self).ambient.voices == old(self).ambient.voices
                &&& final(self).ambient.active == old(self).ambient.active
                &&& final(self).ambient.fading_in == old(self).ambient.fading_in
                &&& final(self).ambient.transitions == old(self).ambient.transitions
                &&& final(self).ambient.s_fading_in == old(self).ambient.s_fading_in
                &&& final(self).ambient.s_fading_out == old(self).ambient.s_fading_out
                &&& final(self).ambient.s_transitions == old(self).ambient.s_transitions
                &&& final(self).ambient.cache == old(self).ambient.cache
                &&& final(self).masters == old(self).masters
                &&& final(self).music == old(self).music
                &&& final(self).duck == old(self).duck
                &&& final(self).sched == old(self).sched
                &&& final(self).collab == old(self).collab
            },
            !(old(self).ambient.voices.has(id@) && !old(self).ambient.fading_out.has(id@))
                ==> *final(self) == *old(self),
    {
        if self.ambient.voices.contains(id) && !self.ambient.fading_out.contains(id) {
            self.ambient.fading_out.set(id, 0);
        }
    }

    /// Begin stopping an ambient voice at the scheduler cadence: a
    /// scheduler fade-out entry starts at step zero. The user-cadence
    /// fade table is left entirely alone — the two cadences are tracked
    /// independently, so neither stop cancels the other's timing. A
    /// second scheduler stop — or a stop for an id not playing — changes
    /// nothing at all.
    pub fn on_stop_ambient_scheduler(&mut self, id: &String)
        requires
            old(self).wf(),
        ensures
            final(self).wf(),
            old(self).ambient.voices.has(id@) && !old(self).ambient.s_fading_out.has(id@) ==> {
                &&& final(self).ambient.s_fading_out.has(id@)
                &&& final(self).ambient.s_fading_out.value_of(id@) == 0
                &&& forall|other: Seq<char>|
                    other !== id@ ==> final(self).ambient.s_fading_out.has(other)
                        == old(self).ambient.s_fading_out.has(other)
                &&& final(self).ambient.fading_out == old(self).ambient.fading_out
                &&& final(self).ambient.fading_in == old(self).ambient.fading_in
                &&& final(self).ambient.s_fading_in == old(self).ambient.s_fading_in
                &&& final(self).ambient.transitions == old(self).ambient.transitions
                &&& final(self).ambient.s_transitions == old(self).ambient.s_transitions
                &&& final(self).ambient.cache == old(self).ambient.cache
                &&& final(self).ambient.voices == old(self).ambient.voices
                &&& final(self).ambient.active == old(self).ambient.active
                &&& final(self).masters == old(self).masters
                &&& final(self).music == old(self).music
                &&& final(self).duck == old(self).duck
                &&& final(self).sched == old(self).sched
                &&& final(self).collab == old(self).collab
            },
            !(old(self).ambient.voices.has(id@) && !old(self).ambient.s_fading_out.has(id@))
                ==> *final(self) == *old(self),
    {
        if self.ambient.voices.contains(id) && !self.ambient.s_fading_out.contains(id) {
            self.ambient.s_fading_out.set(id, 0);
        }
    }
}

/// Milliseconds of the loaded track still to play.
pub open spec fn music_remaining_ms(m: MusicCtl) -> u64 {
    if m.track_duration_ms >= m.track_elapsed_ms {
        (m.track_duration_ms - m.track_elapsed_ms) as u64
    } else {
        0u64
    }
}

/// A sink is audibly playing: present, not paused, not drained.
pub open spec fn sink_audible(sink: Option<SinkModel>) -> bool {
    match sink {
        Some(sk) => !sk.paused && !sk.empty,
        None => false,
    }
}

/// Whether the end-of-track fade-out is armed after this tick looks at
/// the track: it stays armed once armed, and arms when a crossfade is
/// configured, the track plays audibly, and its remaining time has
/// entered the crossfade window.
pub open spec fn fade_out_arms(m: MusicCtl) -> bool {
    m.fade_out_active || (m.crossfade_ms > 0 && sink_audible(m.sink) && music_remaining_ms(m)
        > 0 && music_remaining_ms(m) <= m.crossfade_ms as u64)
}

/// Whether this tick writes a faded-out gain to the music sink.
pub open spec fn fade_out_applies(e: Engine) -> bool {
    fade_out_arms(e.music) && e.music.fade_in is None && e.music.sink is Some
}

/// The gain the fade-out writes: the ducked music gain scaled by the
/// fraction of the crossfade window still remaining.
pub open spec fn faded_out_gain(e: Engine) -> int {
    milli_mul(
        ducked_music_gain(
            e.masters.music_volume,
            e.masters.master_volume,
            e.masters.is_muted,
            e.masters.is_master_muted,
            e.duck.duck_progress,
            e.duck.duck_amount,
        ) as u32,
        fade_out_mult_milli(music_remaining_ms(e.music), e.music.crossfade_ms) as u32,
    )
}

/// `cur` moved toward `target` by at most `speed`.
pub open spec fn move_toward(cur: u32, target: u32, speed: u32) -> u32 {
    if cur < target {
        if cur + speed <= target {
            (cur + speed) as u32
        } else {
            target
        }
    } else {
        if cur >= target + speed {
            (cur - speed) as u32
        } else {
            target
        }
    }
}

impl Engine {
    /// Clear the soundboard voice once its clip has drained, and let the
    /// ducking release.
    pub fn soundboard_end_check(&mut self)
        requires
            old(self).wf(),
        ensures
            final(self).wf(),
            final(self).masters == old(self).masters,
            final(self).music == old(self).music,
            final(self).ambient == old(self).ambient,
            final(self).sched == old(self).sched,
            final(self).collab == old(self).collab,
            final(self).snap.progress == old(self).snap.progress,
            match old(self).duck.soundboard_sink {
                Some(s) => {
                    if s.empty {
                        final(self).duck == (DuckCtl {
                            soundboard_sink: None,
                            soundboard_playing: false,
                            duck_target: 0u32,
                            ..old(self).duck
                        })
                    } else {
                        final(self).duck == old(self).duck
                    }
                },
                None => final(self).duck == old(self).duck,
            },
    {
        let clear = match &self.duck.soundboard_sink {
            Some(s) => s.empty,
            None => false,
        };
        if clear {
            self.duck.soundboard_sink = None;
            self.duck.duck_target = 0;
            self.duck.soundboard_playing = false;
        }
    }

    /// Move the ducking attenuation one step toward its target; while any
    /// attenuation is present or in motion, the music sink (unless a
    /// fade-in owns its gain) and every ambient sink carry gains
    /// recomputed under the new attenuation.
    pub fn duck_step(&mut self)
        requires
            old(self).wf(),
        ensures
            final(self).wf(),
            final(self).masters == old(self).masters,
            final(self).sched == old(self).sched,
            final(self).collab == old(self).collab,
            final(self).duck == (DuckCtl {
                duck_progress: move_toward(
                    old(self).duck.duck_progress,
                    old(self).duck.duck_target,
                    DUCK_FADE_SPEED,
                ),
                ..old(self).duck
            }),
            final(self).music.current_track == old(self).music.current_track,
            final(self).music.fade_in == old(self).music.fade_in,
            final(self).music.crossfade_ms == old(self).music.crossfade_ms,
            final(self).music.pending_auto_advance == old(self).music.pending_auto_advance,
            final(self).music.track_elapsed_ms == old(self).music.track_elapsed_ms,
            final(self).music.track_duration_ms == old(self).music.track_duration_ms,
            final(self).music.fade_out_active == old(self).music.fade_out_active,
            final(self).music.was_playing == old(self).music.was_playing,
            !(final(self).duck.duck_progress > 0 || final(self).duck.duck_target != final(self).duck.duck_progress) ==> final(self).music.sink == old(self).music.sink && final(self).ambient == old(self).ambient,
            (final(self).duck.duck_progress > 0 || final(self).duck.duck_target != final(self).duck.duck_progress) ==> {
                &&& (old(self).music.fade_in is None ==> final(self).music.sink
                    == sink_with_volume(
                    old(self).music.sink,
                    ducked_music_gain(
                        old(self).masters.music_volume,
                        old(self).masters.master_volume,
                        old(self).masters.is_muted,
                        old(self).masters.is_master_muted,
                        move_toward(
                            old(self).duck.duck_progress,
                            old(self).duck.duck_target,
                            DUCK_FADE_SPEED,
                        ),
                        old(self).duck.duck_amount,
                    ),
                ))
                &&& (old(self).music.fade_in is Some ==> final(self).music.sink == old(self).music.sink)
                &&& (forall|id: Seq<char>|
                    final(self).ambient.voices.has(id) == old(self).ambient.voices.has(id))
                &&& (forall|id: Seq<char>|
                    #[trigger] final(self).ambient.voices.has(id) ==> final(self).ambient.voices.value_of(id) == (AmbientState {
                        sink: SinkModel {
                            volume: final(self).ambient.voices.value_of(id).sink.volume,
                            ..old(self).ambient.voices.value_of(id).sink
                        },
                        ..old(self).ambient.voices.value_of(id)
                    }))
                &&& final(self).ambient.active == old(self).ambient.active
                &&& final(self).ambient.cache == old(self).ambient.cache
                &&& final(self).ambient.fading_in == old(self).ambient.fading_in
                &&& final(self).ambient.fading_out == old(self).ambient.fading_out
                &&& final(self).ambient.transitions == old(self).ambient.transitions
                &&& final(self).ambient.s_fading_in == old(self).ambient.s_fading_in
                &&& final(self).ambient.s_fading_out == old(self).ambient.s_fading_out
                &&& final(self).ambient.s_transitions == old(self).ambient.s_transitions
            },
    {
        let target = self.duck.duck_target;
        let p = self.duck.duck_progress;
        let moved: u32 = if p < target {
            if p + DUCK_FADE_SPEED <= target {
                p + DUCK_FADE_SPEED
            } else {
                target
            }
        } else {
            if p >= target + DUCK_FADE_SPEED {
                p - DUCK_FADE_SPEED
            } else {
                target
            }
        };
        self.duck.duck_progress = moved;
        if moved > 0 || target != moved {
            if self.music.fade_in.is_none() {
                let g = ducked_music_gain_exec(
                    self.masters.music_volume,
                    self.masters.master_volume,
                    self.masters.is_muted,
                    self.masters.is_master_muted,
                    self.duck.duck_progress,
                    self.duck.duck_amount,
                );
                match &mut self.music.sink {
                    Some(sk) => {
                        sk.set_volume(g);
                    },
                    None => {},
                }
            }
            self.refresh_ambient_gains();
        }
    }

    /// Advance a running music fade-in by one tick: its position moves
    /// fifty milliseconds and the sink gain climbs linearly toward the
    /// ducked music gain; on completion the fade-in record is dropped and
    /// the full gain stands.
    pub fn music_fade_in_step(&mut self)
        requires
            old(self).wf(),
        ensures
            final(self).wf(),
            final(self).masters == old(self).masters,
            final(self).duck == old(self).duck,
            final(self).ambient == old(self).ambient,
            final(self).sched == old(self).sched,
            final(self).collab == old(self).collab,
            final(self).snap.progress == old(self).snap.progress,
            final(self).music.current_track == old(self).music.current_track,
            final(self).music.track_elapsed_ms == old(self).music.track_elapsed_ms,
            final(self).music.track_duration_ms == old(self).music.track_duration_ms,
            final(self).music.crossfade_ms == old(self).music.crossfade_ms,
            final(self).music.fade_out_active == old(self).music.fade_out_active,
            final(self).music.was_playing == old(self).music.was_playing,
            final(self).music.pending_auto_advance == old(self).music.pending_auto_advance,
            old(self).music.fade_in is None ==> final(self).music.sink == old(self).music.sink
                && final(self).music.fade_in is None,
            match old(self).music.fade_in {
                Some(f) => {
                    let stepped = if f.elapsed_ms + TICK_MS <= ELAPSED_CEILING_MS {
                        (f.elapsed_ms + TICK_MS) as u64
                    } else {
                        f.elapsed_ms
                    };
                    let progress = fade_in_progress_milli(stepped, f.duration_ms);
                    let g = ducked_music_gain(
                        old(self).masters.music_volume,
                        old(self).masters.master_volume,
                        old(self).masters.is_muted,
                        old(self).masters.is_master_muted,
                        old(self).duck.duck_progress,
                        old(self).duck.duck_amount,
                    );
                    &&& final(self).music.sink == sink_with_volume(
                        old(self).music.sink,
                        milli_mul(g as u32, progress as u32),
                    )
                    &&& (progress >= 1000 ==> final(self).music.fade_in is None)
                    &&& (progress < 1000 ==> final(self).music.fade_in == Some(FadeIn {
                        elapsed_ms: stepped,
                        duration_ms: f.duration_ms,
                    }))
                },
                None => true,
            },
    {
        let fade = self.music.fade_in;
        match fade {
            Some(f) => {
                let stepped: u64 = if f.elapsed_ms + TICK_MS <= ELAPSED_CEILING_MS {
                    f.elapsed_ms + TICK_MS
                } else {
                    f.elapsed_ms
                };
                let progress = fade_in_progress_exec(stepped, f.duration_ms);
                let g = ducked_music_gain_exec(
                    self.masters.music_volume,
                    self.masters.master_volume,
                    self.masters.is_muted,
                    self.masters.is_master_muted,
                    self.duck.duck_progress,
                    self.duck.duck_amount,
                );
                proof {
                    crate::gain::lemma_milli_mul_bound(g, progress);
                }
                let vol = mul_milli(g, progress);
                match &mut self.music.sink {
                    Some(sk) => {
                        sk.set_volume(vol);
                    },
                    None => {},
                }
                if progress >= 1000 {
                    self.music.fade_in = None;
                } else {
                    self.music.fade_in = Some(FadeIn { elapsed_ms: stepped, duration_ms: f.duration_ms });
                }
            },
            None => {},
        }
    }

    /// Arm and apply the end-of-track fade-out: once a playing,
    /// non-drained track is within the crossfade window of its end the
    /// fade-out flag arms; while armed — and no fade-in owns the gain —
    /// the sink carries the ducked music gain scaled by the fraction of
    /// the window still remaining.
    pub fn music_fade_out_step(&mut self)
        requires
            old(self).wf(),
        ensures
            final(self).wf(),
            final(self).masters == old(self).masters,
            final(self).duck == old(self).duck,
            final(self).ambient == old(self).ambient,
            final(self).sched == old(self).sched,
            final(self).collab == old(self).collab,
            final(self).snap.progress == old(self).snap.progress,
            final(self).music.current_track == old(self).music.current_track,
            final(self).music.track_elapsed_ms == old(self).music.track_elapsed_ms,
            final(self).music.track_duration_ms == old(self).music.track_duration_ms,
            final(self).music.crossfade_ms == old(self).music.crossfade_ms,
            final(self).music.fade_in == old(self).music.fade_in,
            final(self).music.was_playing == old(self).music.was_playing,
            final(self).music.pending_auto_advance == old(self).music.pending_auto_advance,
            final(self).music.fade_out_active == fade_out_arms(old(self).music),
            fade_out_applies(*old(self)) ==> final(self).music.sink == sink_with_volume(
                old(self).music.sink,
                faded_out_gain(*old(self)),
            ),
            !fade_out_applies(*old(self)) ==> final(self).music.sink == old(self).music.sink,
    {
        let remaining: u64 = if self.music.track_duration_ms >= self.music.track_elapsed_ms {
            self.music.track_duration_ms - self.music.track_elapsed_ms
        } else {
            0
        };
        if self.music.crossfade_ms > 0 && !self.music.fade_out_active {
            let playing = match &self.music.sink {
                Some(sk) => !sk.is_paused() && !sk.empty(),
                None => false,
            };
            if playing && remaining > 0 && remaining <= self.music.crossfade_ms as u64 {
                self.music.fade_out_active = true;
            }
        }
        if self.music.fade_out_active && self.music.fade_in.is_none() {
            let g = ducked_music_gain_exec(
                self.masters.music_volume,
                self.masters.master_volume,
                self.masters.is_muted,
                self.masters.is_master_muted,
                self.duck.duck_progress,
                self.duck.duck_amount,
            );
            let mult = fade_out_mult_exec(remaining, self.music.crossfade_ms);
            proof {
                crate::gain::lemma_milli_mul_bound(g, mult);
            }
            let vol = mul_milli(g, mult);
            match &mut self.music.sink {
                Some(sk) => {
                    sk.set_volume(vol);
                },
                None => {},
            }
        }
    }
}

/// Number of ambient voices that are audibly playing: not inside a
/// pause, with a sink that has not drained.
pub open spec fn audible_count(voices: Seq<AmbientState>) -> int {
    voices.filter(|st: AmbientState| !st.is_paused && !st.sink.empty).len() as int
}

impl Engine {
    /// Take over what the device reported at the top of this tick: which
    /// sinks have drained. Nothing else of any voice moves.
    pub fn observe(&mut self, music_empty: bool, soundboard_empty: bool, drained: &Vec<String>)
        requires
            old(self).wf(),
        ensures
            final(self).wf(),
            final(self).masters == old(self).masters,
            final(self).sched == old(self).sched,
            final(self).collab == old(self).collab,
            final(self).snap == old(self).snap,
            final(self).music == (MusicCtl {
                sink: match old(self).music.sink {
                    Some(sk) => Some(SinkModel { empty: music_empty, ..sk }),
                    None => None,
                },
                ..old(self).music
            }),
            final(self).duck == (DuckCtl {
                soundboard_sink: match old(self).duck.soundboard_sink {
                    Some(sk) => Some(SinkModel { empty: soundboard_empty, ..sk }),
                    None => None,
                },
                ..old(self).duck
            }),
            final(self).ambient.active == old(self).ambient.active,
            final(self).ambient.cache == old(self).ambient.cache,
            final(self).ambient.fading_in == old(self).ambient.fading_in,
            final(self).ambient.fading_out == old(self).ambient.fading_out,
            final(self).ambient.transitions == old(self).ambient.transitions,
            final(self).ambient.s_fading_in == old(self).ambient.s_fading_in,
            final(self).ambient.s_fading_out == old(self).ambient.s_fading_out,
            final(self).ambient.s_transitions == old(self).ambient.s_transitions,
            forall|id: Seq<char>|
                final(self).ambient.voices.has(id) == old(self).ambient.voices.has(id),
            forall|id: Seq<char>|
                #[trigger] final(self).ambient.voices.has(id)
                    ==> final(self).ambient.voices.value_of(id) == (AmbientState {
                    sink: SinkModel {
                        empty: str_vec_has(drained@, id),
                        ..old(self).ambient.voices.value_of(id).sink
                    },
                    ..old(self).ambient.voices.value_of(id)
                }),
    {
        match &mut self.music.sink {
            Some(sk) => {
                sk.observe_empty(music_empty);
            },
            None => {},
        }
        match &mut self.duck.soundboard_sink {
            Some(sk) => {
                sk.observe_empty(soundboard_empty);
            },
            None => {},
        }
        let ghost pre = *self;
        let n = self.ambient.voices.len();
        let mut i: usize = 0;
        while i < n
            invariant
                self.wf(),
                pre.wf(),
                self.masters == pre.masters,
                self.music == pre.music,
                self.duck == pre.duck,
                self.sched == pre.sched,
                self.collab == pre.collab,
                self.snap == pre.snap,
                self.ambient.active == pre.ambient.active,
                self.ambient.cache == pre.ambient.cache,
                self.ambient.fading_in == pre.ambient.fading_in,
                self.ambient.fading_out == pre.ambient.fading_out,
                self.ambient.transitions == pre.ambient.transitions,
                self.ambient.s_fading_in == pre.ambient.s_fading_in,
                self.ambient.s_fading_out == pre.ambient.s_fading_out,
                self.ambient.s_transitions == pre.ambient.s_transitions,
                self.ambient.voices.keys_view() == pre.ambient.voices.keys_view(),
                n == self.ambient.voices.len_spec(),
                i <= n,
                forall|k: int|
                    i <= k < n ==> self.ambient.voices.vals_view()[k]
                        == pre.ambient.voices.vals_view()[k],
                forall|k: int|
                    0 <= k < i ==> #[trigger] self.ambient.voices.vals_view()[k]
                        == (AmbientState {
                        sink: SinkModel {
                            empty: str_vec_has(drained@, pre.ambient.voices.keys_view()[k]),
                            ..pre.ambient.voices.vals_view()[k].sink
                        },
                        ..pre.ambient.voices.vals_view()[k]
                    }),
            decreases n - i,
        {
            proof {
                self.ambient.voices.lemma_at(i as int);
            }
            let is_drained: bool;
            {
                let key = self.ambient.voices.key_at(i);
                is_drained = string_list_has(drained, key);
            }
            let ghost mid = *self;
            let st = self.ambient.voices.val_at_mut(i);
            st.sink.observe_empty(is_drained);
            proof {
                let ii = i as int;
                assert(self.ambient.voices.vals_view()[ii] == (AmbientState {
                    sink: SinkModel {
                        empty: str_vec_has(drained@, pre.ambient.voices.keys_view()[ii]),
                        ..pre.ambient.voices.vals_view()[ii].sink
                    },
                    ..pre.ambient.voices.vals_view()[ii]
                }));
                assert forall|id: Seq<char>| #[trigger] self.ambient.voices.has(id) implies {
                    &&& self.ambient.voices.value_of(id).settings.valid()
                    &&& self.ambient.voices.value_of(id).sink.volume <= 1500
                } by {
                    let k = self.ambient.voices.index_of(id);
                    self.ambient.voices.lemma_at(k);
                    if k == ii {
                        pre.ambient.voices.lemma_at(k);
                    } else {
                        mid.ambient.voices.lemma_at(k);
                    }
                }
            }
            i += 1;
        }
        proof {
            assert forall|id: Seq<char>|
                #[trigger] self.ambient.voices.has(id) implies self.ambient.voices.value_of(id)
                == (AmbientState {
                sink: SinkModel {
                    empty: str_vec_has(drained@, id),
                    ..pre.ambient.voices.value_of(id).sink
                },
                ..pre.ambient.voices.value_of(id)
            }) by {
                let k = self.ambient.voices.index_of(id);
                self.ambient.voices.lemma_at(k);
                pre.ambient.voices.lemma_at(k);
            }
        }
    }

    /// Advance the modeled track position, republish the progress
    /// snapshot, and queue an automatic advance when a playing track has
    /// just drained: the next track is chosen from the selected playlist
    /// — randomly under shuffle, else in order, wrapping only when
    /// looping — and the playlist position moves to it.
    pub fn progress_and_advance_step(&mut self)
        requires
            old(self).wf(),
        ensures
            final(self).wf(),
            final(self).masters == old(self).masters,
            final(self).duck == old(self).duck,
            final(self).ambient == old(self).ambient,
            final(self).sched == old(self).sched,
            final(self).music.sink == old(self).music.sink,
            final(self).music.current_track == old(self).music.current_track,
            final(self).music.fade_in == old(self).music.fade_in,
            final(self).music.fade_out_active == old(self).music.fade_out_active,
            final(self).music.crossfade_ms == old(self).music.crossfade_ms,
            final(self).collab.playlists == old(self).collab.playlists,
            final(self).collab.all_tracks == old(self).collab.all_tracks,
            final(self).snap.playback == old(self).snap.playback,
            old(self).music.sink is None ==> final(self).music.track_elapsed_ms == old(self).music.track_elapsed_ms && final(self).snap.progress == old(self).snap.progress
                && final(self).music.pending_auto_advance == old(self).music.pending_auto_advance
                && final(self).collab == old(self).collab,
            old(self).music.sink is Some ==> {
                let sk = old(self).music.sink->0;
                &&& final(self).music.track_elapsed_ms == (if old(self).music.track_elapsed_ms
                    + TICK_MS <= ELAPSED_CEILING_MS {
                    old(self).music.track_elapsed_ms + TICK_MS
                } else {
                    old(self).music.track_elapsed_ms as int
                })
                &&& final(self).snap.progress.is_finished == sk.empty
                &&& final(self).snap.progress.is_playing == (!sk.empty && !sk.paused)
                &&& final(self).snap.progress.duration_ms == old(self).music.track_duration_ms
                &&& (!sk.paused ==> final(self).snap.progress.current_time_ms == final(self).music.track_elapsed_ms)
                &&& (sk.paused ==> final(self).snap.progress.current_time_ms == old(self).snap.progress.current_time_ms)
                &&& final(self).music.was_playing == (!sk.empty && !sk.paused)
                &&& (!(old(self).music.was_playing && sk.empty && old(self).music.pending_auto_advance is None) ==> final(self).music.pending_auto_advance
                    == old(self).music.pending_auto_advance && final(self).collab == old(self).collab)
                &&& (old(self).music.was_playing && sk.empty && old(self).music.pending_auto_advance is None ==> {
                    let no_next = old(self).collab.playlist_state.current_playlist_id is None
                        || {
                        let tracks = crate::music::tracks_of_playlist(
                            old(self).collab.playlist_state.current_playlist_id->0@,
                            old(self).collab.all_tracks@,
                            old(self).collab.playlists,
                            old(self).collab.playlist_state.favorites@,
                        );
                        ||| tracks.len() == 0
                        ||| tracks.len() > 1000000
                        ||| (!old(self).collab.playlist_state.is_shuffled && old(self).collab.playlist_state.current_index + 1 >= tracks.len() && !old(self).collab.playlist_state.is_looping)
                    };
                    &&& (final(self).music.pending_auto_advance is None <==> no_next)
                    &&& (no_next ==> final(self).collab == old(self).collab)
                    &&& (final(self).music.pending_auto_advance is Some ==> {
                        let tracks = crate::music::tracks_of_playlist(
                            old(self).collab.playlist_state.current_playlist_id->0@,
                            old(self).collab.all_tracks@,
                            old(self).collab.playlists,
                            old(self).collab.playlist_state.favorites@,
                        );
                        let idx = final(self).collab.playlist_state.current_index;
                        let queued = final(self).music.pending_auto_advance->0;
                        &&& 0 <= idx < tracks.len()
                        &&& (!old(self).collab.playlist_state.is_shuffled && old(self).collab.playlist_state.current_index + 1 < tracks.len() ==> idx
                            == old(self).collab.playlist_state.current_index + 1)
                        &&& (!old(self).collab.playlist_state.is_shuffled && old(self).collab.playlist_state.current_index + 1 >= tracks.len() ==> old(self).collab.playlist_state.is_looping && idx == 0)
                        &&& final(self).collab.playlist_state == (PlaylistState {
                            current_index: idx,
                            ..old(self).collab.playlist_state
                        })
                        &&& queued.track_info.id@ == tracks[idx as int].id@
                        &&& queued.file_path@ == tracks[idx as int].album_path@ + "/"@
                            + tracks[idx as int].file@
                    })
                })
            },
    {
        if self.music.sink.is_some() {
            if self.music.track_elapsed_ms + TICK_MS <= ELAPSED_CEILING_MS {
                self.music.track_elapsed_ms = self.music.track_elapsed_ms + TICK_MS;
            }
            let (is_empty, is_paused): (bool, bool) = match &self.music.sink {
                Some(sk) => (sk.empty, sk.paused),
                None => (true, true),
            };
            self.snap.progress = AudioProgress {
                current_time_ms: if !is_paused {
                    self.music.track_elapsed_ms
                } else {
                    self.snap.progress.current_time_ms
                },
                duration_ms: self.music.track_duration_ms,
                is_playing: !is_empty && !is_paused,
                is_finished: is_empty,
            };
            if self.music.was_playing && is_empty && self.music.pending_auto_advance.is_none() {
                let playlist_id = match &self.collab.playlist_state.current_playlist_id {
                    Some(p) => Some(p.clone()),
                    None => None,
                };
                match playlist_id {
                    Some(pid) => {
                        let tracks = crate::music::resolve_playlist_tracks(
                            &pid,
                            &self.collab.all_tracks,
                            &self.collab.playlists,
                            &self.collab.playlist_state.favorites,
                        );
                        let len = tracks.len();
                        if 1 <= len && len <= 1000000 {
                            let choice = crate::music::select_next_index(
                                self.collab.playlist_state.current_index,
                                len,
                                self.collab.playlist_state.is_shuffled,
                                self.collab.playlist_state.is_looping,
                            );
                            match choice {
                                Some(idx) => {
                                    self.collab.playlist_state.current_index = idx;
                                    let track = &tracks[idx as usize];
                                    let file_path = track.album_path.clone().concat(
                                        "/",
                                    ).concat(track.file.as_str());
                                    let info = CurrentTrackInfo {
                                        id: track.id.clone(),
                                        title: track.title.clone(),
                                        artist: track.artist.clone(),
                                        album: track.album.clone(),
                                        file_path: file_path.clone(),
                                    };
                                    self.music.pending_auto_advance = Some(PendingTrack {
                                        file_path,
                                        track_info: info,
                                    });
                                },
                                None => {},
                            }
                        }
                    },
                    None => {},
                }
            }
            self.music.was_playing = !is_empty && !is_paused;
        }
    }

    /// Install a queued automatic advance: the pending track starts
    /// exactly as a play command would. With a decode result the track
    /// record, fresh sink, fade-in and progress snapshot are those of a
    /// play of the queued track; on a failed decode only the queued
    /// record is dropped and everything else stays as it was.
    pub fn run_pending_auto_advance(&mut self, decoded_duration_ms: Option<u64>)
        requires
            old(self).wf(),
            match decoded_duration_ms {
                Some(d) => d <= ELAPSED_CEILING_MS,
                None => true,
            },
        ensures
            final(self).wf(),
            final(self).masters == old(self).masters,
            final(self).duck == old(self).duck,
            final(self).ambient == old(self).ambient,
            final(self).sched == old(self).sched,
            final(self).collab == old(self).collab,
            final(self).music.pending_auto_advance is None,
            old(self).music.pending_auto_advance is None ==> *final(self) == *old(self),
            old(self).music.pending_auto_advance is Some && decoded_duration_ms is None ==> {
                &&& final(self).music == (MusicCtl {
                    pending_auto_advance: None,
                    ..old(self).music
                })
                &&& final(self).snap.progress == old(self).snap.progress
                &&& final(self).snap.playback == old(self).snap.playback
            },
            old(self).music.pending_auto_advance is Some && decoded_duration_ms is Some ==> {
                let queued = old(self).music.pending_auto_advance->0;
                let d = decoded_duration_ms->0;
                &&& final(self).music.current_track == Some(queued.track_info)
                &&& !final(self).music.fade_out_active
                &&& final(self).music.crossfade_ms == old(self).music.crossfade_ms
                &&& final(self).music.sink == Some(SinkModel {
                    volume: (if old(self).music.crossfade_ms > 0 {
                        0int
                    } else {
                        music_gain(
                            old(self).masters.music_volume,
                            old(self).masters.master_volume,
                            old(self).masters.is_muted,
                            old(self).masters.is_master_muted,
                        )
                    }) as u32,
                    paused: false,
                    empty: false,
                })
                &&& final(self).music.fade_in == (if old(self).music.crossfade_ms > 0 {
                    Some(FadeIn {
                        elapsed_ms: 0u64,
                        duration_ms: old(self).music.crossfade_ms as u64,
                    })
                } else {
                    old(self).music.fade_in
                })
                &&& final(self).music.track_elapsed_ms == 0
                &&& final(self).music.track_duration_ms == d
                &&& final(self).snap.progress == (AudioProgress {
                    current_time_ms: 0u64,
                    duration_ms: d,
                    is_playing: true,
                    is_finished: false,
                })
            },
    {
        let pending = self.music.pending_auto_advance.take();
        match pending {
            Some(p) => {
                self.on_play(p.file_path, p.track_info, decoded_duration_ms);
            },
            None => {},
        }
    }

    /// The file the queued automatic advance will need, so the caller can
    /// decode it before the tick installs the track.
    pub fn pending_auto_advance_path(&self) -> (r: Option<String>)
        requires
            self.wf(),
        ensures
            match r {
                Some(p) => self.music.pending_auto_advance is Some && p@
                    == self.music.pending_auto_advance->0.file_path@,
                None => self.music.pending_auto_advance is None,
            },
    {
        match &self.music.pending_auto_advance {
            Some(p) => Some(p.file_path.clone()),
            None => None,
        }
    }
}

/// Whether `list` holds an entry equal to `s`.
pub fn string_list_has(list: &Vec<String>, s: &String) -> (r: bool)
    ensures
        r == str_vec_has(list@, s@),
{
    let n = list.len();
    let mut i: usize = 0;
    while i < n
        invariant
            n == list@.len(),
            i <= n,
            forall|k: int| 0 <= k < i ==> list@[k]@ !== s@,
        decreases n - i,
    {
        if list[i] == *s {
            return true;
        }
        i += 1;
    }
    false
}

/// Whether some enabled entry of the preset carries this sound id.
pub open spec fn preset_lists_sound(sounds: Seq<crate::settings::PresetSound>, id: Seq<char>) -> bool {
    exists|k: int| 0 <= k < sounds.len() && sounds[k].enabled && sounds[k].sound_id@ == id
}

/// Whether the command list holds a scheduler stop for this id.
pub open spec fn stop_cmd_listed(cmds: Seq<AudioCommand>, id: Seq<char>) -> bool {
    exists|j: int|
        #![trigger cmds[j]]
        0 <= j < cmds.len() && match cmds[j] {
            AudioCommand::StopAmbientScheduler(x) => x@ == id,
            _ => false,
        }
}

/// Whether the command list holds a scheduler play or update for this id.
pub open spec fn sound_cmd_listed(cmds: Seq<AudioCommand>, id: Seq<char>) -> bool {
    exists|j: int|
        #![trigger cmds[j]]
        0 <= j < cmds.len() && match cmds[j] {
            AudioCommand::PlayAmbientScheduler { id: cid, file_a, file_b, settings } => cid@
                == id,
            AudioCommand::UpdateAmbientSettingsScheduler { id: cid, settings } => cid@ == id,
            _ => false,
        }
}

/// The command at this position is a scheduler stop for this id.
pub open spec fn stop_cmd_at(cmds: Seq<AudioCommand>, j: int, id: Seq<char>) -> bool {
    match cmds[j] {
        AudioCommand::StopAmbientScheduler(x) => x@ == id,
        _ => false,
    }
}

impl Engine {
    /// Publish the visualization snapshot: playback flags, effective
    /// layer volumes, the music spectrum handed in, and the ambient
    /// spectrum — or silence when no ambient voice is audible, so the
    /// noise floor never paints the ambient display.
    pub fn visualization_step(&mut self, music_bins: &Vec<u32>, ambient_bins: &Vec<u32>)
        requires
            old(self).wf(),
            music_bins@.len() == 64,
            ambient_bins@.len() == 64,
        ensures
            final(self).wf(),
            final(self).masters == old(self).masters,
            final(self).music == old(self).music,
            final(self).duck == old(self).duck,
            final(self).ambient == old(self).ambient,
            final(self).sched == old(self).sched,
            final(self).collab == old(self).collab,
            final(self).snap.progress == old(self).snap.progress,
            final(self).snap.playback.music_playing == sink_audible(old(self).music.sink),
            final(self).snap.playback.ambient_count == audible_count(
                old(self).ambient.voices.vals_view(),
            ),
            final(self).snap.playback.music_volume == music_gain(
                old(self).masters.music_volume,
                old(self).masters.master_volume,
                old(self).masters.is_muted,
                old(self).masters.is_master_muted,
            ),
            final(self).snap.playback.ambient_volume == music_gain(
                old(self).masters.ambient_master_volume,
                old(self).masters.master_volume,
                old(self).masters.is_ambient_muted,
                old(self).masters.is_master_muted,
            ),
            final(self).snap.playback.master_volume == old(self).masters.master_volume,
            final(self).snap.playback.is_muted == old(self).masters.is_master_muted,
            final(self).snap.playback.frequencies@ == music_bins@,
            audible_count(old(self).ambient.voices.vals_view()) > 0 ==> final(self).snap.playback.ambient_frequencies@ == ambient_bins@,
            audible_count(old(self).ambient.voices.vals_view()) == 0 ==> final(self).snap.playback.ambient_frequencies@ == Seq::new(64nat, |i: int| 0u32),
    {
        let music_playing = match &self.music.sink {
            Some(sk) => !sk.empty && !sk.paused,
            None => false,
        };
        let ghost pred = |st: AmbientState| !st.is_paused && !st.sink.empty;
        let n = self.ambient.voices.len();
        let mut count: u32 = 0;
        let mut i: usize = 0;
        proof {
            reveal(Seq::filter);
            assert(self.ambient.voices.vals_view().take(0)
                =~= Seq::<AmbientState>::empty());
        }
        while i < n
            invariant
                self.wf(),
                n == self.ambient.voices.len_spec(),
                i <= n,
                count as int == self.ambient.voices.vals_view().take(i as int).filter(
                    pred,
                ).len(),
                count <= i,
                pred == (|st: AmbientState| !st.is_paused && !st.sink.empty),
            decreases n - i,
        {
            let ghost taken = self.ambient.voices.vals_view().take(i as int);
            let ghost taken1 = self.ambient.voices.vals_view().take(i as int + 1);
            let audible: bool;
            {
                let st = self.ambient.voices.val_at(i);
                audible = !st.is_paused && !st.sink.empty;
            }
            if audible {
                count = count + 1;
            }
            proof {
                reveal(Seq::filter);
                assert(taken1.drop_last() =~= taken);
                assert(taken1.last() == self.ambient.voices.vals_view()[i as int]);
                assert(taken1.filter(pred) == if pred(self.ambient.voices.vals_view()[i as int]) {
                    taken.filter(pred).push(self.ambient.voices.vals_view()[i as int])
                } else {
                    taken.filter(pred)
                });
            }
            i += 1;
        }
        proof {
            assert(self.ambient.voices.vals_view().take(n as int)
                =~= self.ambient.voices.vals_view());
        }
        let music_vol = music_gain_exec(
            self.masters.music_volume,
            self.masters.master_volume,
            self.masters.is_muted,
            self.masters.is_master_muted,
        );
        let ambient_vol = music_gain_exec(
            self.masters.ambient_master_volume,
            self.masters.master_volume,
            self.masters.is_ambient_muted,
            self.masters.is_master_muted,
        );
        let ambient_frequencies = if count > 0 {
            copy_bins(ambient_bins)
        } else {
            let z = zero_bins();
            proof {
                assert(z@ =~= Seq::new(64nat, |k: int| 0u32));
            }
            z
        };
        self.snap.playback = PlaybackState {
            music_playing,
            music_volume: music_vol,
            ambient_count: count,
            ambient_volume: ambient_vol,
            master_volume: self.masters.master_volume,
            is_muted: self.masters.is_master_muted,
            frequencies: copy_bins(music_bins),
            ambient_frequencies,
        };
    }

    /// Count one tick of the schedule runner; every twentieth tick one
    /// scheduler second passes: the current item's preset is (re)loaded
    /// when the item changed, the remaining time counts down, and on
    /// expiry the schedule rotates to its next item with a fresh duration
    /// drawn from that item's window. Returns the preset id the caller
    /// must read from disk, if one fell due.
    pub fn scheduler_second_tick(&mut self) -> (load: Option<String>)
        requires
            old(self).wf(),
        ensures
            final(self).wf(),
            final(self).masters == old(self).masters,
            final(self).music == old(self).music,
            final(self).duck == old(self).duck,
            final(self).ambient == old(self).ambient,
            final(self).collab == old(self).collab,
            final(self).snap == old(self).snap,
            final(self).sched.pending_preset is None,
            old(self).sched.tick_counter + 1 < SCHEDULER_TICKS_PER_SECOND ==> {
                &&& final(self).sched.tick_counter == old(self).sched.tick_counter + 1
                &&& final(self).sched.state == old(self).sched.state
                &&& match load {
                    Some(p) => old(self).sched.pending_preset is Some && p@ == old(self).sched.pending_preset->0@,
                    None => old(self).sched.pending_preset is None,
                }
            },
            old(self).sched.tick_counter + 1 >= SCHEDULER_TICKS_PER_SECOND ==> {
                &&& final(self).sched.tick_counter == 0
                &&& (old(self).sched.state.is_playing && old(self).sched.state.items@.len() > 0
                    && old(self).sched.state.time_remaining > 1
                    ==> final(self).sched.state.current_item_index == old(self).sched.state.current_item_index && final(self).sched.state.time_remaining == old(self).sched.state.time_remaining - 1)
                &&& (old(self).sched.state.is_playing && old(self).sched.state.items@.len() > 0
                    && old(self).sched.state.time_remaining <= 1 ==> {
                    let items = old(self).sched.state.items@;
                    let next = (old(self).sched.state.current_item_index + 1) % (
                    items.len() as int);
                    &&& final(self).sched.state.current_item_index == next
                    &&& min_u32_spec(items[next].min_minutes, items[next].max_minutes)
                        <= final(self).sched.state.current_duration <= max_u32_spec(
                        items[next].min_minutes,
                        items[next].max_minutes,
                    )
                    &&& final(self).sched.state.time_remaining == final(self).sched.state.current_duration * 60
                    &&& match load {
                        Some(p) => p@ == items[next].preset_id@,
                        None => false,
                    }
                })
                &&& (!old(self).sched.state.is_playing ==> final(self).sched.last_item_index
                    is None && final(self).sched.state == old(self).sched.state)
            },
    {
        self.sched.tick_counter = self.sched.tick_counter + 1;
        if self.sched.tick_counter >= SCHEDULER_TICKS_PER_SECOND {
            self.sched.tick_counter = 0;
            let items_len = self.sched.state.items.len();
            if self.sched.state.is_playing && items_len > 0 {
                let current_idx = self.sched.state.current_item_index;
                let should_load = match self.sched.last_item_index {
                    Some(last) => last != current_idx,
                    None => true,
                };
                if should_load {
                    self.sched.last_item_index = Some(current_idx);
                    self.sched.pending_preset = Some(
                        self.sched.state.items[current_idx].preset_id.clone(),
                    );
                }
                if self.sched.state.time_remaining > -1000000 {
                    self.sched.state.time_remaining = self.sched.state.time_remaining - 1;
                }
                if self.sched.state.time_remaining <= 0 {
                    let next_index = (current_idx + 1) % items_len;
                    let item_min = self.sched.state.items[next_index].min_minutes;
                    let item_max = self.sched.state.items[next_index].max_minutes;
                    let lo = if item_min <= item_max {
                        item_min
                    } else {
                        item_max
                    };
                    let hi = if item_min <= item_max {
                        item_max
                    } else {
                        item_min
                    };
                    let duration = crate::rng::draw_u32_inclusive(lo, hi);
                    self.sched.state.current_item_index = next_index;
                    self.sched.state.current_duration = duration;
                    self.sched.state.time_remaining = (duration * 60) as i32;
                    self.sched.pending_preset = Some(
                        self.sched.state.items[next_index].preset_id.clone(),
                    );
                    self.sched.last_item_index = Some(next_index);
                }
            } else if !self.sched.state.is_playing {
                self.sched.last_item_index = None;
            }
        }
        self.sched.pending_preset.take()
    }

    /// Turn a freshly loaded scheduler preset into the commands that
    /// carry the transition, completely: every playing voice the preset
    /// no longer lists gets exactly one scheduler stop, and every enabled
    /// sound of the preset gets a scheduler settings update when its
    /// voice already plays, else a scheduler play. No other command is
    /// produced, and every command carries settings forced into their
    /// documented ranges.
    #[verifier::rlimit(60)]
    pub fn apply_scheduler_preset(&self, sounds: &Vec<crate::settings::PresetSound>) -> (cmds: Vec<
        AudioCommand,
    >)
        requires
            self.wf(),
        ensures
            forall|j: int|
                0 <= j < cmds@.len() ==> match #[trigger] cmds@[j] {
                    AudioCommand::StopAmbientScheduler(id) => self.ambient.voices.has(id@)
                        && !preset_lists_sound(sounds@, id@),
                    AudioCommand::PlayAmbientScheduler { id, file_a, file_b, settings } => {
                        &&& settings.valid()
                        &&& !self.ambient.voices.has(id@)
                        &&& preset_lists_sound(sounds@, id@)
                    },
                    AudioCommand::UpdateAmbientSettingsScheduler { id, settings } => {
                        &&& settings.valid()
                        &&& self.ambient.voices.has(id@)
                        &&& preset_lists_sound(sounds@, id@)
                    },
                    _ => false,
                },
            forall|id: Seq<char>|
                #[trigger] self.ambient.voices.has(id) && !preset_lists_sound(sounds@, id)
                    ==> stop_cmd_listed(cmds@, id),
            forall|j1: int, j2: int, id: Seq<char>|
                0 <= j1 < j2 < cmds@.len() && stop_cmd_at(cmds@, j1, id) ==> !stop_cmd_at(
                    cmds@,
                    j2,
                    id,
                ),
            forall|k: int|
                0 <= k < sounds@.len() && (#[trigger] sounds@[k]).enabled ==> sound_cmd_listed(
                    cmds@,
                    sounds@[k].sound_id@,
                ),
    {
        let mut cmds: Vec<AudioCommand> = Vec::new();
        let n_active = self.ambient.active.len();
        let mut i: usize = 0;
        while i < n_active
            invariant
                self.wf(),
                n_active == self.ambient.active.len_spec(),
                i <= n_active,
                forall|j: int|
                    0 <= j < cmds@.len() ==> match #[trigger] cmds@[j] {
                        AudioCommand::StopAmbientScheduler(id) => self.ambient.voices.has(id@)
                            && !preset_lists_sound(sounds@, id@),
                        _ => false,
                    },
                forall|j: int|
                    #![trigger cmds@[j]]
                    0 <= j < cmds@.len() ==> (exists|t: int|
                        0 <= t < i && stop_cmd_at(
                            cmds@,
                            j,
                            #[trigger] self.ambient.active.keys_view()[t],
                        )),
                forall|t: int|
                    0 <= t < i && !preset_lists_sound(
                        sounds@,
                        #[trigger] self.ambient.active.keys_view()[t],
                    ) ==> stop_cmd_listed(cmds@, self.ambient.active.keys_view()[t]),
                forall|j1: int, j2: int, id: Seq<char>|
                    0 <= j1 < j2 < cmds@.len() && stop_cmd_at(cmds@, j1, id) ==> !stop_cmd_at(
                        cmds@,
                        j2,
                        id,
                    ),
            decreases n_active - i,
        {
            let id = self.ambient.active.key_at(i).clone();
            proof {
                self.ambient.active.lemma_at(i as int);
            }
            let mut listed = false;
            let m = sounds.len();
            let mut k: usize = 0;
            while k < m
                invariant
                    m == sounds@.len(),
                    k <= m,
                    listed ==> preset_lists_sound(sounds@, id@),
                    !listed ==> forall|t: int|
                        0 <= t < k ==> !((#[trigger] sounds@[t]).enabled && sounds@[t].sound_id@
                            == id@),
                decreases m - k,
            {
                if sounds[k].enabled && sounds[k].sound_id == id {
                    listed = true;
                }
                k += 1;
            }
            if !listed {
                let ghost cmds0 = cmds@;
                let ghost kid = self.ambient.active.keys_view()[i as int];
                cmds.push(AudioCommand::StopAmbientScheduler(id));
                proof {
                    let last = cmds@.len() - 1;
                    assert(stop_cmd_at(cmds@, last, kid));
                    assert(forall|j: int| 0 <= j < cmds0.len() ==> cmds@[j] == cmds0[j]);
                    assert forall|t: int|
                        0 <= t < i + 1 && !preset_lists_sound(
                            sounds@,
                            #[trigger] self.ambient.active.keys_view()[t],
                        ) implies stop_cmd_listed(
                        cmds@,
                        self.ambient.active.keys_view()[t],
                    ) by {
                        if t < i {
                            assert(stop_cmd_listed(cmds0, self.ambient.active.keys_view()[t]));
                            let j = choose|j: int|
                                #![trigger cmds0[j]]
                                0 <= j < cmds0.len() && match cmds0[j] {
                                    AudioCommand::StopAmbientScheduler(x) => x@
                                        == self.ambient.active.keys_view()[t],
                                    _ => false,
                                };
                            assert(cmds@[j] == cmds0[j]);
                        }
                    }
                    assert forall|j1: int, j2: int, id2: Seq<char>|
                        0 <= j1 < j2 < cmds@.len() && stop_cmd_at(cmds@, j1, id2)
                            implies !stop_cmd_at(cmds@, j2, id2) by {
                        if j2 == last {
                            let t1 = choose|t: int|
                                0 <= t < i && stop_cmd_at(cmds0, j1, self.ambient.active.keys_view()[t]);
                            if stop_cmd_at(cmds@, j2, id2) {
                                assert(id2 == kid);
                                assert(stop_cmd_at(cmds@, j1, kid));
                                assert(self.ambient.active.keys_view()[t1] == kid);
                            }
                        }
                    }
                }
            }
            i += 1;
        }
        proof {
            assert forall|id: Seq<char>|
                #[trigger] self.ambient.voices.has(id) && !preset_lists_sound(sounds@, id)
                    implies stop_cmd_listed(cmds@, id) by {
                assert(self.ambient.active.has(id));
                let t = self.ambient.active.index_of(id);
                self.ambient.active.lemma_at(t);
            }
        }
        let ghost stops = cmds@;
        let m = sounds.len();
        let mut k: usize = 0;
        while k < m
            invariant
                self.wf(),
                m == sounds@.len(),
                k <= m,
                forall|j: int|
                    0 <= j < cmds@.len() ==> match #[trigger] cmds@[j] {
                        AudioCommand::StopAmbientScheduler(id) => self.ambient.voices.has(id@)
                            && !preset_lists_sound(sounds@, id@),
                        AudioCommand::PlayAmbientScheduler { id, file_a, file_b, settings } => {
                            &&& settings.valid()
                            &&& !self.ambient.voices.has(id@)
                            &&& preset_lists_sound(sounds@, id@)
                        },
                        AudioCommand::UpdateAmbientSettingsScheduler { id, settings } => {
                            &&& settings.valid()
                            &&& self.ambient.voices.has(id@)
                            &&& preset_lists_sound(sounds@, id@)
                        },
                        _ => false,
                    },
                stops.len() <= cmds@.len(),
                forall|j: int| 0 <= j < stops.len() ==> cmds@[j] == stops[j],
                forall|j: int|
                    stops.len() <= j < cmds@.len() ==> !(#[trigger] cmds@[j]
                        matches AudioCommand::StopAmbientScheduler(x)),
                forall|id: Seq<char>|
                    #[trigger] self.ambient.voices.has(id) && !preset_lists_sound(sounds@, id)
                        ==> stop_cmd_listed(stops, id),
                forall|j1: int, j2: int, id: Seq<char>|
                    0 <= j1 < j2 < stops.len() && stop_cmd_at(stops, j1, id) ==> !stop_cmd_at(
                        stops,
                        j2,
                        id,
                    ),
                forall|t: int|
                    0 <= t < k && (#[trigger] sounds@[t]).enabled ==> sound_cmd_listed(
                        cmds@,
                        sounds@[t].sound_id@,
                    ),
            decreases m - k,
        {
            if sounds[k].enabled {
                let settings = sounds[k].to_settings();
                let id = sounds[k].sound_id.clone();
                proof {
                    assert(preset_lists_sound(sounds@, id@));
                }
                let ghost cmds0 = cmds@;
                if self.ambient.voices.contains(&id) {
                    cmds.push(AudioCommand::UpdateAmbientSettingsScheduler { id, settings });
                } else {
                    cmds.push(AudioCommand::PlayAmbientScheduler {
                        id,
                        file_a: sounds[k].files_a.clone(),
                        file_b: sounds[k].files_b.clone(),
                        settings,
                    });
                }
                proof {
                    let last = cmds@.len() - 1;
                    assert(forall|j: int| 0 <= j < cmds0.len() ==> cmds@[j] == cmds0[j]);
                    assert(sound_cmd_listed(cmds@, sounds@[k as int].sound_id@)) by {
                        assert(match cmds@[last] {
                            AudioCommand::PlayAmbientScheduler { id: cid, file_a, file_b, settings } => cid@
                                == sounds@[k as int].sound_id@,
                            AudioCommand::UpdateAmbientSettingsScheduler { id: cid, settings } => cid@
                                == sounds@[k as int].sound_id@,
                            _ => false,
                        });
                    }
                    assert forall|t: int|
                        0 <= t < k + 1 && (#[trigger] sounds@[t]).enabled
                            implies sound_cmd_listed(cmds@, sounds@[t].sound_id@) by {
                        if t < k {
                            assert(sound_cmd_listed(cmds0, sounds@[t].sound_id@));
                            let j = choose|j: int|
                                #![trigger cmds0[j]]
                                0 <= j < cmds0.len() && match cmds0[j] {
                                    AudioCommand::PlayAmbientScheduler { id: cid, file_a, file_b, settings } => cid@
                                        == sounds@[t].sound_id@,
                                    AudioCommand::UpdateAmbientSettingsScheduler { id: cid, settings } => cid@
                                        == sounds@[t].sound_id@,
                                    _ => false,
                                };
                            assert(cmds@[j] == cmds0[j]);
                        }
                    }
                    assert forall|id2: Seq<char>|
                        #[trigger] self.ambient.voices.has(id2) && !preset_lists_sound(
                            sounds@,
                            id2,
                        ) implies stop_cmd_listed(cmds@, id2) by {
                        let j = choose|j: int|
                            #![trigger stops[j]]
                            0 <= j < stops.len() && match stops[j] {
                                AudioCommand::StopAmbientScheduler(x) => x@ == id2,
                                _ => false,
                            };
                        assert(cmds@[j] == stops[j]);
                    }
                }
            }
            k += 1;
        }
        proof {
            assert forall|id2: Seq<char>|
                #[trigger] self.ambient.voices.has(id2) && !preset_lists_sound(sounds@, id2)
                    implies stop_cmd_listed(cmds@, id2) by {
                let j = choose|j: int|
                    #![trigger stops[j]]
                    0 <= j < stops.len() && match stops[j] {
                        AudioCommand::StopAmbientScheduler(x) => x@ == id2,
                        _ => false,
                    };
                assert(cmds@[j] == stops[j]);
            }
            assert forall|j1: int, j2: int, id2: Seq<char>|
                0 <= j1 < j2 < cmds@.len() && stop_cmd_at(cmds@, j1, id2) implies !stop_cmd_at(
                cmds@,
                j2,
                id2,
            ) by {
                if j2 < stops.len() {
                    assert(cmds@[j1] == stops[j1]);
                    assert(cmds@[j2] == stops[j2]);
                }
            }
        }
        cmds
    }
}

/// The smaller of two values.
pub open spec fn min_u32_spec(a: u32, b: u32) -> u32 {
    if a <= b {
        a
    } else {
        b
    }
}

/// The larger of two values.
pub open spec fn max_u32_spec(a: u32, b: u32) -> u32 {
    if a <= b {
        b
    } else {
        a
    }
}

/// A fresh vector holding the same magnitudes.
pub fn copy_bins(bins: &Vec<u32>) -> (r: Vec<u32>)
    ensures
        r@ == bins@,
{
    let n = bins.len();
    let mut r: Vec<u32> = Vec::new();
    let mut i: usize = 0;
    while i < n
        invariant
            n == bins@.len(),
            i <= n,
            r@ == bins@.take(i as int),
        decreases n - i,
    {
        r.push(bins[i]);
        proof {
            assert(r@ =~= bins@.take(i as int + 1));
        }
        i += 1;
    }
    proof {
        assert(bins@.take(n as int) =~= bins@);
    }
    r
}

/// Whether some request of the list is for this voice id.
pub open spec fn req_listed(rs: Seq<EnqueueRequest>, id: Seq<char>) -> bool {
    exists|j: int| 0 <= j < rs.len() && rs[j].id@ == id
}

/// The gain multiplier of a fade at `step` of `total` steps, in
/// thousandths: climbing for a fade-in, descending for a fade-out.
pub open spec fn fade_mult_milli(step: u32, total: u32, fade_in: bool) -> int {
    if total == 0 {
        1000
    } else if fade_in {
        if step * 1000 / (total as int) > 1000 {
            1000
        } else {
            step * 1000 / (total as int)
        }
    } else {
        if step >= total {
            0
        } else {
            (total - step) * 1000 / (total as int)
        }
    }
}

/// Whether some entry of the list names this id.
pub open spec fn listed_entry(entries: Seq<(String, u32)>, id: Seq<char>) -> bool {
    exists|k: int| 0 <= k < entries.len() && entries[k].0@ == id
}

/// The entries of a fade table, as owned pairs.
fn fade_entries(t: &StrMap<u32>) -> (r: Vec<(String, u32)>)
    requires
        t.wf(),
        steps_bounded(*t),
    ensures
        r@.len() == t.len_spec(),
        forall|k: int|
            0 <= k < r@.len() ==> (#[trigger] r@[k]).0@ == t.keys_view()[k] && r@[k].1
                == t.vals_view()[k] && r@[k].1 <= 1000000,
        forall|k1: int, k2: int| 0 <= k1 < k2 < r@.len() ==> r@[k1].0@ !== r@[k2].0@,
{
    let n = t.len();
    let mut r: Vec<(String, u32)> = Vec::new();
    let mut i: usize = 0;
    while i < n
        invariant
            t.wf(),
            steps_bounded(*t),
            n == t.len_spec(),
            i <= n,
            r@.len() == i,
            forall|k: int|
                0 <= k < i ==> (#[trigger] r@[k]).0@ == t.keys_view()[k] && r@[k].1
                    == t.vals_view()[k] && r@[k].1 <= 1000000,
        decreases n - i,
    {
        proof {
            t.lemma_at(i as int);
        }
        r.push((t.key_at(i).clone(), *t.val_at(i)));
        i += 1;
    }
    r
}

impl Engine {
    /// Write a faded gain to each listed voice's sink: the voice's
    /// effective gain scaled by the given fade multiplier. Voices not
    /// listed keep their gain; nothing else of any voice moves.
    fn scale_listed_volumes(&mut self, entries: &Vec<(String, u32)>, total: u32, fade_in: bool)
        requires
            old(self).wf(),
            1 <= total <= 1000000,
            forall|k: int| 0 <= k < entries@.len() ==> (#[trigger] entries@[k]).1 <= 1000000,
            forall|k1: int, k2: int|
                0 <= k1 < k2 < entries@.len() ==> entries@[k1].0@ !== entries@[k2].0@,
        ensures
            final(self).wf(),
            final(self).masters == old(self).masters,
            final(self).music == old(self).music,
            final(self).duck == old(self).duck,
            final(self).sched == old(self).sched,
            final(self).collab == old(self).collab,
            final(self).snap == old(self).snap,
            final(self).ambient.active == old(self).ambient.active,
            final(self).ambient.cache == old(self).ambient.cache,
            final(self).ambient.fading_in == old(self).ambient.fading_in,
            final(self).ambient.fading_out == old(self).ambient.fading_out,
            final(self).ambient.transitions == old(self).ambient.transitions,
            final(self).ambient.s_fading_in == old(self).ambient.s_fading_in,
            final(self).ambient.s_fading_out == old(self).ambient.s_fading_out,
            final(self).ambient.s_transitions == old(self).ambient.s_transitions,
            final(self).ambient.voices.keys_view() == old(self).ambient.voices.keys_view(),
            forall|id: Seq<char>|
                final(self).ambient.voices.has(id) == old(self).ambient.voices.has(id),
            forall|id: Seq<char>|
                #[trigger] final(self).ambient.voices.has(id)
                    ==> final(self).ambient.voices.value_of(id) == (AmbientState {
                    sink: SinkModel {
                        volume: final(self).ambient.voices.value_of(id).sink.volume,
                        ..old(self).ambient.voices.value_of(id).sink
                    },
                    ..old(self).ambient.voices.value_of(id)
                }) && final(self).ambient.voices.value_of(id).sink.volume <= 1500,
            forall|k: int|
                0 <= k < entries@.len() && old(self).ambient.voices.has((#[trigger] entries@[
                    k
                ]).0@) && old(self).ambient.voices.value_of(
                    entries@[k].0@,
                ).settings.volume_variation == 0 ==> final(self).ambient.voices.value_of(
                    entries@[k].0@,
                ).sink.volume == milli_mul(
                    ambient_base_gain(
                        old(self).ambient.voices.value_of(entries@[k].0@).settings.volume,
                        old(self).masters.ambient_master_volume,
                        old(self).masters.master_volume,
                        old(self).masters.is_ambient_muted,
                        old(self).masters.is_master_muted,
                        old(self).duck.duck_progress,
                        old(self).duck.duck_amount,
                    ) as u32,
                    fade_mult_milli(entries@[k].1, total, fade_in) as u32,
                ),
            forall|id: Seq<char>|
                #[trigger] old(self).ambient.voices.has(id) && !listed_entry(entries@, id)
                    ==> final(self).ambient.voices.value_of(id) == old(self).ambient.voices.value_of(id),
    {
        let ghost pre = *self;
        let n = entries.len();
        let mut i: usize = 0;
        while i < n
            invariant
                self.wf(),
                pre.wf(),
                1 <= total <= 1000000,
                n == entries@.len(),
                i <= n,
                forall|k: int| 0 <= k < n ==> (#[trigger] entries@[k]).1 <= 1000000,
                self.masters == pre.masters,
                self.music == pre.music,
                self.duck == pre.duck,
                self.sched == pre.sched,
                self.collab == pre.collab,
                self.snap == pre.snap,
                self.ambient.active == pre.ambient.active,
                self.ambient.cache == pre.ambient.cache,
                self.ambient.fading_in == pre.ambient.fading_in,
                self.ambient.fading_out == pre.ambient.fading_out,
                self.ambient.transitions == pre.ambient.transitions,
                self.ambient.s_fading_in == pre.ambient.s_fading_in,
                self.ambient.s_fading_out == pre.ambient.s_fading_out,
                self.ambient.s_transitions == pre.ambient.s_transitions,
                self.ambient.voices.keys_view() == pre.ambient.voices.keys_view(),
                forall|k: int|
                    0 <= k < self.ambient.voices.len_spec()
                        ==> #[trigger] self.ambient.voices.vals_view()[k] == (AmbientState {
                        sink: SinkModel {
                            volume: self.ambient.voices.vals_view()[k].sink.volume,
                            ..pre.ambient.voices.vals_view()[k].sink
                        },
                        ..pre.ambient.voices.vals_view()[k]
                    }),
                forall|k1: int, k2: int|
                    0 <= k1 < k2 < n ==> entries@[k1].0@ !== entries@[k2].0@,
                forall|k: int|
                    0 <= k < i && pre.ambient.voices.has((#[trigger] entries@[k]).0@)
                        && pre.ambient.voices.value_of(
                        entries@[k].0@,
                    ).settings.volume_variation == 0 ==> self.ambient.voices.value_of(
                        entries@[k].0@,
                    ).sink.volume == milli_mul(
                        ambient_base_gain(
                            pre.ambient.voices.value_of(entries@[k].0@).settings.volume,
                            pre.masters.ambient_master_volume,
                            pre.masters.master_volume,
                            pre.masters.is_ambient_muted,
                            pre.masters.is_master_muted,
                            pre.duck.duck_progress,
                            pre.duck.duck_amount,
                        ) as u32,
                        fade_mult_milli(entries@[k].1, total, fade_in) as u32,
                    ),
                forall|id: Seq<char>|
                    #[trigger] pre.ambient.voices.has(id) && !(exists|k: int|
                        0 <= k < i && entries@[k].0@ == id) ==> self.ambient.voices.value_of(
                        id,
                    ) == pre.ambient.voices.value_of(id),
            decreases n - i,
        {
            let step = entries[i].1;
            let mult: u32 = if fade_in {
                let p = step * 1000 / total;
                if p > 1000 {
                    1000
                } else {
                    p
                }
            } else {
                if step >= total {
                    0
                } else {
                    ((total - step) * 1000) / total
                }
            };
            proof {
                assert(step * 1000 <= 1000000 * 1000) by (nonlinear_arith)
                    requires step <= 1000000;
                if !fade_in && step < total {
                    assert((total - step) * 1000 <= 1000000 * 1000) by (nonlinear_arith)
                        requires total - step <= 1000000;
                    assert(((total - step) * 1000) / (total as int) <= 1000) by (nonlinear_arith)
                        requires total >= 1, total - step <= total;
                }
            }
            let found = self.ambient.voices.find(&entries[i].0);
            match found {
                Some(vx) => {
                    let vol: u32;
                    {
                        let st = self.ambient.voices.val_at(vx);
                        let base = calc_ambient_volume(
                            &st.settings,
                            self.masters.ambient_master_volume,
                            self.masters.master_volume,
                            self.masters.is_ambient_muted,
                            self.masters.is_master_muted,
                            self.duck.duck_progress,
                            self.duck.duck_amount,
                        );
                        proof {
                            crate::gain::lemma_milli_mul_bound(base, mult);
                        }
                        vol = mul_milli(base, mult);
                    }
                    let ghost mid = *self;
                    let st = self.ambient.voices.val_at_mut(vx);
                    st.sink.set_volume(vol);
                    proof {
                        let ii = vx as int;
                        assert(mult == fade_mult_milli(step, total, fade_in));
                        StrMap::<AmbientState>::lemma_update_at(
                            mid.ambient.voices,
                            self.ambient.voices,
                            ii,
                            self.ambient.voices.vals_view()[ii],
                        );
                        assert forall|k: int|
                            0 <= k < self.ambient.voices.len_spec()
                                implies #[trigger] self.ambient.voices.vals_view()[k]
                            == (AmbientState {
                            sink: SinkModel {
                                volume: self.ambient.voices.vals_view()[k].sink.volume,
                                ..pre.ambient.voices.vals_view()[k].sink
                            },
                            ..pre.ambient.voices.vals_view()[k]
                        }) by {
                            if k != ii {
                                assert(self.ambient.voices.vals_view()[k]
                                    == mid.ambient.voices.vals_view()[k]);
                            }
                        }
                        assert forall|id: Seq<char>| #[trigger] self.ambient.voices.has(id)
                            implies {
                            &&& self.ambient.voices.value_of(id).settings.valid()
                            &&& self.ambient.voices.value_of(id).sink.volume <= 1500
                        } by {
                            let k = self.ambient.voices.index_of(id);
                            self.ambient.voices.lemma_at(k);
                            if k == ii {
                                pre.ambient.voices.lemma_at(k);
                            } else {
                                mid.ambient.voices.lemma_at(k);
                            }
                        }
                        assert(self.ambient.voices.value_of(entries@[i as int].0@)
                            == self.ambient.voices.vals_view()[ii]);
                        assert forall|k: int|
                            0 <= k < i + 1 && pre.ambient.voices.has((#[trigger] entries@[
                            k
                        ]).0@) && pre.ambient.voices.value_of(
                            entries@[k].0@,
                        ).settings.volume_variation == 0 implies self.ambient.voices.value_of(
                            entries@[k].0@,
                        ).sink.volume == milli_mul(
                            ambient_base_gain(
                                pre.ambient.voices.value_of(entries@[k].0@).settings.volume,
                                pre.masters.ambient_master_volume,
                                pre.masters.master_volume,
                                pre.masters.is_ambient_muted,
                                pre.masters.is_master_muted,
                                pre.duck.duck_progress,
                                pre.duck.duck_amount,
                            ) as u32,
                            fade_mult_milli(entries@[k].1, total, fade_in) as u32,
                        ) by {
                            if k < i {
                                let kk = pre.ambient.voices.index_of(entries@[k].0@);
                                pre.ambient.voices.lemma_at(kk);
                                self.ambient.voices.lemma_at(kk);
                                mid.ambient.voices.lemma_at(kk);
                                assert(kk != ii);
                            } else {
                                pre.ambient.voices.lemma_at(ii);
                            }
                        }
                        assert forall|id: Seq<char>|
                            #[trigger] pre.ambient.voices.has(id) && !(exists|k: int|
                                0 <= k < i + 1 && entries@[k].0@ == id)
                                implies self.ambient.voices.value_of(id)
                            == pre.ambient.voices.value_of(id) by {
                            let kk = pre.ambient.voices.index_of(id);
                            pre.ambient.voices.lemma_at(kk);
                            self.ambient.voices.lemma_at(kk);
                            mid.ambient.voices.lemma_at(kk);
                            assert(id !== entries@[i as int].0@);
                            assert(kk != ii);
                        }
                    }
                },
                None => {
                    proof {
                        assert forall|k: int|
                            0 <= k < i + 1 && pre.ambient.voices.has((#[trigger] entries@[
                            k
                        ]).0@) && pre.ambient.voices.value_of(
                            entries@[k].0@,
                        ).settings.volume_variation == 0 implies self.ambient.voices.value_of(
                            entries@[k].0@,
                        ).sink.volume == milli_mul(
                            ambient_base_gain(
                                pre.ambient.voices.value_of(entries@[k].0@).settings.volume,
                                pre.masters.ambient_master_volume,
                                pre.masters.master_volume,
                                pre.masters.is_ambient_muted,
                                pre.masters.is_master_muted,
                                pre.duck.duck_progress,
                                pre.duck.duck_amount,
                            ) as u32,
                            fade_mult_milli(entries@[k].1, total, fade_in) as u32,
                        ) by {
                            if k == i {
                                assert(!pre.ambient.voices.has(entries@[k].0@));
                            }
                        }
                    }
                },
            }
            i += 1;
        }
        proof {
            assert forall|id: Seq<char>| #[trigger] self.ambient.voices.has(id)
                implies self.ambient.voices.value_of(id) == (AmbientState {
                sink: SinkModel {
                    volume: self.ambient.voices.value_of(id).sink.volume,
                    ..pre.ambient.voices.value_of(id).sink
                },
                ..pre.ambient.voices.value_of(id)
            }) && self.ambient.voices.value_of(id).sink.volume <= 1500 by {
                let k = self.ambient.voices.index_of(id);
                self.ambient.voices.lemma_at(k);
                pre.ambient.voices.lemma_at(k);
            }
            assert forall|id: Seq<char>|
                #[trigger] pre.ambient.voices.has(id) && !listed_entry(entries@, id)
                    implies self.ambient.voices.value_of(id) == pre.ambient.voices.value_of(
                id,
            ) by {
                assert(!(exists|k: int| 0 <= k < n && entries@[k].0@ == id));
            }
        }
    }

    /// Drop every listed voice and its published record.
    fn remove_listed_voices(&mut self, ids: &Vec<String>)
        requires
            old(self).wf(),
        ensures
            final(self).wf(),
            final(self).masters == old(self).masters,
            final(self).music == old(self).music,
            final(self).duck == old(self).duck,
            final(self).sched == old(self).sched,
            final(self).collab == old(self).collab,
            final(self).snap == old(self).snap,
            final(self).ambient.cache == old(self).ambient.cache,
            final(self).ambient.fading_in == old(self).ambient.fading_in,
            final(self).ambient.fading_out == old(self).ambient.fading_out,
            final(self).ambient.transitions == old(self).ambient.transitions,
            final(self).ambient.s_fading_in == old(self).ambient.s_fading_in,
            final(self).ambient.s_fading_out == old(self).ambient.s_fading_out,
            final(self).ambient.s_transitions == old(self).ambient.s_transitions,
            forall|id: Seq<char>|
                str_vec_has(ids@, id) ==> !final(self).ambient.voices.has(id),
            forall|id: Seq<char>|
                !str_vec_has(ids@, id) ==> final(self).ambient.voices.has(id) == old(self).ambient.voices.has(id),
            forall|id: Seq<char>|
                !str_vec_has(ids@, id) && old(self).ambient.voices.has(id) ==> final(self).ambient.voices.value_of(id) == old(self).ambient.voices.value_of(id),
    {
        let ghost pre = *self;
        let n = ids.len();
        let mut i: usize = 0;
        while i < n
            invariant
                self.wf(),
                n == ids@.len(),
                i <= n,
                self.masters == pre.masters,
                self.music == pre.music,
                self.duck == pre.duck,
                self.sched == pre.sched,
                self.collab == pre.collab,
                self.snap == pre.snap,
                self.ambient.cache == pre.ambient.cache,
                self.ambient.fading_in == pre.ambient.fading_in,
                self.ambient.fading_out == pre.ambient.fading_out,
                self.ambient.transitions == pre.ambient.transitions,
                self.ambient.s_fading_in == pre.ambient.s_fading_in,
                self.ambient.s_fading_out == pre.ambient.s_fading_out,
                self.ambient.s_transitions == pre.ambient.s_transitions,
                forall|id: Seq<char>|
                    (exists|k: int| 0 <= k < i && ids@[k]@ == id)
                        ==> !self.ambient.voices.has(id),
                forall|id: Seq<char>|
                    !(exists|k: int| 0 <= k < i && ids@[k]@ == id)
                        ==> self.ambient.voices.has(id) == pre.ambient.voices.has(id),
                forall|id: Seq<char>|
                    !(exists|k: int| 0 <= k < i && ids@[k]@ == id) && pre.ambient.voices.has(id)
                        ==> self.ambient.voices.value_of(id) == pre.ambient.voices.value_of(id),
            decreases n - i,
        {
            self.ambient.voices.remove(&ids[i]);
            self.ambient.active.remove(&ids[i]);
            proof {
                assert forall|id: Seq<char>|
                    (exists|k: int| 0 <= k < i + 1 && ids@[k]@ == id)
                        implies !self.ambient.voices.has(id) by {
                    let k = choose|k: int| 0 <= k < i + 1 && ids@[k]@ == id;
                    if k < i {
                        assert(!(exists|t: int| 0 <= t < i && ids@[t]@ == id) || true);
                    }
                }
            }
            i += 1;
        }
    }
}

impl Engine {
    /// Advance every recorded volume transition of one cadence by a
    /// tick. An id still fading in is left for later. An id whose voice
    /// is gone is dropped. Otherwise the transition's current gain moves
    /// toward its target by the cadence's speed and the voice's sink
    /// carries it; within ten thousandths of the target it snaps there
    /// and the transition is finished.
    #[verifier::rlimit(60)]
    fn advance_transitions_of(&mut self, scheduler: bool)
        requires
            old(self).wf(),
        ensures
            final(self).wf(),
            final(self).masters == old(self).masters,
            final(self).music == old(self).music,
            final(self).duck == old(self).duck,
            final(self).sched == old(self).sched,
            final(self).collab == old(self).collab,
            final(self).snap == old(self).snap,
            final(self).ambient.active == old(self).ambient.active,
            final(self).ambient.cache == old(self).ambient.cache,
            final(self).ambient.fading_in == old(self).ambient.fading_in,
            final(self).ambient.fading_out == old(self).ambient.fading_out,
            final(self).ambient.s_fading_in == old(self).ambient.s_fading_in,
            final(self).ambient.s_fading_out == old(self).ambient.s_fading_out,
            scheduler ==> final(self).ambient.transitions == old(self).ambient.transitions,
            !scheduler ==> final(self).ambient.s_transitions == old(self).ambient.s_transitions,
            forall|id: Seq<char>|
                final(self).ambient.voices.has(id) == old(self).ambient.voices.has(id),
            forall|id: Seq<char>|
                #[trigger] final(self).ambient.voices.has(id)
                    ==> final(self).ambient.voices.value_of(id) == (AmbientState {
                    sink: SinkModel {
                        volume: final(self).ambient.voices.value_of(id).sink.volume,
                        ..old(self).ambient.voices.value_of(id).sink
                    },
                    ..old(self).ambient.voices.value_of(id)
                }) && final(self).ambient.voices.value_of(id).sink.volume <= 1500,
            forall|id: Seq<char>|
                transition_untouched(*old(self), scheduler, id) && old(self).ambient.voices.has(
                    id,
                ) ==> final(self).ambient.voices.value_of(id) == old(self).ambient.voices.value_of(id),
            forall|id: Seq<char>|
                #[trigger] trans_table(*final(self), scheduler).has(id)
                    ==> trans_table(*old(self), scheduler).has(id),
            forall|id: Seq<char>|
                transition_skipped(*old(self), scheduler, id) ==> trans_table(
                    *final(self),
                    scheduler,
                ).has(id) && trans_table(*final(self), scheduler).value_of(id) == trans_table(
                    *old(self),
                    scheduler,
                ).value_of(id),
            forall|id: Seq<char>|
                transition_active(*old(self), scheduler, id) ==> {
                    let cur = trans_table(*old(self), scheduler).value_of(id).0;
                    let target = trans_table(*old(self), scheduler).value_of(id).1;
                    let speed = if scheduler {
                        SCHEDULER_VOLUME_TRANSITION_SPEED
                    } else {
                        VOLUME_TRANSITION_SPEED
                    };
                    if abs_diff_u32(cur, target) < 10 {
                        &&& !trans_table(*final(self), scheduler).has(id)
                        &&& final(self).ambient.voices.value_of(id).sink.volume == target
                    } else {
                        &&& trans_table(*final(self), scheduler).has(id)
                        &&& trans_table(*final(self), scheduler).value_of(id) == (
                        move_toward(cur, target, speed), target)
                        &&& final(self).ambient.voices.value_of(id).sink.volume
                            == move_toward(cur, target, speed)
                    }
                },
    {
        let speed: u32 = if scheduler {
            SCHEDULER_VOLUME_TRANSITION_SPEED
        } else {
            VOLUME_TRANSITION_SPEED
        };
        let entries: Vec<(String, u32, u32)>;
        {
            let t = if scheduler {
                &self.ambient.s_transitions
            } else {
                &self.ambient.transitions
            };
            entries = transition_entries(t);
        }
        let mut kept: StrMap<(u32, u32)> = StrMap::new();
        let ghost pre = *self;
        let n = entries.len();
        let mut i: usize = 0;
        while i < n
            invariant
                self.wf(),
                pre.wf(),
                n == entries@.len(),
                i <= n,
                n == trans_table(pre, scheduler).len_spec(),
                forall|k: int|
                    0 <= k < n ==> (#[trigger] entries@[k]).0@ == trans_table(
                        pre,
                        scheduler,
                    ).keys_view()[k] && entries@[k].1 == trans_table(pre, scheduler).vals_view()[
                        k
                    ].0 && entries@[k].2 == trans_table(pre, scheduler).vals_view()[k].1,
                speed == if scheduler {
                    SCHEDULER_VOLUME_TRANSITION_SPEED
                } else {
                    VOLUME_TRANSITION_SPEED
                },
                self.masters == pre.masters,
                self.music == pre.music,
                self.duck == pre.duck,
                self.sched == pre.sched,
                self.collab == pre.collab,
                self.snap == pre.snap,
                self.ambient.active == pre.ambient.active,
                self.ambient.cache == pre.ambient.cache,
                self.ambient.fading_in == pre.ambient.fading_in,
                self.ambient.fading_out == pre.ambient.fading_out,
                self.ambient.s_fading_in == pre.ambient.s_fading_in,
                self.ambient.s_fading_out == pre.ambient.s_fading_out,
                self.ambient.transitions == pre.ambient.transitions,
                self.ambient.s_transitions == pre.ambient.s_transitions,
                self.ambient.voices.keys_view() == pre.ambient.voices.keys_view(),
                forall|k: int|
                    0 <= k < self.ambient.voices.len_spec()
                        ==> #[trigger] self.ambient.voices.vals_view()[k] == (AmbientState {
                        sink: SinkModel {
                            volume: self.ambient.voices.vals_view()[k].sink.volume,
                            ..pre.ambient.voices.vals_view()[k].sink
                        },
                        ..pre.ambient.voices.vals_view()[k]
                    }),
                kept.wf(),
                forall|id: Seq<char>|
                    #[trigger] kept.has(id) ==> trans_table(pre, scheduler).has(id),
                forall|id: Seq<char>|
                    #[trigger] kept.has(id) ==> kept.value_of(id).0 <= 1500
                        && kept.value_of(id).1 <= 1500,
                forall|id: Seq<char>|
                    transition_skipped(pre, scheduler, id) && (exists|k: int|
                        0 <= k < i && trans_table(pre, scheduler).keys_view()[k] == id)
                        ==> kept.has(id) && kept.value_of(id) == trans_table(
                        pre,
                        scheduler,
                    ).value_of(id),
                forall|id: Seq<char>|
                    transition_active(pre, scheduler, id) && (exists|k: int|
                        0 <= k < i && trans_table(pre, scheduler).keys_view()[k] == id) ==> {
                        let cur = trans_table(pre, scheduler).value_of(id).0;
                        let target = trans_table(pre, scheduler).value_of(id).1;
                        if abs_diff_u32(cur, target) < 10 {
                            &&& !kept.has(id)
                            &&& self.ambient.voices.value_of(id).sink.volume == target
                        } else {
                            &&& kept.has(id)
                            &&& kept.value_of(id) == (move_toward(cur, target, speed), target)
                            &&& self.ambient.voices.value_of(id).sink.volume == move_toward(
                                cur,
                                target,
                                speed,
                            )
                        }
                    },
                forall|id: Seq<char>|
                    !(exists|k: int|
                        0 <= k < i && trans_table(pre, scheduler).keys_view()[k] == id
                            && transition_active(pre, scheduler, id)) && pre.ambient.voices.has(
                        id,
                    ) ==> self.ambient.voices.value_of(id) == pre.ambient.voices.value_of(id),
                forall|id: Seq<char>|
                    kept.has(id) ==> (exists|k: int|
                        0 <= k < i && trans_table(pre, scheduler).keys_view()[k] == id),
            decreases n - i,
        {
            proof {
                trans_table(pre, scheduler).lemma_at(i as int);
            }
            let id = entries[i].0.clone();
            let cur = entries[i].1;
            let target = entries[i].2;
            let fading = if scheduler {
                self.ambient.s_fading_in.contains(&id)
            } else {
                self.ambient.fading_in.contains(&id)
            };
            if fading {
                kept.set(&id, (cur, target));
            } else {
                let found = self.ambient.voices.find(&id);
                match found {
                    Some(vx) => {
                        let diff: u32 = if cur >= target {
                            cur - target
                        } else {
                            target - cur
                        };
                        let new_cur: u32 = if diff < 10 {
                            target
                        } else if cur < target {
                            if cur + speed <= target {
                                cur + speed
                            } else {
                                target
                            }
                        } else {
                            if cur >= target + speed {
                                cur - speed
                            } else {
                                target
                            }
                        };
                        let ghost mid = *self;
                        {
                            let st = self.ambient.voices.val_at_mut(vx);
                            st.sink.set_volume(new_cur);
                        }
                        proof {
                            StrMap::<AmbientState>::lemma_update_at(
                                mid.ambient.voices,
                                self.ambient.voices,
                                vx as int,
                                self.ambient.voices.vals_view()[vx as int],
                            );
                            assert(self.ambient.voices.value_of(id@)
                                == self.ambient.voices.vals_view()[vx as int]);
                        }
                        if diff >= 10 {
                            kept.set(&id, (new_cur, target));
                        }
                    },
                    None => {},
                }
            }
            i += 1;
        }
        proof {
            assert forall|id: Seq<char>|
                transition_skipped(pre, scheduler, id) implies (exists|k: int|
                0 <= k < n && trans_table(pre, scheduler).keys_view()[k] == id) by {
                let k = trans_table(pre, scheduler).index_of(id);
                trans_table(pre, scheduler).lemma_at(k);
            }
            assert forall|id: Seq<char>|
                transition_active(pre, scheduler, id) implies (exists|k: int|
                0 <= k < n && trans_table(pre, scheduler).keys_view()[k] == id) by {
                let k = trans_table(pre, scheduler).index_of(id);
                trans_table(pre, scheduler).lemma_at(k);
            }
        }
        if scheduler {
            self.ambient.s_transitions = kept;
        } else {
            self.ambient.transitions = kept;
        }
        proof {
            assert forall|id: Seq<char>| #[trigger] self.ambient.voices.has(id)
                implies self.ambient.voices.value_of(id) == (AmbientState {
                sink: SinkModel {
                    volume: self.ambient.voices.value_of(id).sink.volume,
                    ..pre.ambient.voices.value_of(id).sink
                },
                ..pre.ambient.voices.value_of(id)
            }) && self.ambient.voices.value_of(id).sink.volume <= 1500 by {
                let k = self.ambient.voices.index_of(id);
                self.ambient.voices.lemma_at(k);
                pre.ambient.voices.lemma_at(k);
            }
        }
    }
}

/// The transition table of the chosen cadence.
pub open spec fn trans_table(e: Engine, scheduler: bool) -> StrMap<(u32, u32)> {
    if scheduler {
        e.ambient.s_transitions
    } else {
        e.ambient.transitions
    }
}

/// The fade-in table of the chosen cadence.
pub open spec fn fadein_table(e: Engine, scheduler: bool) -> StrMap<u32> {
    if scheduler {
        e.ambient.s_fading_in
    } else {
        e.ambient.fading_in
    }
}

/// This id's transition is deferred: it is recorded but the voice is
/// still fading in, which owns the gain for now.
pub open spec fn transition_skipped(e: Engine, scheduler: bool, id: Seq<char>) -> bool {
    trans_table(e, scheduler).has(id) && fadein_table(e, scheduler).has(id)
}

/// This id's transition advances this tick: recorded, not fading in, and
/// its voice is playing.
pub open spec fn transition_active(e: Engine, scheduler: bool, id: Seq<char>) -> bool {
    trans_table(e, scheduler).has(id) && !fadein_table(e, scheduler).has(id)
        && e.ambient.voices.has(id)
}

/// The user-cadence volume transition for this id advances on this idle
/// tick: a transition is recorded, its voice outlives the user fade-out
/// removal, and no user fade-in still owns the gain.
pub open spec fn user_transition_runs(e: Engine, id: Seq<char>) -> bool {
    &&& e.ambient.transitions.has(id)
    &&& e.ambient.voices.has(id)
    &&& !(e.ambient.fading_out.has(id) && e.ambient.fading_out.value_of(id) + 1 >= FADE_STEPS)
    &&& !(e.ambient.fading_in.has(id) && e.ambient.fading_in.value_of(id) + 1 < FADE_STEPS)
}

/// The voice's base effective gain under the engine's masters and
/// ducking state, with no variation.
pub open spec fn base_gain_of(e: Engine, id: Seq<char>) -> int {
    ambient_base_gain(
        e.ambient.voices.value_of(id).settings.volume,
        e.masters.ambient_master_volume,
        e.masters.master_volume,
        e.masters.is_ambient_muted,
        e.masters.is_master_muted,
        e.duck.duck_progress,
        e.duck.duck_amount,
    )
}

/// A surviving user-cadence fade writes this id's gain on this idle tick
/// and nothing later overwrites it from the user fade side: the fade
/// entry advances without finishing, the voice plays with no variation
/// configured, and — for a fade-out — no fade-in owns the gain instead.
pub open spec fn user_fade_gain_applies(e: Engine, id: Seq<char>, fade_in: bool) -> bool {
    if fade_in {
        &&& e.ambient.fading_in.has(id)
        &&& e.ambient.fading_in.value_of(id) + 1 < FADE_STEPS
        &&& e.ambient.voices.has(id)
        &&& !(e.ambient.fading_out.has(id) && e.ambient.fading_out.value_of(id) + 1
            >= FADE_STEPS)
        &&& e.ambient.voices.value_of(id).settings.volume_variation == 0
    } else {
        &&& e.ambient.fading_out.has(id)
        &&& e.ambient.fading_out.value_of(id) + 1 < FADE_STEPS
        &&& e.ambient.voices.has(id)
        &&& !e.ambient.fading_in.has(id)
        &&& e.ambient.voices.value_of(id).settings.volume_variation == 0
    }
}

/// No scheduler-cadence table touches this id, so the scheduler passes of
/// an idle tick leave its gain alone.
pub open spec fn clear_of_scheduler_tables(e: Engine, id: Seq<char>) -> bool {
    &&& !e.ambient.s_fading_out.has(id)
    &&& !e.ambient.s_fading_in.has(id)
    &&& !e.ambient.s_transitions.has(id)
}

/// This tick's transition pass leaves the id's voice alone.
pub open spec fn transition_untouched(e: Engine, scheduler: bool, id: Seq<char>) -> bool {
    !transition_active(e, scheduler, id)
}

/// The entries of a transition table, as owned triples.
fn transition_entries(t: &StrMap<(u32, u32)>) -> (r: Vec<(String, u32, u32)>)
    requires
        t.wf(),
    ensures
        r@.len() == t.len_spec(),
        forall|k: int|
            0 <= k < r@.len() ==> (#[trigger] r@[k]).0@ == t.keys_view()[k] && r@[k].1
                == t.vals_view()[k].0 && r@[k].2 == t.vals_view()[k].1,
{
    let n = t.len();
    let mut r: Vec<(String, u32, u32)> = Vec::new();
    let mut i: usize = 0;
    while i < n
        invariant
            t.wf(),
            n == t.len_spec(),
            i <= n,
            r@.len() == i,
            forall|k: int|
                0 <= k < i ==> (#[trigger] r@[k]).0@ == t.keys_view()[k] && r@[k].1
                    == t.vals_view()[k].0 && r@[k].2 == t.vals_view()[k].1,
        decreases n - i,
    {
        let v = t.val_at(i);
        r.push((t.key_at(i).clone(), v.0, v.1));
        i += 1;
    }
    r
}

impl Engine {
    /// Run every ambient voice's A/B machine against its observed drain
    /// state. Each voice that asks for its next file gets its sink gain
    /// recomputed, its sink marked as fed, and one enqueue request in the
    /// result: the file of the phase just entered, wrapped in the voice's
    /// chain, flagged when the preload cache covers it.
    #[verifier::rlimit(60)]
    fn ab_machine(&mut self) -> (reqs: Vec<EnqueueRequest>)
        requires
            old(self).wf(),
        ensures
            final(self).wf(),
            final(self).masters == old(self).masters,
            final(self).music == old(self).music,
            final(self).duck == old(self).duck,
            final(self).sched == old(self).sched,
            final(self).collab == old(self).collab,
            final(self).snap == old(self).snap,
            final(self).ambient.active == old(self).ambient.active,
            final(self).ambient.cache == old(self).ambient.cache,
            final(self).ambient.fading_in == old(self).ambient.fading_in,
            final(self).ambient.fading_out == old(self).ambient.fading_out,
            final(self).ambient.transitions == old(self).ambient.transitions,
            final(self).ambient.s_fading_in == old(self).ambient.s_fading_in,
            final(self).ambient.s_fading_out == old(self).ambient.s_fading_out,
            final(self).ambient.s_transitions == old(self).ambient.s_transitions,
            forall|id: Seq<char>|
                final(self).ambient.voices.has(id) == old(self).ambient.voices.has(id),
            forall|id: Seq<char>|
                #[trigger] old(self).ambient.voices.has(id) && !req_listed(reqs@, id)
                    ==> ab_step_rel(
                    old(self).ambient.voices.value_of(id),
                    final(self).ambient.voices.value_of(id),
                    None,
                ),
            forall|id: Seq<char>|
                #[trigger] old(self).ambient.voices.has(id) && req_listed(reqs@, id) ==> {
                    let pre_v = old(self).ambient.voices.value_of(id);
                    let post_v = final(self).ambient.voices.value_of(id);
                    &&& ab_step_rel(
                        pre_v,
                        AmbientState { sink: pre_v.sink, ..post_v },
                        Some(post_v.is_playing_a),
                    )
                    &&& post_v.sink.empty == false
                    &&& post_v.sink.paused == pre_v.sink.paused
                    &&& ambient_gain_matches(
                        post_v,
                        old(self).masters,
                        old(self).duck.duck_progress,
                        old(self).duck.duck_amount,
                        post_v.sink.volume,
                    )
                },
            forall|j: int|
                0 <= j < reqs@.len() ==> {
                    let r = #[trigger] reqs@[j];
                    &&& final(self).ambient.voices.has(r.id@)
                    &&& r.chain == chain_of(final(self).ambient.voices.value_of(r.id@).settings)
                    &&& r.volume == final(self).ambient.voices.value_of(r.id@).sink.volume
                    &&& r.path@ == (if final(self).ambient.voices.value_of(r.id@).is_playing_a {
                        final(self).ambient.voices.value_of(r.id@).file_a@
                    } else {
                        final(self).ambient.voices.value_of(r.id@).file_b@
                    })
                    &&& r.from_cache == old(self).ambient.cached(r.path@)
                },
    {
        let ghost pre = *self;
        let mut reqs: Vec<EnqueueRequest> = Vec::new();
        let n = self.ambient.voices.len();
        let mut i: usize = 0;
        while i < n
            invariant
                self.wf(),
                pre.wf(),
                n == self.ambient.voices.len_spec(),
                i <= n,
                self.masters == pre.masters,
                self.music == pre.music,
                self.duck == pre.duck,
                self.sched == pre.sched,
                self.collab == pre.collab,
                self.snap == pre.snap,
                self.ambient.active == pre.ambient.active,
                self.ambient.cache == pre.ambient.cache,
                self.ambient.fading_in == pre.ambient.fading_in,
                self.ambient.fading_out == pre.ambient.fading_out,
                self.ambient.transitions == pre.ambient.transitions,
                self.ambient.s_fading_in == pre.ambient.s_fading_in,
                self.ambient.s_fading_out == pre.ambient.s_fading_out,
                self.ambient.s_transitions == pre.ambient.s_transitions,
                self.ambient.voices.keys_view() == pre.ambient.voices.keys_view(),
                forall|k: int|
                    i <= k < n ==> self.ambient.voices.vals_view()[k]
                        == pre.ambient.voices.vals_view()[k],
                forall|id: Seq<char>|
                    req_listed(reqs@, id) ==> (exists|k: int|
                        0 <= k < i && pre.ambient.voices.keys_view()[k] == id),
                forall|k: int|
                    0 <= k < i && !req_listed(reqs@, pre.ambient.voices.keys_view()[k])
                        ==> ab_step_rel(
                        pre.ambient.voices.vals_view()[k],
                        #[trigger] self.ambient.voices.vals_view()[k],
                        None,
                    ),
                forall|k: int|
                    0 <= k < i && req_listed(reqs@, pre.ambient.voices.keys_view()[k]) ==> {
                        let pre_v = pre.ambient.voices.vals_view()[k];
                        let post_v = #[trigger] self.ambient.voices.vals_view()[k];
                        &&& ab_step_rel(
                            pre_v,
                            AmbientState { sink: pre_v.sink, ..post_v },
                            Some(post_v.is_playing_a),
                        )
                        &&& post_v.sink.empty == false
                        &&& post_v.sink.paused == pre_v.sink.paused
                        &&& ambient_gain_matches(
                            post_v,
                            pre.masters,
                            pre.duck.duck_progress,
                            pre.duck.duck_amount,
                            post_v.sink.volume,
                        )
                    },
                forall|j: int|
                    0 <= j < reqs@.len() ==> {
                        let r = #[trigger] reqs@[j];
                        &&& self.ambient.voices.has(r.id@)
                        &&& r.chain == chain_of(self.ambient.voices.value_of(r.id@).settings)
                        &&& r.volume == self.ambient.voices.value_of(r.id@).sink.volume
                        &&& r.path@ == (if self.ambient.voices.value_of(r.id@).is_playing_a {
                            self.ambient.voices.value_of(r.id@).file_a@
                        } else {
                            self.ambient.voices.value_of(r.id@).file_b@
                        })
                        &&& r.from_cache == pre.ambient.cached(r.path@)
                    },
            decreases n - i,
        {
            proof {
                self.ambient.voices.lemma_at(i as int);
                pre.ambient.voices.lemma_at(i as int);
            }
            let ghost mid0 = *self;
            let ghost reqs_head = reqs@;
            let enq: Option<bool>;
            {
                let st = self.ambient.voices.val_at_mut(i);
                enq = ambient_ab_step(st);
            }
            proof {
                StrMap::<AmbientState>::lemma_update_at(
                    mid0.ambient.voices,
                    self.ambient.voices,
                    i as int,
                    self.ambient.voices.vals_view()[i as int],
                );
            }
            match enq {
                Some(play_a) => {
                    let vol: u32;
                    let path: String;
                    let chain: ChainParams;
                    {
                        let st = self.ambient.voices.val_at(i);
                        vol = calc_ambient_volume(
                            &st.settings,
                            self.masters.ambient_master_volume,
                            self.masters.master_volume,
                            self.masters.is_ambient_muted,
                            self.masters.is_master_muted,
                            self.duck.duck_progress,
                            self.duck.duck_amount,
                        );
                        path = if play_a {
                            st.file_a.clone()
                        } else {
                            st.file_b.clone()
                        };
                        chain = ChainParams::from_settings(&st.settings);
                    }
                    let ghost mid1 = *self;
                    {
                        let st = self.ambient.voices.val_at_mut(i);
                        st.sink.set_volume(vol);
                        st.sink.append();
                    }
                    proof {
                        StrMap::<AmbientState>::lemma_update_at(
                            mid1.ambient.voices,
                            self.ambient.voices,
                            i as int,
                            self.ambient.voices.vals_view()[i as int],
                        );
                    }
                    let from_cache = path_in_cache(&self.ambient.cache, &path);
                    let id = self.ambient.voices.key_at(i).clone();
                    let ghost reqs0 = reqs@;
                    reqs.push(EnqueueRequest { id, path, chain, volume: vol, from_cache });
                    proof {
                        let ii = i as int;
                        let kid = pre.ambient.voices.keys_view()[ii];
                        assert(reqs@ == reqs0.push(reqs@[reqs@.len() - 1]));
                        assert(reqs@[reqs@.len() - 1].id@ == kid);
                        assert(req_listed(reqs@, kid)) by {
                            assert(reqs@[reqs@.len() - 1].id@ == kid);
                        }
                        assert forall|id2: Seq<char>|
                            req_listed(reqs@, id2) implies (exists|k: int|
                            0 <= k <= ii && pre.ambient.voices.keys_view()[k] == id2) by {
                            let j = choose|j: int| 0 <= j < reqs@.len() && reqs@[j].id@ == id2;
                            if j < reqs0.len() {
                                assert(req_listed(reqs0, id2));
                                let k = choose|k: int|
                                    0 <= k < ii && pre.ambient.voices.keys_view()[k] == id2;
                            } else {
                                assert(pre.ambient.voices.keys_view()[ii] == id2);
                            }
                        }
                        assert forall|id2: Seq<char>|
                            req_listed(reqs0, id2) implies req_listed(reqs@, id2) by {
                            let j = choose|j: int| 0 <= j < reqs0.len() && reqs0[j].id@ == id2;
                            assert(reqs@[j].id@ == id2);
                        }
                        assert forall|id2: Seq<char>|
                            req_listed(reqs@, id2) && id2 !== kid implies req_listed(
                            reqs0,
                            id2,
                        ) by {
                            let j = choose|j: int| 0 <= j < reqs@.len() && reqs@[j].id@ == id2;
                            assert(j < reqs0.len());
                            assert(reqs0[j].id@ == id2);
                        }
                        self.ambient.voices.lemma_at(ii);
                        assert(self.ambient.voices.value_of(kid)
                            == self.ambient.voices.vals_view()[ii]);
                        let last = reqs@[reqs@.len() - 1];
                        let post_v = self.ambient.voices.vals_view()[ii];
                        assert(post_v.is_playing_a == play_a);
                        assert(last.volume == post_v.sink.volume);
                        assert(last.chain == chain_of(post_v.settings));
                        assert(last.path@ == (if post_v.is_playing_a {
                            post_v.file_a@
                        } else {
                            post_v.file_b@
                        }));
                        assert(last.from_cache == pre.ambient.cached(last.path@));
                    }
                },
                None => {},
            }
            proof {
                let ii = i as int;
                assert forall|j: int|
                    0 <= j < reqs@.len() implies {
                    let r = #[trigger] reqs@[j];
                    &&& self.ambient.voices.has(r.id@)
                    &&& r.chain == chain_of(self.ambient.voices.value_of(r.id@).settings)
                    &&& r.volume == self.ambient.voices.value_of(r.id@).sink.volume
                    &&& r.path@ == (if self.ambient.voices.value_of(r.id@).is_playing_a {
                        self.ambient.voices.value_of(r.id@).file_a@
                    } else {
                        self.ambient.voices.value_of(r.id@).file_b@
                    })
                    &&& r.from_cache == pre.ambient.cached(r.path@)
                } by {
                    let r = reqs@[j];
                    if j < reqs_head.len() {
                        assert(reqs@[j] == reqs_head[j]);
                        assert(req_listed(reqs_head, r.id@)) by {
                            assert(reqs_head[j].id@ == r.id@);
                        }
                        let k = choose|k: int|
                            0 <= k < ii && pre.ambient.voices.keys_view()[k] == r.id@;
                        self.ambient.voices.lemma_at(k);
                        mid0.ambient.voices.lemma_at(k);
                        assert(self.ambient.voices.vals_view()[k]
                            == mid0.ambient.voices.vals_view()[k]);
                        assert(self.ambient.voices.value_of(r.id@)
                            == mid0.ambient.voices.value_of(r.id@));
                    } else {
                        assert(j == reqs@.len() - 1);
                    }
                }
            }
            i += 1;
        }
        proof {
            assert forall|id: Seq<char>|
                #[trigger] pre.ambient.voices.has(id) && !req_listed(reqs@, id)
                    implies ab_step_rel(
                pre.ambient.voices.value_of(id),
                self.ambient.voices.value_of(id),
                None,
            ) by {
                let k = pre.ambient.voices.index_of(id);
                pre.ambient.voices.lemma_at(k);
                self.ambient.voices.lemma_at(k);
            }
            assert forall|id: Seq<char>|
                #[trigger] pre.ambient.voices.has(id) && req_listed(reqs@, id) implies {
                let pre_v = pre.ambient.voices.value_of(id);
                let post_v = self.ambient.voices.value_of(id);
                &&& ab_step_rel(
                    pre_v,
                    AmbientState { sink: pre_v.sink, ..post_v },
                    Some(post_v.is_playing_a),
                )
                &&& post_v.sink.empty == false
                &&& post_v.sink.paused == pre_v.sink.paused
                &&& ambient_gain_matches(
                    post_v,
                    pre.masters,
                    pre.duck.duck_progress,
                    pre.duck.duck_amount,
                    post_v.sink.volume,
                )
            } by {
                let k = pre.ambient.voices.index_of(id);
                pre.ambient.voices.lemma_at(k);
                self.ambient.voices.lemma_at(k);
            }
        }
        reqs
    }

    /// The periodic work of a tick that saw no command: every fade table
    /// advances one step — finished fade-outs remove their voices and
    /// records for good, finished fade-ins settle at full gain — volume
    /// transitions move and snap, and every voice's A/B machine runs.
    /// Whatever a fade still covers carries a partial gain; and once a
    /// fade-out entry has spent its steps, its id is gone from the
    /// engine: a stopped voice leaves within the fade's step count.
    pub fn idle_tick(&mut self) -> (reqs: Vec<EnqueueRequest>)
        requires
            old(self).wf(),
        ensures
            final(self).wf(),
            final(self).masters == old(self).masters,
            final(self).music == old(self).music,
            final(self).duck == old(self).duck,
            final(self).sched == old(self).sched,
            final(self).collab == old(self).collab,
            final(self).snap == old(self).snap,
            final(self).ambient.cache == old(self).ambient.cache,
            forall|id: Seq<char>|
                old(self).ambient.fading_out.has(id) && old(self).ambient.fading_out.value_of(id)
                    + 1 >= FADE_STEPS ==> !final(self).ambient.voices.has(id)
                    && !final(self).ambient.fading_out.has(id),
            forall|id: Seq<char>|
                old(self).ambient.s_fading_out.has(id) && old(self).ambient.s_fading_out.value_of(id) + 1 >= SCHEDULER_FADE_STEPS ==> !final(self).ambient.voices.has(id) && !final(self).ambient.s_fading_out.has(id),
            forall|id: Seq<char>|
                #[trigger] final(self).ambient.voices.has(id) ==> old(self).ambient.voices.has(
                    id,
                ),
            forall|id: Seq<char>|
                #[trigger] old(self).ambient.voices.has(id) && !(old(self).ambient.fading_out.has(id) && old(self).ambient.fading_out.value_of(id) + 1
                    >= FADE_STEPS) && !(old(self).ambient.s_fading_out.has(id) && old(self).ambient.s_fading_out.value_of(id) + 1 >= SCHEDULER_FADE_STEPS) ==> final(self).ambient.voices.has(id),
            forall|id: Seq<char>|
                final(self).ambient.fading_out.has(id) <==> (old(self).ambient.fading_out.has(id)
                    && old(self).ambient.fading_out.value_of(id) + 1 < FADE_STEPS),
            forall|id: Seq<char>|
                final(self).ambient.fading_in.has(id) <==> (old(self).ambient.fading_in.has(id)
                    && old(self).ambient.fading_in.value_of(id) + 1 < FADE_STEPS),
            crate::fades::fade_table_step(
                old(self).ambient.fading_out,
                final(self).ambient.fading_out,
                FADE_STEPS,
            ),
            crate::fades::fade_table_step(
                old(self).ambient.fading_in,
                final(self).ambient.fading_in,
                FADE_STEPS,
            ),
            crate::fades::fade_table_step(
                old(self).ambient.s_fading_out,
                final(self).ambient.s_fading_out,
                SCHEDULER_FADE_STEPS,
            ),
            crate::fades::fade_table_step(
                old(self).ambient.s_fading_in,
                final(self).ambient.s_fading_in,
                SCHEDULER_FADE_STEPS,
            ),
            forall|j: int|
                0 <= j < reqs@.len() ==> {
                    let r = #[trigger] reqs@[j];
                    &&& final(self).ambient.voices.has(r.id@)
                    &&& r.chain == chain_of(final(self).ambient.voices.value_of(r.id@).settings)
                    &&& r.volume == final(self).ambient.voices.value_of(r.id@).sink.volume
                    &&& r.path@ == (if final(self).ambient.voices.value_of(r.id@).is_playing_a {
                        final(self).ambient.voices.value_of(r.id@).file_a@
                    } else {
                        final(self).ambient.voices.value_of(r.id@).file_b@
                    })
                    &&& ambient_gain_matches(
                        final(self).ambient.voices.value_of(r.id@),
                        old(self).masters,
                        old(self).duck.duck_progress,
                        old(self).duck.duck_amount,
                        r.volume,
                    )
                    &&& r.from_cache == old(self).ambient.cached(r.path@)
                },
            forall|id: Seq<char>|
                #[trigger] final(self).ambient.voices.has(id) && !req_listed(reqs@, id)
                    ==> ab_step_rel(
                    machine_view(old(self).ambient.voices.value_of(id)),
                    machine_view(final(self).ambient.voices.value_of(id)),
                    Option::<bool>::None,
                ),
            forall|id: Seq<char>|
                #[trigger] final(self).ambient.voices.has(id) && req_listed(reqs@, id) ==> {
                    let pre_v = old(self).ambient.voices.value_of(id);
                    let post_v = final(self).ambient.voices.value_of(id);
                    &&& ab_step_rel(
                        machine_view(pre_v),
                        (AmbientState { sink: machine_view(pre_v).sink, ..post_v }),
                        Some(post_v.is_playing_a),
                    )
                    &&& !post_v.sink.empty
                },
            forall|id: Seq<char>|
                #[trigger] user_transition_runs(*old(self), id) && clear_of_scheduler_tables(
                    *old(self),
                    id,
                ) && !req_listed(reqs@, id) ==> {
                    let cur = old(self).ambient.transitions.value_of(id).0;
                    let target = old(self).ambient.transitions.value_of(id).1;
                    if abs_diff_u32(cur, target) < 10 {
                        &&& !final(self).ambient.transitions.has(id)
                        &&& final(self).ambient.voices.value_of(id).sink.volume == target
                    } else {
                        &&& final(self).ambient.transitions.has(id)
                        &&& final(self).ambient.transitions.value_of(id) == (
                        move_toward(cur, target, VOLUME_TRANSITION_SPEED), target)
                        &&& final(self).ambient.voices.value_of(id).sink.volume == move_toward(
                            cur,
                            target,
                            VOLUME_TRANSITION_SPEED,
                        )
                    }
                },
            forall|id: Seq<char>|
                #[trigger] user_fade_gain_applies(*old(self), id, false)
                    && clear_of_scheduler_tables(*old(self), id) && !old(self).ambient.transitions.has(id) && !req_listed(reqs@, id) ==> final(self).ambient.voices.value_of(id).sink.volume == milli_mul(
                    base_gain_of(*old(self), id) as u32,
                    fade_mult_milli(
                        (old(self).ambient.fading_out.value_of(id) + 1) as u32,
                        FADE_STEPS,
                        false,
                    ) as u32,
                ),
            forall|id: Seq<char>|
                #[trigger] user_fade_gain_applies(*old(self), id, true)
                    && clear_of_scheduler_tables(*old(self), id) && !req_listed(reqs@, id)
                    ==> final(self).ambient.voices.value_of(id).sink.volume == milli_mul(
                    base_gain_of(*old(self), id) as u32,
                    fade_mult_milli(
                        (old(self).ambient.fading_in.value_of(id) + 1) as u32,
                        FADE_STEPS,
                        true,
                    ) as u32,
                ),
    {
        let done_out = advance_fades(&mut self.ambient.fading_out, FADE_STEPS);
        self.remove_listed_voices(&done_out);
        let ghost g1 = *self;
        let out_entries: Vec<(String, u32)>;
        {
            out_entries = fade_entries(&self.ambient.fading_out);
        }
        self.scale_listed_volumes(&out_entries, FADE_STEPS, false);
        let ghost g2 = *self;
        let done_in = advance_fades(&mut self.ambient.fading_in, FADE_STEPS);
        let ghost g3 = *self;
        let in_entries = fade_entries(&self.ambient.fading_in);
        self.scale_listed_volumes(&in_entries, FADE_STEPS, true);
        let ghost g4 = *self;
        let full: Vec<(String, u32)> = full_entries(&done_in);
        self.scale_listed_volumes(&full, 1, true);
        let ghost g5 = *self;
        self.advance_transitions_of(false);
        let ghost g6 = *self;
        let s_done_out = advance_fades(&mut self.ambient.s_fading_out, SCHEDULER_FADE_STEPS);
        let ghost g7 = *self;
        self.remove_listed_voices(&s_done_out);
        proof {
            assert(forall|id: Seq<char>|
                str_vec_has(s_done_out@, id) ==> !self.ambient.voices.has(id));
        }
        let ghost g8 = *self;
        let s_out_entries = fade_entries(&self.ambient.s_fading_out);
        self.scale_listed_volumes(&s_out_entries, SCHEDULER_FADE_STEPS, false);
        let ghost g9 = *self;
        let s_done_in = advance_fades(&mut self.ambient.s_fading_in, SCHEDULER_FADE_STEPS);
        let ghost g10 = *self;
        let s_in_entries = fade_entries(&self.ambient.s_fading_in);
        self.scale_listed_volumes(&s_in_entries, SCHEDULER_FADE_STEPS, true);
        let ghost g11 = *self;
        let s_full: Vec<(String, u32)> = full_entries(&s_done_in);
        self.scale_listed_volumes(&s_full, 1, true);
        let ghost g12 = *self;
        self.advance_transitions_of(true);
        let ghost g13 = *self;
        let reqs = self.ab_machine();
        proof {
            assert(g1.ambient.fading_out == self.ambient.fading_out);
            assert(g2.ambient.fading_in == old(self).ambient.fading_in);
            assert(g3.ambient.fading_in == self.ambient.fading_in);
            assert(g6.ambient.s_fading_out == old(self).ambient.s_fading_out);
            assert(g7.ambient.s_fading_out == self.ambient.s_fading_out);
            assert(g9.ambient.s_fading_in == old(self).ambient.s_fading_in);
            assert(g10.ambient.s_fading_in == self.ambient.s_fading_in);
            assert forall|id: Seq<char>|
                #[trigger] old(self).ambient.voices.has(id) && !(old(self).ambient.fading_out.has(id) && old(self).ambient.fading_out.value_of(id) + 1
                    >= FADE_STEPS) && !(old(self).ambient.s_fading_out.has(id) && old(self).ambient.s_fading_out.value_of(id) + 1 >= SCHEDULER_FADE_STEPS)
                    implies self.ambient.voices.has(id) by {
                assert(!str_vec_has(done_out@, id));
                assert(g1.ambient.voices.has(id));
                assert(g2.ambient.voices.has(id));
                assert(g3.ambient.voices.has(id));
                assert(g4.ambient.voices.has(id));
                assert(g5.ambient.voices.has(id));
                assert(g6.ambient.voices.has(id));
                assert(g6.ambient.s_fading_out == old(self).ambient.s_fading_out);
                assert(!str_vec_has(s_done_out@, id));
                assert(g7.ambient.voices.has(id));
                assert(g8.ambient.voices.has(id));
                assert(g9.ambient.voices.has(id));
                assert(g10.ambient.voices.has(id));
                assert(g11.ambient.voices.has(id));
                assert(g12.ambient.voices.has(id));
                assert(g13.ambient.voices.has(id));
            }
            assert forall|id: Seq<char>|
                old(self).ambient.fading_out.has(id) && old(self).ambient.fading_out.value_of(id)
                    + 1 >= FADE_STEPS implies !self.ambient.voices.has(id)
                && !self.ambient.fading_out.has(id) by {
                assert(str_vec_has(done_out@, id));
                assert(!g1.ambient.voices.has(id));
                assert(!g2.ambient.voices.has(id));
                assert(!g3.ambient.voices.has(id));
                assert(!g4.ambient.voices.has(id));
                assert(!g5.ambient.voices.has(id));
                assert(!g6.ambient.voices.has(id));
                assert(!g7.ambient.voices.has(id));
                assert(!g8.ambient.voices.has(id)) by {
                    if str_vec_has(s_done_out@, id) {
                    } else {
                    }
                }
                assert(!g9.ambient.voices.has(id));
                assert(!g10.ambient.voices.has(id));
                assert(!g11.ambient.voices.has(id));
                assert(!g12.ambient.voices.has(id));
                assert(!g13.ambient.voices.has(id));
                assert(!g1.ambient.fading_out.has(id));
                assert(!g13.ambient.fading_out.has(id));
            }
            assert forall|id: Seq<char>| #[trigger] self.ambient.voices.has(id) implies {
                &&& g13.ambient.voices.has(id)
                &&& old(self).ambient.voices.has(id)
                &&& machine_view(g13.ambient.voices.value_of(id)) == machine_view(
                    old(self).ambient.voices.value_of(id),
                )
            } by {
                assert(g13.ambient.voices.has(id));
                assert(g12.ambient.voices.has(id));
                assert(g11.ambient.voices.has(id));
                assert(g10.ambient.voices.has(id));
                assert(g9.ambient.voices.has(id));
                assert(g8.ambient.voices.has(id));
                assert(g7.ambient.voices.has(id)) by {
                    if str_vec_has(s_done_out@, id) {
                    } else {
                    }
                }
                assert(g6.ambient.voices.has(id));
                assert(g5.ambient.voices.has(id));
                assert(g4.ambient.voices.has(id));
                assert(g3.ambient.voices.has(id));
                assert(g2.ambient.voices.has(id));
                assert(g1.ambient.voices.has(id));
                assert(old(self).ambient.voices.has(id)) by {
                    if str_vec_has(done_out@, id) {
                    } else {
                    }
                }
                assert(g1.ambient.voices.value_of(id) == old(self).ambient.voices.value_of(id))
                    by {
                    if str_vec_has(done_out@, id) {
                    } else {
                    }
                }
                assert(machine_view(g2.ambient.voices.value_of(id)) == machine_view(
                    g1.ambient.voices.value_of(id),
                ));
                assert(g3.ambient.voices.value_of(id) == g2.ambient.voices.value_of(id));
                assert(machine_view(g4.ambient.voices.value_of(id)) == machine_view(
                    g3.ambient.voices.value_of(id),
                ));
                assert(machine_view(g5.ambient.voices.value_of(id)) == machine_view(
                    g4.ambient.voices.value_of(id),
                ));
                assert(machine_view(g6.ambient.voices.value_of(id)) == machine_view(
                    g5.ambient.voices.value_of(id),
                ));
                assert(g7.ambient.voices.value_of(id) == g6.ambient.voices.value_of(id));
                assert(g8.ambient.voices.value_of(id) == g7.ambient.voices.value_of(id)) by {
                    if str_vec_has(s_done_out@, id) {
                    } else {
                    }
                }
                assert(machine_view(g9.ambient.voices.value_of(id)) == machine_view(
                    g8.ambient.voices.value_of(id),
                ));
                assert(g10.ambient.voices.value_of(id) == g9.ambient.voices.value_of(id));
                assert(machine_view(g11.ambient.voices.value_of(id)) == machine_view(
                    g10.ambient.voices.value_of(id),
                ));
                assert(machine_view(g12.ambient.voices.value_of(id)) == machine_view(
                    g11.ambient.voices.value_of(id),
                ));
                assert(machine_view(g13.ambient.voices.value_of(id)) == machine_view(
                    g12.ambient.voices.value_of(id),
                ));
            }
            assert forall|id: Seq<char>|
                #[trigger] self.ambient.voices.has(id) && !req_listed(reqs@, id)
                    implies ab_step_rel(
                machine_view(old(self).ambient.voices.value_of(id)),
                machine_view(self.ambient.voices.value_of(id)),
                Option::<bool>::None,
            ) by {
                lemma_ab_step_machine_view(
                    g13.ambient.voices.value_of(id),
                    self.ambient.voices.value_of(id),
                    Option::<bool>::None,
                );
            }
            assert forall|id: Seq<char>|
                #[trigger] self.ambient.voices.has(id) && req_listed(reqs@, id) implies {
                let pre_v = old(self).ambient.voices.value_of(id);
                let post_v = self.ambient.voices.value_of(id);
                &&& ab_step_rel(
                    machine_view(pre_v),
                    (AmbientState { sink: machine_view(pre_v).sink, ..post_v }),
                    Some(post_v.is_playing_a),
                )
                &&& !post_v.sink.empty
            } by {
                let pre13 = g13.ambient.voices.value_of(id);
                let post_v = self.ambient.voices.value_of(id);
                let mid = AmbientState { sink: pre13.sink, ..post_v };
                lemma_ab_step_machine_view(pre13, mid, Some(post_v.is_playing_a));
                assert(machine_view(mid) == (AmbientState {
                    sink: machine_view(old(self).ambient.voices.value_of(id)).sink,
                    ..post_v
                }));
            }
            assert forall|id: Seq<char>|
                #[trigger] user_transition_runs(*old(self), id) && clear_of_scheduler_tables(
                    *old(self),
                    id,
                ) && !req_listed(reqs@, id) implies {
                let cur = old(self).ambient.transitions.value_of(id).0;
                let target = old(self).ambient.transitions.value_of(id).1;
                if abs_diff_u32(cur, target) < 10 {
                    &&& !self.ambient.transitions.has(id)
                    &&& self.ambient.voices.value_of(id).sink.volume == target
                } else {
                    &&& self.ambient.transitions.has(id)
                    &&& self.ambient.transitions.value_of(id) == (
                    move_toward(cur, target, VOLUME_TRANSITION_SPEED), target)
                    &&& self.ambient.voices.value_of(id).sink.volume == move_toward(
                        cur,
                        target,
                        VOLUME_TRANSITION_SPEED,
                    )
                }
            } by {
                assert(g1.ambient.voices.has(id)) by {
                    if str_vec_has(done_out@, id) {
                    } else {
                    }
                }
                assert(g2.ambient.voices.has(id));
                assert(g3.ambient.voices.has(id));
                assert(g4.ambient.voices.has(id));
                assert(g5.ambient.voices.has(id));
                assert(trans_table(g5, false) == old(self).ambient.transitions);
                assert(fadein_table(g5, false) == g3.ambient.fading_in);
                assert(!fadein_table(g5, false).has(id));
                assert(transition_active(g5, false, id));
                let cur = old(self).ambient.transitions.value_of(id).0;
                let target = old(self).ambient.transitions.value_of(id).1;
                assert(g6.ambient.voices.has(id));
                assert(!str_vec_has(s_done_out@, id)) by {
                    if str_vec_has(s_done_out@, id) {
                        assert(g6.ambient.s_fading_out.has(id));
                    }
                }
                assert(g7.ambient.voices.value_of(id) == g6.ambient.voices.value_of(id));
                assert(g8.ambient.voices.value_of(id) == g7.ambient.voices.value_of(id));
                assert(!listed_entry(s_out_entries@, id)) by {
                    if listed_entry(s_out_entries@, id) {
                        let k = choose|k: int|
                            0 <= k < s_out_entries@.len() && s_out_entries@[k].0@ == id;
                        assert(g8.ambient.s_fading_out.keys_view()[k] == id);
                        g8.ambient.s_fading_out.lemma_at(k);
                        assert(g8.ambient.s_fading_out.has(id));
                    }
                }
                assert(g9.ambient.voices.value_of(id) == g8.ambient.voices.value_of(id));
                assert(g10.ambient.voices.value_of(id) == g9.ambient.voices.value_of(id));
                assert(!listed_entry(s_in_entries@, id)) by {
                    if listed_entry(s_in_entries@, id) {
                        let k = choose|k: int|
                            0 <= k < s_in_entries@.len() && s_in_entries@[k].0@ == id;
                        assert(g10.ambient.s_fading_in.keys_view()[k] == id);
                        g10.ambient.s_fading_in.lemma_at(k);
                        assert(g10.ambient.s_fading_in.has(id));
                    }
                }
                assert(g11.ambient.voices.value_of(id) == g10.ambient.voices.value_of(id));
                assert(!listed_entry(s_full@, id)) by {
                    if listed_entry(s_full@, id) {
                        let k = choose|k: int|
                            0 <= k < s_full@.len() && s_full@[k].0@ == id;
                        assert(str_vec_has(s_done_in@, id)) by {
                            assert(s_done_in@[k]@ == id);
                        }
                        assert(g10.ambient.s_fading_in.has(id) || old(self).ambient.s_fading_in.has(id));
                    }
                }
                assert(g12.ambient.voices.value_of(id) == g11.ambient.voices.value_of(id));
                assert(transition_untouched(g12, true, id));
                assert(g13.ambient.voices.value_of(id) == g12.ambient.voices.value_of(id));
                assert(self.ambient.voices.has(id));
                assert(self.ambient.voices.value_of(id).sink
                    == g13.ambient.voices.value_of(id).sink) by {
                    assert(ab_step_rel(
                        g13.ambient.voices.value_of(id),
                        self.ambient.voices.value_of(id),
                        Option::<bool>::None,
                    ));
                }
                assert(self.ambient.transitions == g6.ambient.transitions);
            }
            assert forall|id: Seq<char>|
                #[trigger] user_fade_gain_applies(*old(self), id, false)
                    && clear_of_scheduler_tables(*old(self), id) && !old(self).ambient.transitions.has(id) && !req_listed(reqs@, id)
                    implies self.ambient.voices.value_of(id).sink.volume == milli_mul(
                base_gain_of(*old(self), id) as u32,
                fade_mult_milli(
                    (old(self).ambient.fading_out.value_of(id) + 1) as u32,
                    FADE_STEPS,
                    false,
                ) as u32,
            ) by {
                assert(g1.ambient.voices.has(id)) by {
                    if str_vec_has(done_out@, id) {
                    } else {
                    }
                }
                assert(g1.ambient.voices.value_of(id) == old(self).ambient.voices.value_of(id))
                    by {
                    if str_vec_has(done_out@, id) {
                    } else {
                    }
                }
                assert(g1.ambient.fading_out.has(id) && g1.ambient.fading_out.value_of(id)
                    == old(self).ambient.fading_out.value_of(id) + 1);
                let k = g1.ambient.fading_out.index_of(id);
                g1.ambient.fading_out.lemma_at(k);
                assert(out_entries@[k].0@ == id && out_entries@[k].1
                    == g1.ambient.fading_out.value_of(id));
                assert(listed_entry(out_entries@, id)) by {
                    assert(out_entries@[k].0@ == id);
                }
                assert(g2.ambient.voices.value_of(id).sink.volume == milli_mul(
                    base_gain_of(*old(self), id) as u32,
                    fade_mult_milli(
                        (old(self).ambient.fading_out.value_of(id) + 1) as u32,
                        FADE_STEPS,
                        false,
                    ) as u32,
                ));
                assert(g3.ambient.voices.value_of(id) == g2.ambient.voices.value_of(id));
                assert(!listed_entry(in_entries@, id)) by {
                    if listed_entry(in_entries@, id) {
                        let t = choose|t: int|
                            0 <= t < in_entries@.len() && in_entries@[t].0@ == id;
                        assert(g3.ambient.fading_in.keys_view()[t] == id);
                        g3.ambient.fading_in.lemma_at(t);
                        assert(g3.ambient.fading_in.has(id));
                    }
                }
                assert(g4.ambient.voices.value_of(id) == g3.ambient.voices.value_of(id));
                assert(!listed_entry(full@, id)) by {
                    if listed_entry(full@, id) {
                        let t = choose|t: int| 0 <= t < full@.len() && full@[t].0@ == id;
                        assert(str_vec_has(done_in@, id)) by {
                            assert(done_in@[t]@ == id);
                        }
                    }
                }
                assert(g5.ambient.voices.value_of(id) == g4.ambient.voices.value_of(id));
                assert(trans_table(g5, false) == old(self).ambient.transitions);
                assert(transition_untouched(g5, false, id));
                assert(g6.ambient.voices.value_of(id) == g5.ambient.voices.value_of(id));
                assert(!str_vec_has(s_done_out@, id)) by {
                    if str_vec_has(s_done_out@, id) {
                        assert(g6.ambient.s_fading_out.has(id));
                    }
                }
                assert(g7.ambient.voices.value_of(id) == g6.ambient.voices.value_of(id));
                assert(g8.ambient.voices.value_of(id) == g7.ambient.voices.value_of(id));
                assert(!listed_entry(s_out_entries@, id)) by {
                    if listed_entry(s_out_entries@, id) {
                        let t = choose|t: int|
                            0 <= t < s_out_entries@.len() && s_out_entries@[t].0@ == id;
                        assert(g8.ambient.s_fading_out.keys_view()[t] == id);
                        g8.ambient.s_fading_out.lemma_at(t);
                        assert(g8.ambient.s_fading_out.has(id));
                    }
                }
                assert(g9.ambient.voices.value_of(id) == g8.ambient.voices.value_of(id));
                assert(g10.ambient.voices.value_of(id) == g9.ambient.voices.value_of(id));
                assert(!listed_entry(s_in_entries@, id)) by {
                    if listed_entry(s_in_entries@, id) {
                        let t = choose|t: int|
                            0 <= t < s_in_entries@.len() && s_in_entries@[t].0@ == id;
                        assert(g10.ambient.s_fading_in.keys_view()[t] == id);
                        g10.ambient.s_fading_in.lemma_at(t);
                        assert(g10.ambient.s_fading_in.has(id));
                    }
                }
                assert(g11.ambient.voices.value_of(id) == g10.ambient.voices.value_of(id));
                assert(!listed_entry(s_full@, id)) by {
                    if listed_entry(s_full@, id) {
                        let t = choose|t: int| 0 <= t < s_full@.len() && s_full@[t].0@ == id;
                        assert(str_vec_has(s_done_in@, id)) by {
                            assert(s_done_in@[t]@ == id);
                        }
                        assert(g10.ambient.s_fading_in.has(id) || old(self).ambient.s_fading_in.has(id));
                    }
                }
                assert(g12.ambient.voices.value_of(id) == g11.ambient.voices.value_of(id));
                assert(transition_untouched(g12, true, id));
                assert(g13.ambient.voices.value_of(id) == g12.ambient.voices.value_of(id));
                assert(self.ambient.voices.value_of(id).sink
                    == g13.ambient.voices.value_of(id).sink) by {
                    assert(ab_step_rel(
                        g13.ambient.voices.value_of(id),
                        self.ambient.voices.value_of(id),
                        Option::<bool>::None,
                    ));
                }
            }
            assert forall|id: Seq<char>|
                #[trigger] user_fade_gain_applies(*old(self), id, true)
                    && clear_of_scheduler_tables(*old(self), id) && !req_listed(reqs@, id)
                    implies self.ambient.voices.value_of(id).sink.volume == milli_mul(
                base_gain_of(*old(self), id) as u32,
                fade_mult_milli(
                    (old(self).ambient.fading_in.value_of(id) + 1) as u32,
                    FADE_STEPS,
                    true,
                ) as u32,
            ) by {
                assert(g1.ambient.voices.has(id)) by {
                    if str_vec_has(done_out@, id) {
                    } else {
                    }
                }
                assert(g1.ambient.voices.value_of(id) == old(self).ambient.voices.value_of(id))
                    by {
                    if str_vec_has(done_out@, id) {
                    } else {
                    }
                }
                assert(machine_view(g2.ambient.voices.value_of(id)) == machine_view(
                    g1.ambient.voices.value_of(id),
                ));
                assert(g2.ambient.voices.value_of(id).settings
                    == old(self).ambient.voices.value_of(id).settings);
                assert(g3.ambient.voices.value_of(id) == g2.ambient.voices.value_of(id));
                assert(g3.ambient.fading_in.has(id) && g3.ambient.fading_in.value_of(id)
                    == old(self).ambient.fading_in.value_of(id) + 1);
                let k = g3.ambient.fading_in.index_of(id);
                g3.ambient.fading_in.lemma_at(k);
                assert(in_entries@[k].0@ == id && in_entries@[k].1
                    == g3.ambient.fading_in.value_of(id));
                assert(listed_entry(in_entries@, id)) by {
                    assert(in_entries@[k].0@ == id);
                }
                assert(g4.ambient.voices.value_of(id).sink.volume == milli_mul(
                    base_gain_of(*old(self), id) as u32,
                    fade_mult_milli(
                        (old(self).ambient.fading_in.value_of(id) + 1) as u32,
                        FADE_STEPS,
                        true,
                    ) as u32,
                ));
                assert(!listed_entry(full@, id)) by {
                    if listed_entry(full@, id) {
                        let t = choose|t: int| 0 <= t < full@.len() && full@[t].0@ == id;
                        assert(str_vec_has(done_in@, id)) by {
                            assert(done_in@[t]@ == id);
                        }
                    }
                }
                assert(g5.ambient.voices.value_of(id) == g4.ambient.voices.value_of(id));
                assert(fadein_table(g5, false) == g3.ambient.fading_in);
                assert(transition_untouched(g5, false, id) || transition_skipped(
                    g5,
                    false,
                    id,
                ));
                assert(g6.ambient.voices.value_of(id) == g5.ambient.voices.value_of(id));
                assert(!str_vec_has(s_done_out@, id)) by {
                    if str_vec_has(s_done_out@, id) {
                        assert(g6.ambient.s_fading_out.has(id));
                    }
                }
                assert(g7.ambient.voices.value_of(id) == g6.ambient.voices.value_of(id));
                assert(g8.ambient.voices.value_of(id) == g7.ambient.voices.value_of(id));
                assert(!listed_entry(s_out_entries@, id)) by {
                    if listed_entry(s_out_entries@, id) {
                        let t = choose|t: int|
                            0 <= t < s_out_entries@.len() && s_out_entries@[t].0@ == id;
                        assert(g8.ambient.s_fading_out.keys_view()[t] == id);
                        g8.ambient.s_fading_out.lemma_at(t);
                        assert(g8.ambient.s_fading_out.has(id));
                    }
                }
                assert(g9.ambient.voices.value_of(id) == g8.ambient.voices.value_of(id));
                assert(g10.ambient.voices.value_of(id) == g9.ambient.voices.value_of(id));
                assert(!listed_entry(s_in_entries@, id)) by {
                    if listed_entry(s_in_entries@, id) {
                        let t = choose|t: int|
                            0 <= t < s_in_entries@.len() && s_in_entries@[t].0@ == id;
                        assert(g10.ambient.s_fading_in.keys_view()[t] == id);
                        g10.ambient.s_fading_in.lemma_at(t);
                        assert(g10.ambient.s_fading_in.has(id));
                    }
                }
                assert(g11.ambient.voices.value_of(id) == g10.ambient.voices.value_of(id));
                assert(!listed_entry(s_full@, id)) by {
                    if listed_entry(s_full@, id) {
                        let t = choose|t: int| 0 <= t < s_full@.len() && s_full@[t].0@ == id;
                        assert(str_vec_has(s_done_in@, id)) by {
                            assert(s_done_in@[t]@ == id);
                        }
                        assert(g10.ambient.s_fading_in.has(id) || old(self).ambient.s_fading_in.has(id));
                    }
                }
                assert(g12.ambient.voices.value_of(id) == g11.ambient.voices.value_of(id));
                assert(transition_untouched(g12, true, id));
                assert(g13.ambient.voices.value_of(id) == g12.ambient.voices.value_of(id));
                assert(self.ambient.voices.value_of(id).sink
                    == g13.ambient.voices.value_of(id).sink) by {
                    assert(ab_step_rel(
                        g13.ambient.voices.value_of(id),
                        self.ambient.voices.value_of(id),
                        Option::<bool>::None,
                    ));
                }
            }
            assert forall|id: Seq<char>|
                old(self).ambient.s_fading_out.has(id) && old(self).ambient.s_fading_out.value_of(id) + 1 >= SCHEDULER_FADE_STEPS
                    implies !self.ambient.voices.has(id) && !self.ambient.s_fading_out.has(
                id,
            ) by {
                assert(g6.ambient.s_fading_out == old(self).ambient.s_fading_out);
                assert(str_vec_has(s_done_out@, id));
                assert(!g8.ambient.voices.has(id));
                assert(!g9.ambient.voices.has(id));
                assert(!g10.ambient.voices.has(id));
                assert(!g11.ambient.voices.has(id));
                assert(!g12.ambient.voices.has(id));
                assert(!g13.ambient.voices.has(id));
                assert(!g7.ambient.s_fading_out.has(id));
                assert(!g13.ambient.s_fading_out.has(id));
            }
        }
        reqs
    }
}

/// Pair each finished fade-in id with one full step, so the settling
/// pass writes the full gain.
fn full_entries(ids: &Vec<String>) -> (r: Vec<(String, u32)>)
    ensures
        r@.len() == ids@.len(),
        forall|k: int|
            0 <= k < r@.len() ==> (#[trigger] r@[k]).0@ == ids@[k]@ && r@[k].1 == 1
                && r@[k].1 <= 1000000,
{
    let n = ids.len();
    let mut r: Vec<(String, u32)> = Vec::new();
    let mut i: usize = 0;
    while i < n
        invariant
            n == ids@.len(),
            i <= n,
            r@.len() == i,
            forall|k: int|
                0 <= k < i ==> (#[trigger] r@[k]).0@ == ids@[k]@ && r@[k].1 == 1
                    && r@[k].1 <= 1000000,
        decreases n - i,
    {
        r.push((ids[i].clone(), 1));
        i += 1;
    }
    r
}

/// The ducking state after this tick's drain observation and soundboard
/// end check: a drained clip is cleared and sends the attenuation home.
pub open spec fn duck_after_checks(d: DuckCtl, soundboard_empty: bool) -> DuckCtl {
    if d.soundboard_sink is Some && soundboard_empty {
        DuckCtl {
            soundboard_sink: None,
            soundboard_playing: false,
            duck_target: 0u32,
            ..d
        }
    } else {
        DuckCtl {
            soundboard_sink: match d.soundboard_sink {
                Some(sk) => Some(SinkModel { empty: soundboard_empty, ..sk }),
                None => None,
            },
            ..d
        }
    }
}

/// Some ambient voice will be audible once this tick's drain reports are
/// taken: it is not inside a pause and its sink was not reported drained.
pub open spec fn tick_has_audible(e: Engine, drained: Seq<String>) -> bool {
    exists|id: Seq<char>|
        #![trigger e.ambient.voices.has(id)]
        e.ambient.voices.has(id) && !e.ambient.voices.value_of(id).is_paused && !str_vec_has(
            drained,
            id,
        )
}

/// The audible count is positive exactly when some voice passes the
/// audibility test.
pub proof fn lemma_audible_count_exists(voices: Seq<AmbientState>)
    ensures
        (audible_count(voices) > 0) <==> (exists|k: int|
            0 <= k < voices.len() && !(#[trigger] voices[k]).is_paused
                && !voices[k].sink.empty),
    decreases voices.len(),
{
    reveal(Seq::filter);
    let pred = |st: AmbientState| !st.is_paused && !st.sink.empty;
    if voices.len() == 0 {
    } else {
        lemma_audible_count_exists(voices.drop_last());
        if pred(voices.last()) {
            assert(0 <= voices.len() - 1 < voices.len() && !voices[voices.len()
                - 1].is_paused && !voices[voices.len() - 1].sink.empty);
        } else {
            if audible_count(voices) > 0 {
                let k = choose|k: int|
                    0 <= k < voices.drop_last().len() && !(
                    #[trigger] voices.drop_last()[k]).is_paused
                        && !voices.drop_last()[k].sink.empty;
                assert(voices[k] == voices.drop_last()[k]);
                assert(!voices[k].is_paused && !voices[k].sink.empty);
            }
            if exists|k: int|
                0 <= k < voices.len() && !(#[trigger] voices[k]).is_paused
                    && !voices[k].sink.empty {
                let k = choose|k: int|
                    0 <= k < voices.len() && !(#[trigger] voices[k]).is_paused
                        && !voices[k].sink.empty;
                assert(k < voices.len() - 1);
                assert(voices.drop_last()[k] == voices[k]);
                assert(audible_count(voices.drop_last()) > 0);
            }
        }
    }
}

/// What one tick hands back to its caller: a preset file to read, and
/// the sources to decode and queue.
#[derive(Debug)]
pub struct TickOutcome {
    /// A preset id whose file the caller must read and apply.
    pub load_preset: Option<String>,
    /// Sources to decode and append to ambient sinks.
    pub enqueues: Vec<EnqueueRequest>,
}

impl Engine {
    /// One fifty-millisecond tick, in the engine's fixed order: take the
    /// device's drain reports, count the scheduler, install a queued
    /// automatic advance, check the soundboard, interpolate ducking, run
    /// the music fades, advance progress and detect the end of a track,
    /// publish the visualization, and — on a tick that carried no
    /// command — run the fades, transitions and every A/B machine. When a
    /// command arrived, the caller applies it through the matching
    /// handler after this returns, in place of the idle work. The
    /// contract carries the tick's surface: the scheduler count, the
    /// ducking move, the published spectra, the fade tables' step
    /// relation with the removal of spent fade-outs, and the enqueue
    /// requests' pairing with their voices.
    #[verifier::rlimit(100)]
    pub fn tick(
        &mut self,
        music_empty: bool,
        soundboard_empty: bool,
        drained: &Vec<String>,
        pending_decode_ms: Option<u64>,
        music_bins: &Vec<u32>,
        ambient_bins: &Vec<u32>,
        idle: bool,
    ) -> (outcome: TickOutcome)
        requires
            old(self).wf(),
            music_bins@.len() == 64,
            ambient_bins@.len() == 64,
            match pending_decode_ms {
                Some(d) => d <= ELAPSED_CEILING_MS,
                None => true,
            },
        ensures
            final(self).wf(),
            final(self).masters == old(self).masters,
            final(self).collab.playlists == old(self).collab.playlists,
            final(self).collab.all_tracks == old(self).collab.all_tracks,
            final(self).sched.pending_preset is None,
            old(self).sched.tick_counter + 1 < SCHEDULER_TICKS_PER_SECOND ==> {
                &&& final(self).sched.tick_counter == old(self).sched.tick_counter + 1
                &&& final(self).sched.state == old(self).sched.state
                &&& match outcome.load_preset {
                    Some(p) => old(self).sched.pending_preset is Some && p@ == old(self).sched.pending_preset->0@,
                    None => old(self).sched.pending_preset is None,
                }
            },
            final(self).duck == (DuckCtl {
                duck_progress: move_toward(
                    duck_after_checks(old(self).duck, soundboard_empty).duck_progress,
                    duck_after_checks(old(self).duck, soundboard_empty).duck_target,
                    DUCK_FADE_SPEED,
                ),
                ..duck_after_checks(old(self).duck, soundboard_empty)
            }),
            final(self).snap.playback.frequencies@ == music_bins@,
            old(self).music.pending_auto_advance is None ==> {
                &&& (old(self).music.sink is None ==> final(self).music.track_elapsed_ms == old(self).music.track_elapsed_ms)
                &&& (old(self).music.sink is Some ==> {
                    &&& final(self).music.track_elapsed_ms == (if old(self).music.track_elapsed_ms + TICK_MS <= ELAPSED_CEILING_MS {
                        old(self).music.track_elapsed_ms + TICK_MS
                    } else {
                        old(self).music.track_elapsed_ms as int
                    })
                    &&& final(self).snap.progress.is_finished == music_empty
                    &&& final(self).snap.progress.is_playing == (!music_empty && !old(self).music.sink->0.paused)
                    &&& final(self).snap.progress.duration_ms == old(self).music.track_duration_ms
                    &&& (!old(self).music.sink->0.paused ==> final(self).snap.progress.current_time_ms == final(self).music.track_elapsed_ms)
                })
            },
            tick_has_audible(*old(self), drained@) ==> final(self).snap.playback.ambient_frequencies@ == ambient_bins@,
            !tick_has_audible(*old(self), drained@) ==> final(self).snap.playback.ambient_frequencies@ == Seq::new(64nat, |i: int| 0u32),
            forall|id: Seq<char>|
                #[trigger] final(self).ambient.voices.has(id) ==> old(self).ambient.voices.has(
                    id,
                ),
            idle ==> (forall|id: Seq<char>|
                #[trigger] old(self).ambient.voices.has(id) && !(old(self).ambient.fading_out.has(id) && old(self).ambient.fading_out.value_of(id) + 1
                    >= FADE_STEPS) && !(old(self).ambient.s_fading_out.has(id) && old(self).ambient.s_fading_out.value_of(id) + 1 >= SCHEDULER_FADE_STEPS) ==> final(self).ambient.voices.has(id)),
            !idle ==> (forall|id: Seq<char>|
                final(self).ambient.voices.has(id) == old(self).ambient.voices.has(id)),
            !idle ==> {
                &&& outcome.enqueues@.len() == 0
                &&& final(self).ambient.fading_out == old(self).ambient.fading_out
                &&& final(self).ambient.fading_in == old(self).ambient.fading_in
                &&& final(self).ambient.s_fading_out == old(self).ambient.s_fading_out
                &&& final(self).ambient.s_fading_in == old(self).ambient.s_fading_in
                &&& final(self).ambient.transitions == old(self).ambient.transitions
                &&& final(self).ambient.s_transitions == old(self).ambient.s_transitions
            },
            idle ==> crate::fades::fade_table_step(
                old(self).ambient.fading_out,
                final(self).ambient.fading_out,
                FADE_STEPS,
            ),
            idle ==> crate::fades::fade_table_step(
                old(self).ambient.fading_in,
                final(self).ambient.fading_in,
                FADE_STEPS,
            ),
            idle ==> crate::fades::fade_table_step(
                old(self).ambient.s_fading_out,
                final(self).ambient.s_fading_out,
                SCHEDULER_FADE_STEPS,
            ),
            idle ==> crate::fades::fade_table_step(
                old(self).ambient.s_fading_in,
                final(self).ambient.s_fading_in,
                SCHEDULER_FADE_STEPS,
            ),
            idle ==> (forall|id: Seq<char>|
                old(self).ambient.fading_out.has(id) && old(self).ambient.fading_out.value_of(id)
                    + 1 >= FADE_STEPS ==> !final(self).ambient.voices.has(id) && !final(self).ambient.fading_out.has(id)),
            idle ==> (forall|id: Seq<char>|
                old(self).ambient.s_fading_out.has(id) && old(self).ambient.s_fading_out.value_of(id) + 1 >= SCHEDULER_FADE_STEPS ==> !final(self).ambient.voices.has(id) && !final(self).ambient.s_fading_out.has(id)),
            idle ==> (forall|j: int|
                0 <= j < outcome.enqueues@.len() ==> {
                    let r = #[trigger] outcome.enqueues@[j];
                    &&& final(self).ambient.voices.has(r.id@)
                    &&& r.chain == chain_of(final(self).ambient.voices.value_of(r.id@).settings)
                    &&& r.volume == final(self).ambient.voices.value_of(r.id@).sink.volume
                    &&& r.from_cache == old(self).ambient.cached(r.path@)
                }),
    {
        self.observe(music_empty, soundboard_empty, drained);
        let ghost h1 = *self;
        let load_preset = self.scheduler_second_tick();
        let ghost h2 = *self;
        self.run_pending_auto_advance(pending_decode_ms);
        let ghost h3 = *self;
        self.soundboard_end_check();
        let ghost h4 = *self;
        self.duck_step();
        let ghost h5 = *self;
        self.music_fade_in_step();
        let ghost h6 = *self;
        self.music_fade_out_step();
        let ghost h7 = *self;
        self.progress_and_advance_step();
        let ghost h8 = *self;
        self.visualization_step(music_bins, ambient_bins);
        let ghost h9 = *self;
        proof {
            assert(h9.ambient == h8.ambient);
            assert(audible_count(h8.ambient.voices.vals_view()) > 0 <==> tick_has_audible(
                *old(self),
                drained@,
            )) by {
                lemma_audible_count_exists(h8.ambient.voices.vals_view());
                if exists|k: int|
                    0 <= k < h8.ambient.voices.vals_view().len() && !(
                    #[trigger] h8.ambient.voices.vals_view()[k]).is_paused
                        && !h8.ambient.voices.vals_view()[k].sink.empty {
                    let k = choose|k: int|
                        0 <= k < h8.ambient.voices.vals_view().len() && !(
                        #[trigger] h8.ambient.voices.vals_view()[k]).is_paused
                            && !h8.ambient.voices.vals_view()[k].sink.empty;
                    h8.ambient.voices.lemma_at(k);
                    let id = h8.ambient.voices.keys_view()[k];
                    assert(h8.ambient.voices.has(id));
                    assert(h5.ambient.voices.has(id));
                    assert(h1.ambient.voices.has(id));
                    assert(old(self).ambient.voices.has(id));
                    assert(h1.ambient.voices.value_of(id) == (AmbientState {
                        sink: SinkModel {
                            empty: str_vec_has(drained@, id),
                            ..old(self).ambient.voices.value_of(id).sink
                        },
                        ..old(self).ambient.voices.value_of(id)
                    }));
                    assert(!old(self).ambient.voices.value_of(id).is_paused && !str_vec_has(
                        drained@,
                        id,
                    ));
                    assert(tick_has_audible(*old(self), drained@));
                }
                if tick_has_audible(*old(self), drained@) {
                    let id = choose|id: Seq<char>|
                        #![trigger old(self).ambient.voices.has(id)]
                        old(self).ambient.voices.has(id) && !old(self).ambient.voices.value_of(id).is_paused && !str_vec_has(drained@, id);
                    assert(h1.ambient.voices.has(id));
                    assert(h5.ambient.voices.has(id));
                    assert(h8.ambient.voices.has(id));
                    let k = h8.ambient.voices.index_of(id);
                    h8.ambient.voices.lemma_at(k);
                    assert(h1.ambient.voices.value_of(id) == (AmbientState {
                        sink: SinkModel {
                            empty: str_vec_has(drained@, id),
                            ..old(self).ambient.voices.value_of(id).sink
                        },
                        ..old(self).ambient.voices.value_of(id)
                    }));
                    assert(!h8.ambient.voices.vals_view()[k].is_paused
                        && !h8.ambient.voices.vals_view()[k].sink.empty);
                }
            }
        }
        let enqueues = if idle {
            self.idle_tick()
        } else {
            Vec::new()
        };
        proof {
            assert(self.snap.playback == h9.snap.playback);
            assert(h2.ambient.fading_out == old(self).ambient.fading_out);
            assert(h8.ambient.fading_out == old(self).ambient.fading_out);
            assert(h8.ambient.fading_in == old(self).ambient.fading_in);
            assert(h8.ambient.s_fading_out == old(self).ambient.s_fading_out);
            assert(h8.ambient.s_fading_in == old(self).ambient.s_fading_in);
            assert(h8.ambient.transitions == old(self).ambient.transitions);
            assert(h8.ambient.s_transitions == old(self).ambient.s_transitions);
            assert(h8.ambient.cache == old(self).ambient.cache);
            assert(h8.masters == old(self).masters);
            assert(h8.duck == self.duck);
        }
        TickOutcome { load_preset, enqueues }
    }

    /// Choose and step to the next track of the selected playlist:
    /// random under shuffle, else the following position, wrapping only
    /// when looping. Returns the file and track record to start, or
    /// nothing when no playlist is selected, it is empty, or its end is
    /// reached without looping.
    pub fn play_next_track(&mut self) -> (r: Option<PendingTrack>)
        requires
            old(self).wf(),
        ensures
            final(self).wf(),
            final(self).masters == old(self).masters,
            final(self).music == old(self).music,
            final(self).duck == old(self).duck,
            final(self).ambient == old(self).ambient,
            final(self).sched == old(self).sched,
            final(self).snap == old(self).snap,
            final(self).collab.playlists == old(self).collab.playlists,
            final(self).collab.all_tracks == old(self).collab.all_tracks,
            r is None <==> (old(self).collab.playlist_state.current_playlist_id is None || {
                let tracks = crate::music::tracks_of_playlist(
                    old(self).collab.playlist_state.current_playlist_id->0@,
                    old(self).collab.all_tracks@,
                    old(self).collab.playlists,
                    old(self).collab.playlist_state.favorites@,
                );
                ||| tracks.len() == 0
                ||| tracks.len() > 1000000
                ||| (!old(self).collab.playlist_state.is_shuffled && old(self).collab.playlist_state.current_index + 1 >= tracks.len() && !old(self).collab.playlist_state.is_looping)
            }),
            r is None ==> final(self).collab == old(self).collab,
            r is Some ==> {
                let tracks = crate::music::tracks_of_playlist(
                    old(self).collab.playlist_state.current_playlist_id->0@,
                    old(self).collab.all_tracks@,
                    old(self).collab.playlists,
                    old(self).collab.playlist_state.favorites@,
                );
                let idx = final(self).collab.playlist_state.current_index;
                &&& old(self).collab.playlist_state.current_playlist_id is Some
                &&& 0 <= idx < tracks.len()
                &&& (!old(self).collab.playlist_state.is_shuffled && old(self).collab.playlist_state.current_index + 1 < tracks.len() ==> idx == old(self).collab.playlist_state.current_index + 1)
                &&& (!old(self).collab.playlist_state.is_shuffled && old(self).collab.playlist_state.current_index + 1 >= tracks.len() ==> old(self).collab.playlist_state.is_looping && idx == 0)
                &&& final(self).collab.playlist_state == (PlaylistState {
                    current_index: idx,
                    ..old(self).collab.playlist_state
                })
                &&& r->0.track_info.id@ == tracks[idx as int].id@
                &&& r->0.file_path@ == tracks[idx as int].album_path@ + "/"@ + tracks[
                    idx as int
                ].file@
            },
    {
        let playlist_id = match &self.collab.playlist_state.current_playlist_id {
            Some(p) => p.clone(),
            None => {
                return None;
            },
        };
        let tracks = crate::music::resolve_playlist_tracks(
            &playlist_id,
            &self.collab.all_tracks,
            &self.collab.playlists,
            &self.collab.playlist_state.favorites,
        );
        let len = tracks.len();
        if len == 0 || len > 1000000 {
            return None;
        }
        let choice = crate::music::select_next_index(
            self.collab.playlist_state.current_index,
            len,
            self.collab.playlist_state.is_shuffled,
            self.collab.playlist_state.is_looping,
        );
        match choice {
            Some(idx) => {
                self.collab.playlist_state.current_index = idx;
                let track = &tracks[idx as usize];
                let file_path = track.album_path.clone().concat("/").concat(
                    track.file.as_str(),
                );
                let info = CurrentTrackInfo {
                    id: track.id.clone(),
                    title: track.title.clone(),
                    artist: track.artist.clone(),
                    album: track.album.clone(),
                    file_path: file_path.clone(),
                };
                Some(PendingTrack { file_path, track_info: info })
            },
            None => None,
        }
    }

    /// Choose and step to the previous track of the selected playlist:
    /// the position before the current one, or the last when at or
    /// before the start.
    pub fn play_previous_track(&mut self) -> (r: Option<PendingTrack>)
        requires
            old(self).wf(),
        ensures
            final(self).wf(),
            final(self).masters == old(self).masters,
            final(self).music == old(self).music,
            final(self).duck == old(self).duck,
            final(self).ambient == old(self).ambient,
            final(self).sched == old(self).sched,
            final(self).snap == old(self).snap,
            final(self).collab.playlists == old(self).collab.playlists,
            final(self).collab.all_tracks == old(self).collab.all_tracks,
            r is None <==> (old(self).collab.playlist_state.current_playlist_id is None || {
                let tracks = crate::music::tracks_of_playlist(
                    old(self).collab.playlist_state.current_playlist_id->0@,
                    old(self).collab.all_tracks@,
                    old(self).collab.playlists,
                    old(self).collab.playlist_state.favorites@,
                );
                tracks.len() == 0 || tracks.len() > 1000000
            }),
            r is None ==> final(self).collab == old(self).collab,
            r is Some ==> {
                let tracks = crate::music::tracks_of_playlist(
                    old(self).collab.playlist_state.current_playlist_id->0@,
                    old(self).collab.all_tracks@,
                    old(self).collab.playlists,
                    old(self).collab.playlist_state.favorites@,
                );
                let idx = final(self).collab.playlist_state.current_index;
                &&& 0 <= idx < tracks.len()
                &&& (old(self).collab.playlist_state.current_index <= 0 ==> idx == tracks.len()
                    - 1)
                &&& (0 < old(self).collab.playlist_state.current_index < tracks.len() ==> idx
                    == old(self).collab.playlist_state.current_index - 1)
                &&& final(self).collab.playlist_state == (PlaylistState {
                    current_index: idx,
                    ..old(self).collab.playlist_state
                })
                &&& r->0.track_info.id@ == tracks[idx as int].id@
                &&& r->0.file_path@ == tracks[idx as int].album_path@ + "/"@ + tracks[
                    idx as int
                ].file@
            },
    {
        let playlist_id = match &self.collab.playlist_state.current_playlist_id {
            Some(p) => p.clone(),
            None => {
                return None;
            },
        };
        let tracks = crate::music::resolve_playlist_tracks(
            &playlist_id,
            &self.collab.all_tracks,
            &self.collab.playlists,
            &self.collab.playlist_state.favorites,
        );
        let len = tracks.len();
        if len == 0 || len > 1000000 {
            return None;
        }
        let idx = crate::music::select_prev_index(
            self.collab.playlist_state.current_index,
            len,
        );
        self.collab.playlist_state.current_index = idx;
        let track = &tracks[idx as usize];
        let file_path = track.album_path.clone().concat("/").concat(track.file.as_str());
        let info = CurrentTrackInfo {
            id: track.id.clone(),
            title: track.title.clone(),
            artist: track.artist.clone(),
            album: track.album.clone(),
            file_path: file_path.clone(),
        };
        Some(PendingTrack { file_path, track_info: info })
    }

    /// Flip whether a track is a favorite: listed becomes unlisted and
    /// back. Returns whether the track is a favorite afterwards.
    pub fn toggle_favorite(&mut self, track_id: &String) -> (r: bool)
        requires
            old(self).wf(),
        ensures
            final(self).wf(),
            final(self).masters == old(self).masters,
            final(self).music == old(self).music,
            final(self).duck == old(self).duck,
            final(self).ambient == old(self).ambient,
            final(self).sched == old(self).sched,
            final(self).snap == old(self).snap,
            final(self).collab.playlists == old(self).collab.playlists,
            final(self).collab.all_tracks == old(self).collab.all_tracks,
            r == !crate::music::fav_has(old(self).collab.playlist_state.favorites@, track_id@),
            r ==> final(self).collab.playlist_state.favorites@ == old(self).collab.playlist_state.favorites@.push(final(self).collab.playlist_state.favorites@.last()) && final(self).collab.playlist_state.favorites@.last()@ == track_id@,
            !r ==> exists|i: int|
                {
                    &&& 0 <= i < old(self).collab.playlist_state.favorites@.len()
                    &&& old(self).collab.playlist_state.favorites@[i]@ == track_id@
                    &&& (forall|k: int|
                        0 <= k < i ==> old(self).collab.playlist_state.favorites@[k]@
                            !== track_id@)
                    &&& final(self).collab.playlist_state.favorites@ == old(self).collab.playlist_state.favorites@.remove(i)
                },

    {
        let ghost pre = *self;
        let n = self.collab.playlist_state.favorites.len();
        let mut i: usize = 0;
        while i < n
            invariant
                *self == pre,
                pre == *old(self),
                pre.wf(),
                n == self.collab.playlist_state.favorites@.len(),
                i <= n,
                forall|k: int|
                    0 <= k < i ==> self.collab.playlist_state.favorites@[k]@ !== track_id@,
            decreases n - i,
        {
            if self.collab.playlist_state.favorites[i] == *track_id {
                proof {
                    assert(crate::music::fav_has(
                        self.collab.playlist_state.favorites@,
                        track_id@,
                    ));
                }
                self.collab.playlist_state.favorites.remove(i);
                return false;
            }
            i += 1;
        }
        self.collab.playlist_state.favorites.push(track_id.clone());
        true
    }

    /// Store a playlist under its id, replacing any with the same id.
    /// The two automatic playlists cannot be overwritten.
    pub fn save_playlist(&mut self, id: &String, name: String, tracks: Vec<PlaylistTrack>) -> (r:
        Result<(), String>)
        requires
            old(self).wf(),
        ensures
            final(self).wf(),
            final(self).masters == old(self).masters,
            final(self).music == old(self).music,
            final(self).duck == old(self).duck,
            final(self).ambient == old(self).ambient,
            final(self).sched == old(self).sched,
            final(self).snap == old(self).snap,
            final(self).collab.playlist_state == old(self).collab.playlist_state,
            final(self).collab.all_tracks == old(self).collab.all_tracks,
            (id@ == "all-music"@ || id@ == "favorites"@) <==> r is Err,
            r is Err ==> final(self).collab.playlists == old(self).collab.playlists
                && r->Err_0@ == "Cannot modify auto playlists"@,
            r is Ok ==> {
                &&& final(self).collab.playlists.has(id@)
                &&& final(self).collab.playlists.value_of(id@).name@ == name@
                &&& !final(self).collab.playlists.value_of(id@).is_auto
                &&& final(self).collab.playlists.value_of(id@).tracks@ == tracks@
                &&& forall|other: Seq<char>|
                    other !== id@ ==> final(self).collab.playlists.has(other) == old(self).collab.playlists.has(other)
            },
    {
        let all_music = String::from_str("all-music");
        let favorites_name = String::from_str("favorites");
        if *id == all_music || *id == favorites_name {
            return Err(String::from_str("Cannot modify auto playlists"));
        }
        let playlist = MusicPlaylist { id: id.clone(), name, is_auto: false, tracks };
        self.collab.playlists.set(id, playlist);
        Ok(())
    }

    /// Drop a stored playlist. The two automatic playlists cannot be
    /// deleted.
    pub fn delete_playlist(&mut self, id: &String) -> (r: Result<(), String>)
        requires
            old(self).wf(),
        ensures
            final(self).wf(),
            final(self).masters == old(self).masters,
            final(self).music == old(self).music,
            final(self).duck == old(self).duck,
            final(self).ambient == old(self).ambient,
            final(self).sched == old(self).sched,
            final(self).snap == old(self).snap,
            final(self).collab.playlist_state == old(self).collab.playlist_state,
            final(self).collab.all_tracks == old(self).collab.all_tracks,
            (id@ == "all-music"@ || id@ == "favorites"@) <==> r is Err,
            r is Err ==> final(self).collab.playlists == old(self).collab.playlists
                && r->Err_0@ == "Cannot delete auto playlists"@,
            r is Ok ==> !final(self).collab.playlists.has(id@) && (forall|other: Seq<char>|
                other !== id@ ==> final(self).collab.playlists.has(other) == old(self).collab.playlists.has(other)),
    {
        let all_music = String::from_str("all-music");
        let favorites_name = String::from_str("favorites");
        if *id == all_music || *id == favorites_name {
            return Err(String::from_str("Cannot delete auto playlists"));
        }
        self.collab.playlists.remove(id);
        Ok(())
    }

    /// Begin running a schedule: its items install, the first item is
    /// current, and its duration is drawn from the first item's window.
    /// An empty item list is rejected.
    pub fn start_scheduler_playback(
        &mut self,
        items: Vec<crate::types::ScheduledItem>,
        schedule_id: Option<String>,
    ) -> (r: Result<(), String>)
        requires
            old(self).wf(),
            forall|k: int|
                0 <= k < items@.len() ==> (#[trigger] items@[k]).min_minutes <= 1000000
                    && items@[k].max_minutes <= 1000000,
        ensures
            final(self).wf(),
            final(self).masters == old(self).masters,
            final(self).music == old(self).music,
            final(self).duck == old(self).duck,
            final(self).ambient == old(self).ambient,
            final(self).collab == old(self).collab,
            final(self).snap == old(self).snap,
            items@.len() == 0 <==> r is Err,
            r is Err ==> final(self).sched == old(self).sched && r->Err_0@
                == "No items to schedule"@,
            r is Ok ==> {
                &&& final(self).sched.state.is_playing
                &&& final(self).sched.state.current_item_index == 0
                &&& final(self).sched.state.items@ == items@
                &&& min_u32_spec(items@[0].min_minutes, items@[0].max_minutes) <= final(self).sched.state.current_duration <= max_u32_spec(
                    items@[0].min_minutes,
                    items@[0].max_minutes,
                )
                &&& final(self).sched.state.time_remaining == final(self).sched.state.current_duration * 60
            },
    {
        if items.len() == 0 {
            return Err(String::from_str("No items to schedule"));
        }
        let min0 = items[0].min_minutes;
        let max0 = items[0].max_minutes;
        let lo = if min0 <= max0 {
            min0
        } else {
            max0
        };
        let hi = if min0 <= max0 {
            max0
        } else {
            min0
        };
        let duration = crate::rng::draw_u32_inclusive(lo, hi);
        self.sched.state.items = items;
        self.sched.state.current_schedule_id = schedule_id;
        self.sched.state.is_playing = true;
        self.sched.state.current_item_index = 0;
        self.sched.state.current_duration = duration;
        self.sched.state.time_remaining = (duration * 60) as i32;
        Ok(())
    }

    /// Halt the schedule runner and reset its position.
    pub fn stop_scheduler_playback(&mut self)
        requires
            old(self).wf(),
        ensures
            final(self).wf(),
            final(self).masters == old(self).masters,
            final(self).music == old(self).music,
            final(self).duck == old(self).duck,
            final(self).ambient == old(self).ambient,
            final(self).collab == old(self).collab,
            final(self).snap == old(self).snap,
            !final(self).sched.state.is_playing,
            final(self).sched.state.current_item_index == 0,
            final(self).sched.state.current_duration == 0,
            final(self).sched.state.time_remaining == 0,
    {
        self.sched.state.is_playing = false;
        self.sched.state.current_item_index = 0;
        self.sched.state.current_duration = 0;
        self.sched.state.time_remaining = 0;
    }

    /// The progress snapshot, as a copy.
    pub fn get_progress(&self) -> (r: AudioProgress)
        ensures
            r.current_time_ms == self.snap.progress.current_time_ms,
            r.duration_ms == self.snap.progress.duration_ms,
            r.is_playing == self.snap.progress.is_playing,
            r.is_finished == self.snap.progress.is_finished,
    {
        AudioProgress {
            current_time_ms: self.snap.progress.current_time_ms,
            duration_ms: self.snap.progress.duration_ms,
            is_playing: self.snap.progress.is_playing,
            is_finished: self.snap.progress.is_finished,
        }
    }

    /// The visualization snapshot, as a copy.
    pub fn get_playback_state(&self) -> (r: PlaybackState)
        ensures
            r.music_playing == self.snap.playback.music_playing,
            r.music_volume == self.snap.playback.music_volume,
            r.ambient_count == self.snap.playback.ambient_count,
            r.ambient_volume == self.snap.playback.ambient_volume,
            r.master_volume == self.snap.playback.master_volume,
            r.is_muted == self.snap.playback.is_muted,
            r.frequencies@ == self.snap.playback.frequencies@,
            r.ambient_frequencies@ == self.snap.playback.ambient_frequencies@,
    {
        PlaybackState {
            music_playing: self.snap.playback.music_playing,
            music_volume: self.snap.playback.music_volume,
            ambient_count: self.snap.playback.ambient_count,
            ambient_volume: self.snap.playback.ambient_volume,
            master_volume: self.snap.playback.master_volume,
            is_muted: self.snap.playback.is_muted,
            frequencies: copy_bins(&self.snap.playback.frequencies),
            ambient_frequencies: copy_bins(&self.snap.playback.ambient_frequencies),
        }
    }

    /// The playing track's record, as a copy.
    pub fn get_current_track(&self) -> (r: Option<CurrentTrackInfo>)
        ensures
            match r {
                Some(t) => self.music.current_track is Some && t
                    == self.music.current_track->0,
                None => self.music.current_track is None,
            },
    {
        match &self.music.current_track {
            Some(t) => Some(t.duplicate()),
            None => None,
        }
    }

    /// Whether a soundboard clip is playing.
    pub fn is_soundboard_playing(&self) -> (r: bool)
        ensures
            r == self.duck.soundboard_playing,
    {
        self.duck.soundboard_playing
    }

    /// The published records of every playing ambient voice, each equal
    /// in content to the stored one.
    pub fn get_active_ambients(&self) -> (r: Vec<ActiveAmbientInfo>)
        requires
            self.wf(),
        ensures
            r@.len() == self.ambient.active.len_spec(),
            forall|k: int|
                0 <= k < r@.len() ==> (#[trigger] r@[k]).id@ == self.ambient.active.keys_view()[
                    k
                ],
            forall|k: int|
                0 <= k < r@.len() ==> {
                    let stored = self.ambient.active.vals_view()[k];
                    &&& (#[trigger] r@[k]).file_a@ == stored.file_a@
                    &&& r@[k].file_b@ == stored.file_b@
                    &&& r@[k].settings == stored.settings
                },
    {
        let n = self.ambient.active.len();
        let mut r: Vec<ActiveAmbientInfo> = Vec::new();
        let mut i: usize = 0;
        while i < n
            invariant
                self.wf(),
                n == self.ambient.active.len_spec(),
                i <= n,
                r@.len() == i,
                forall|k: int|
                    0 <= k < i ==> (#[trigger] r@[k]).id@ == self.ambient.active.keys_view()[k],
                forall|k: int|
                    0 <= k < i ==> {
                        let stored = self.ambient.active.vals_view()[k];
                        &&& (#[trigger] r@[k]).file_a@ == stored.file_a@
                        &&& r@[k].file_b@ == stored.file_b@
                        &&& r@[k].settings == stored.settings
                    },
            decreases n - i,
        {
            let info = self.ambient.active.val_at(i);
            proof {
                self.ambient.active.lemma_at(i as int);
            }
            r.push(ActiveAmbientInfo {
                id: self.ambient.active.key_at(i).clone(),
                file_a: info.file_a.clone(),
                file_b: info.file_b.clone(),
                settings: info.settings.duplicate(),
            });
            i += 1;
        }
        r
    }
}

impl Engine {
    /// Set whether the playlist plays shuffled.
    pub fn set_playlist_shuffle(&mut self, shuffled: bool)
        requires
            old(self).wf(),
        ensures
            final(self).wf(),
            final(self).collab.playlist_state.is_shuffled == shuffled,
            final(self).collab.playlist_state.is_looping == old(self).collab.playlist_state.is_looping,
            final(self).collab.playlist_state.current_index == old(self).collab.playlist_state.current_index,
            final(self).masters == old(self).masters,
            final(self).music == old(self).music,
            final(self).duck == old(self).duck,
            final(self).ambient == old(self).ambient,
            final(self).sched == old(self).sched,
    {
        self.collab.playlist_state.is_shuffled = shuffled;
    }

    /// Set whether the playlist wraps at its end.
    pub fn set_playlist_loop(&mut self, looping: bool)
        requires
            old(self).wf(),
        ensures
            final(self).wf(),
            final(self).collab.playlist_state.is_looping == looping,
            final(self).collab.playlist_state.is_shuffled == old(self).collab.playlist_state.is_shuffled,
            final(self).masters == old(self).masters,
            final(self).music == old(self).music,
            final(self).duck == old(self).duck,
            final(self).ambient == old(self).ambient,
            final(self).sched == old(self).sched,
    {
        self.collab.playlist_state.is_looping = looping;
    }

    /// Select a playlist; the position resets to its start and any
    /// interrupted position is forgotten.
    pub fn set_current_playlist(&mut self, playlist_id: Option<String>)
        requires
            old(self).wf(),
        ensures
            final(self).wf(),
            final(self).collab.playlist_state.current_playlist_id == playlist_id,
            final(self).collab.playlist_state.current_index == 0,
            final(self).collab.playlist_state.interrupted_index is None,
            final(self).masters == old(self).masters,
            final(self).music == old(self).music,
            final(self).duck == old(self).duck,
            final(self).ambient == old(self).ambient,
            final(self).sched == old(self).sched,
    {
        self.collab.playlist_state.current_playlist_id = playlist_id;
        self.collab.playlist_state.current_index = 0;
        self.collab.playlist_state.interrupted_index = None;
    }

    /// Move the playlist position.
    pub fn set_playlist_index(&mut self, index: i32)
        requires
            old(self).wf(),
            -1 <= index <= 1000000,
        ensures
            final(self).wf(),
            final(self).collab.playlist_state.current_index == index,
            final(self).masters == old(self).masters,
            final(self).music == old(self).music,
            final(self).duck == old(self).duck,
            final(self).ambient == old(self).ambient,
            final(self).sched == old(self).sched,
    {
        self.collab.playlist_state.current_index = index;
    }

    /// Replace the list of every known track.
    pub fn set_all_tracks(&mut self, tracks: Vec<PlaylistTrack>)
        requires
            old(self).wf(),
            tracks@.len() <= 1000000,
        ensures
            final(self).wf(),
            final(self).collab.all_tracks@ == tracks@,
            final(self).collab.playlist_state == old(self).collab.playlist_state,
            final(self).collab.playlists == old(self).collab.playlists,
            final(self).masters == old(self).masters,
            final(self).music == old(self).music,
            final(self).duck == old(self).duck,
            final(self).ambient == old(self).ambient,
            final(self).sched == old(self).sched,
    {
        self.collab.all_tracks = tracks;
    }

    /// Every known track, as a copy.
    pub fn get_all_tracks(&self) -> (r: Vec<PlaylistTrack>)
        ensures
            r@ == self.collab.all_tracks@,
    {
        crate::music::copy_tracks(&self.collab.all_tracks)
    }

    /// Every stored playlist, as copies equal in content to the stored
    /// ones.
    pub fn get_playlists(&self) -> (r: Vec<MusicPlaylist>)
        requires
            self.wf(),
        ensures
            r@.len() == self.collab.playlists.len_spec(),
            forall|k: int|
                0 <= k < r@.len() ==> (#[trigger] r@[k]).id@
                    == self.collab.playlists.keys_view()[k],
            forall|k: int|
                0 <= k < r@.len() ==> {
                    let stored = self.collab.playlists.vals_view()[k];
                    &&& (#[trigger] r@[k]).name@ == stored.name@
                    &&& r@[k].is_auto == stored.is_auto
                    &&& r@[k].tracks@ == stored.tracks@
                },
    {
        let n = self.collab.playlists.len();
        let mut r: Vec<MusicPlaylist> = Vec::new();
        let mut i: usize = 0;
        while i < n
            invariant
                self.wf(),
                n == self.collab.playlists.len_spec(),
                i <= n,
                r@.len() == i,
                forall|k: int|
                    0 <= k < i ==> (#[trigger] r@[k]).id@
                        == self.collab.playlists.keys_view()[k],
                forall|k: int|
                    0 <= k < i ==> {
                        let stored = self.collab.playlists.vals_view()[k];
                        &&& (#[trigger] r@[k]).name@ == stored.name@
                        &&& r@[k].is_auto == stored.is_auto
                        &&& r@[k].tracks@ == stored.tracks@
                    },
            decreases n - i,
        {
            let p = self.collab.playlists.val_at(i);
            proof {
                self.collab.playlists.lemma_at(i as int);
            }
            r.push(MusicPlaylist {
                id: self.collab.playlists.key_at(i).clone(),
                name: p.name.clone(),
                is_auto: p.is_auto,
                tracks: crate::music::copy_tracks(&p.tracks),
            });
            i += 1;
        }
        r
    }

    /// The shared playlist state, as a copy.
    pub fn get_playlist_state(&self) -> (r: PlaylistState)
        ensures
            r.current_playlist_id == self.collab.playlist_state.current_playlist_id,
            r.current_index == self.collab.playlist_state.current_index,
            r.is_shuffled == self.collab.playlist_state.is_shuffled,
            r.is_looping == self.collab.playlist_state.is_looping,
            r.favorites@ == self.collab.playlist_state.favorites@,
            r.interrupted_index == self.collab.playlist_state.interrupted_index,
    {
        let id = match &self.collab.playlist_state.current_playlist_id {
            Some(p) => Some(p.clone()),
            None => None,
        };
        let n = self.collab.playlist_state.favorites.len();
        let mut favorites: Vec<String> = Vec::new();
        let mut i: usize = 0;
        while i < n
            invariant
                n == self.collab.playlist_state.favorites@.len(),
                i <= n,
                favorites@ == self.collab.playlist_state.favorites@.take(i as int),
            decreases n - i,
        {
            favorites.push(self.collab.playlist_state.favorites[i].clone());
            proof {
                assert(favorites@ =~= self.collab.playlist_state.favorites@.take(i as int + 1));
            }
            i += 1;
        }
        proof {
            assert(self.collab.playlist_state.favorites@.take(n as int)
                =~= self.collab.playlist_state.favorites@);
        }
        PlaylistState {
            current_playlist_id: id,
            current_index: self.collab.playlist_state.current_index,
            is_shuffled: self.collab.playlist_state.is_shuffled,
            is_looping: self.collab.playlist_state.is_looping,
            favorites,
            interrupted_index: self.collab.playlist_state.interrupted_index,
        }
    }
}

/// Executable test of `settings_need_rebuild`.
pub fn settings_changed(a: &AmbientSettings, b: &AmbientSettings) -> (r: bool)
    requires
        a.valid(),
        b.valid(),
    ensures
        r == settings_need_rebuild(*a, *b),
{
    let pitch_changed = if a.pitch >= b.pitch {
        a.pitch - b.pitch > 1
    } else {
        b.pitch - a.pitch > 1
    };
    let pan_changed = if a.pan >= b.pan {
        a.pan - b.pan > 1
    } else {
        b.pan - a.pan > 1
    };
    let low_pass_changed = if a.low_pass_freq >= b.low_pass_freq {
        a.low_pass_freq - b.low_pass_freq > 1
    } else {
        b.low_pass_freq - a.low_pass_freq > 1
    };
    let reverb_changed = if a.algorithmic_reverb >= b.algorithmic_reverb {
        a.algorithmic_reverb - b.algorithmic_reverb > 1
    } else {
        b.algorithmic_reverb - a.algorithmic_reverb > 1
    };
    let type_changed = !(a.reverb_type == b.reverb_type);
    pitch_changed || pan_changed || low_pass_changed || reverb_changed || type_changed
}

/// Whether the cache vector lists the path.
pub fn path_in_cache(cache: &Vec<String>, p: &String) -> (r: bool)
    ensures
        r == path_listed(cache@, p@),
{
    let n = cache.len();
    let mut i: usize = 0;
    while i < n
        invariant
            n == cache@.len(),
            i <= n,
            forall|k: int| 0 <= k < i ==> cache@[k]@ !== p@,
        decreases n - i,
    {
        if cache[i] == *p {
            return true;
        }
        i += 1;
    }
    false
}

/// A vector of sixty-four zero magnitudes, pinned as the zero sequence.
pub fn fresh_zero_bins() -> (r: Vec<u32>)
    ensures
        r@ == Seq::new(64nat, |i: int| 0u32),
{
    let r = zero_bins();
    proof {
        assert(r@ =~= Seq::new(64nat, |i: int| 0u32));
    }
    r
}

/// A vector of sixty-four zero magnitudes.
pub fn zero_bins() -> (r: Vec<u32>)
    ensures
        r@.len() == 64,
        forall|i: int| 0 <= i < 64 ==> r@[i] == 0u32,
{
    let mut r: Vec<u32> = Vec::new();
    let mut i: usize = 0;
    while i < 64
        invariant
            i <= 64,
            r@.len() == i,
            forall|j: int| 0 <= j < i ==> r@[j] == 0u32,
        decreases 64 - i,
    {
        r.push(0);
        i += 1;
    }
    r
}

} // verus!
