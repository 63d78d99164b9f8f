//! Plain data carried between the engine, the library scanners and the UI
//! shell: track and album metadata, playlist and scheduler records, and the
//! snapshot structures the engine publishes.
use vstd::prelude::*;

verus! {

/// One music track as listed in an album's metadata.
#[derive(Clone, Debug)]
pub struct MusicTrack {
    pub id: String,
    pub file: String,
    pub title: String,
    pub artist: String,
}

/// Description of the track the music voice is currently playing.
#[derive(Clone, Debug)]
pub struct CurrentTrackInfo {
    pub id: String,
    pub title: String,
    pub artist: String,
    pub album: String,
    pub file_path: String,
}

impl CurrentTrackInfo {
    /// Copy of this record, equal to it as a value.
    pub fn duplicate(&self) -> (r: CurrentTrackInfo)
        ensures
            r == *self,
    {
        CurrentTrackInfo {
            id: self.id.clone(),
            title: self.title.clone(),
            artist: self.artist.clone(),
            album: self.album.clone(),
            file_path: self.file_path.clone(),
        }
    }
}

impl Default for CurrentTrackInfo {
    /// Empty track record.
    fn default() -> (r: CurrentTrackInfo)
        ensures
            r.id@ == Seq::<char>::empty(),
            r.title@ == Seq::<char>::empty(),
            r.artist@ == Seq::<char>::empty(),
            r.album@ == Seq::<char>::empty(),
            r.file_path@ == Seq::<char>::empty(),
    {
        CurrentTrackInfo {
            id: String::new(),
            title: String::new(),
            artist: String::new(),
            album: String::new(),
            file_path: String::new(),
        }
    }
}

/// One album folder of the music library.
#[derive(Clone, Debug)]
pub struct MusicAlbum {
    pub name: String,
    pub artist: String,
    pub tracks: Vec<MusicTrack>,
    pub path: String,
}

/// The pair of alternating files that make up one ambient sound.
#[derive(Clone, Debug)]
pub struct AmbientSoundFiles {
    pub a: String,
    pub b: String,
}

/// One clip of the soundboard, with its optional display attributes.
#[derive(Clone, Debug)]
pub struct SoundboardSound {
    pub id: String,
    pub name: String,
    pub file: String,
    pub volume: Option<u32>,
    pub hotkey: Option<String>,
    pub color: Option<String>,
}

/// The soundboard folder's contents.
#[derive(Clone, Debug)]
pub struct SoundboardData {
    pub sounds: Vec<SoundboardSound>,
    pub path: String,
}

/// Summary of a stored soundscape preset.
#[derive(Clone, Debug)]
pub struct PresetInfo {
    pub id: String,
    pub name: String,
    pub created: String,
    pub modified: String,
    pub sound_count: usize,
}

/// One entry of a schedule: which preset to play and for how long.
#[derive(Clone, Debug)]
pub struct ScheduledItem {
    pub id: String,
    pub preset_id: String,
    pub preset_name: String,
    pub min_minutes: u32,
    pub max_minutes: u32,
    pub order: u32,
}

/// A stored schedule: an ordered list of scheduled items.
#[derive(Clone, Debug)]
pub struct SchedulePreset {
    pub id: String,
    pub name: String,
    pub created: String,
    pub modified: String,
    pub items: Vec<ScheduledItem>,
}

/// Summary of a stored schedule.
#[derive(Clone, Debug)]
pub struct SchedulePresetInfo {
    pub id: String,
    pub name: String,
    pub created: String,
    pub modified: String,
    pub item_count: usize,
}

/// One track as referenced from a playlist.
#[derive(Clone, Debug)]
pub struct PlaylistTrack {
    pub id: String,
    pub file: String,
    pub title: String,
    pub artist: String,
    pub album: String,
    pub album_path: String,
}

impl PlaylistTrack {
    /// Copy of this record, equal to it as a value.
    pub fn duplicate(&self) -> (r: PlaylistTrack)
        ensures
            r == *self,
    {
        PlaylistTrack {
            id: self.id.clone(),
            file: self.file.clone(),
            title: self.title.clone(),
            artist: self.artist.clone(),
            album: self.album.clone(),
            album_path: self.album_path.clone(),
        }
    }
}

/// A stored or automatic playlist.
#[derive(Clone, Debug)]
pub struct MusicPlaylist {
    pub id: String,
    pub name: String,
    pub is_auto: bool,
    pub tracks: Vec<PlaylistTrack>,
}

/// Shared playback position within the selected playlist.
#[derive(Clone, Debug)]
pub struct PlaylistState {
    pub current_playlist_id: Option<String>,
    pub current_index: i32,
    pub is_shuffled: bool,
    pub is_looping: bool,
    pub favorites: Vec<String>,
    pub interrupted_index: Option<i32>,
}

impl Default for PlaylistState {
    /// Fresh playlist state: nothing selected, looping on.
    fn default() -> (r: PlaylistState)
        ensures
            r.current_playlist_id is None,
            r.current_index == 0,
            !r.is_shuffled,
            r.is_looping,
            r.favorites@.len() == 0,
            r.interrupted_index is None,
    {
        PlaylistState {
            current_playlist_id: None,
            current_index: 0,
            is_shuffled: false,
            is_looping: true,
            favorites: Vec::new(),
            interrupted_index: None,
        }
    }
}

/// Shared state of the schedule runner.
#[derive(Clone, Debug)]
pub struct SchedulerState {
    pub is_playing: bool,
    pub current_item_index: usize,
    pub current_duration: u32,
    pub time_remaining: i32,
    pub items: Vec<ScheduledItem>,
    pub current_schedule_id: Option<String>,
}

impl Default for SchedulerState {
    /// Fresh scheduler state: stopped, no schedule loaded.
    fn default() -> (r: SchedulerState)
        ensures
            !r.is_playing,
            r.current_item_index == 0,
            r.current_duration == 0,
            r.time_remaining == 0,
            r.items@.len() == 0,
            r.current_schedule_id is None,
    {
        SchedulerState {
            is_playing: false,
            current_item_index: 0,
            current_duration: 0,
            time_remaining: 0,
            items: Vec::new(),
            current_schedule_id: None,
        }
    }
}

/// Application settings. Volumes and durations are held in fixed point:
/// one unit is a thousandth, so `1000` stands for full scale, and the
/// crossfade duration is in milliseconds.
#[derive(Clone, Debug)]
pub struct AppSettings {
    pub music_folder_path: String,
    pub ambient_folder_path: String,
    pub soundboard_folder_path: String,
    pub presets_folder_path: String,
    pub music_crossfade_ms: u32,
    pub soundboard_duck_amount: u32,
    pub visualization_type: String,
    pub master_volume: u32,
    pub music_volume: u32,
    pub ambient_volume: u32,
    pub soundboard_volume: u32,
}

/// Progress of the music voice, in milliseconds.
#[derive(Clone, Debug)]
pub struct AudioProgress {
    pub current_time_ms: u64,
    pub duration_ms: u64,
    pub is_playing: bool,
    pub is_finished: bool,
}

/// Snapshot published for the visualizer. Volumes and spectrum magnitudes
/// are in thousandths of full scale.
#[derive(Clone, Debug)]
pub struct PlaybackState {
    pub music_playing: bool,
    pub music_volume: u32,
    pub ambient_count: u32,
    pub ambient_volume: u32,
    pub master_volume: u32,
    pub is_muted: bool,
    pub frequencies: Vec<u32>,
    pub ambient_frequencies: Vec<u32>,
}

} // verus!
