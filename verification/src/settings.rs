//! Per-voice ambient settings and the preset records that carry them.
//!
//! All continuous quantities are held in fixed point: one unit is a
//! thousandth of full scale. A volume of `1000` is unity gain, a pitch of
//! `1000` is the native rate, a pan of `-1000` is full left and `1000` full
//! right, and the reverb mix runs from `0` (dry) to `1000` (full wet).
use vstd::prelude::*;

verus! {

/// One thousandth units per whole unit of gain, pitch, pan or mix.
pub const UNIT: u32 = 1000;

/// Settings of one ambient voice.
#[derive(Clone, Debug)]
pub struct AmbientSettings {
    /// Voice volume, `0..=1000`.
    pub volume: u32,
    /// Playback rate, `500..=2000` (half to double speed).
    pub pitch: u32,
    /// Stereo balance, `-1000..=1000`.
    pub pan: i32,
    /// Low-pass cutoff in hertz, `20..=22000`.
    pub low_pass_freq: u32,
    /// Advisory reverb preset name; the chain only consumes the mix below.
    pub reverb_type: String,
    /// Reverb wet mix, `0..=1000`.
    pub algorithmic_reverb: u32,
    /// Fewest A/B cycles before a pause is considered.
    pub repeat_min: u32,
    /// Most A/B cycles before a pause is considered.
    pub repeat_max: u32,
    /// Fewest pause units after a cycle group.
    pub pause_min: u32,
    /// Most pause units after a cycle group.
    pub pause_max: u32,
    /// Random volume spread per enqueue, `0..=500`.
    pub volume_variation: u32,
}

impl AmbientSettings {
    /// Every field within its documented range, and both random windows
    /// ordered.
    pub open spec fn valid(self) -> bool {
        &&& self.volume <= 1000
        &&& 500 <= self.pitch <= 2000
        &&& -1000 <= self.pan <= 1000
        &&& 20 <= self.low_pass_freq <= 22000
        &&& self.algorithmic_reverb <= 1000
        &&& self.repeat_min <= self.repeat_max
        &&& self.pause_min <= self.pause_max
        &&& self.volume_variation <= 500
    }

    /// Copy of this record, equal to it as a value.
    pub fn duplicate(&self) -> (r: AmbientSettings)
        ensures
            r == *self,
    {
        AmbientSettings {
            volume: self.volume,
            pitch: self.pitch,
            pan: self.pan,
            low_pass_freq: self.low_pass_freq,
            reverb_type: self.reverb_type.clone(),
            algorithmic_reverb: self.algorithmic_reverb,
            repeat_min: self.repeat_min,
            repeat_max: self.repeat_max,
            pause_min: self.pause_min,
            pause_max: self.pause_max,
            volume_variation: self.volume_variation,
        }
    }

    /// Settings with every field forced into its documented range: values
    /// are clamped, and each random window is reordered if its ends were
    /// given reversed.
    pub fn clamped(self) -> (r: AmbientSettings)
        ensures
            r.valid(),
            r.volume == clamp_u32(self.volume, 0, 1000),
            r.pitch == clamp_u32(self.pitch, 500, 2000),
            r.pan == clamp_i32(self.pan, -1000i32, 1000),
            r.low_pass_freq == clamp_u32(self.low_pass_freq, 20, 22000),
            r.reverb_type@ == self.reverb_type@,
            r.algorithmic_reverb == clamp_u32(self.algorithmic_reverb, 0, 1000),
            r.repeat_min == min_u32(self.repeat_min, self.repeat_max),
            r.repeat_max == max_u32(self.repeat_min, self.repeat_max),
            r.pause_min == min_u32(self.pause_min, self.pause_max),
            r.pause_max == max_u32(self.pause_min, self.pause_max),
            r.volume_variation == clamp_u32(self.volume_variation, 0, 500),
    {
        AmbientSettings {
            volume: clamp_exec_u32(self.volume, 0, 1000),
            pitch: clamp_exec_u32(self.pitch, 500, 2000),
            pan: clamp_exec_i32(self.pan, -1000, 1000),
            low_pass_freq: clamp_exec_u32(self.low_pass_freq, 20, 22000),
            reverb_type: self.reverb_type,
            algorithmic_reverb: clamp_exec_u32(self.algorithmic_reverb, 0, 1000),
            repeat_min: if self.repeat_min <= self.repeat_max {
                self.repeat_min
            } else {
                self.repeat_max
            },
            repeat_max: if self.repeat_min <= self.repeat_max {
                self.repeat_max
            } else {
                self.repeat_min
            },
            pause_min: if self.pause_min <= self.pause_max {
                self.pause_min
            } else {
                self.pause_max
            },
            pause_max: if self.pause_min <= self.pause_max {
                self.pause_max
            } else {
                self.pause_min
            },
            volume_variation: clamp_exec_u32(self.volume_variation, 0, 500),
        }
    }
}

impl Default for AmbientSettings {
    /// Unity volume and pitch, centered, filter and reverb off, one A/B
    /// cycle per group, no pause, no variation.
    fn default() -> (r: AmbientSettings)
        ensures
            r.valid(),
            r.volume == 1000,
            r.pitch == 1000,
            r.pan == 0,
            r.low_pass_freq == 22000,
            r.reverb_type@ == "off"@,
            r.algorithmic_reverb == 0,
            r.repeat_min == 1,
            r.repeat_max == 1,
            r.pause_min == 0,
            r.pause_max == 0,
            r.volume_variation == 0,
    {
        AmbientSettings {
            volume: 1000,
            pitch: 1000,
            pan: 0,
            low_pass_freq: 22000,
            reverb_type: String::from_str("off"),
            algorithmic_reverb: 0,
            repeat_min: 1,
            repeat_max: 1,
            pause_min: 0,
            pause_max: 0,
            volume_variation: 0,
        }
    }
}

/// `v` forced into `[lo, hi]`.
pub open spec fn clamp_u32(v: u32, lo: u32, hi: u32) -> u32 {
    if v < lo {
        lo
    } else if v > hi {
        hi
    } else {
        v
    }
}

/// `v` forced into `[lo, hi]`.
pub open spec fn clamp_i32(v: i32, lo: i32, hi: i32) -> i32 {
    if v < lo {
        lo
    } else if v > hi {
        hi
    } else {
        v
    }
}

/// The smaller of `a` and `b`.
pub open spec fn min_u32(a: u32, b: u32) -> u32 {
    if a <= b {
        a
    } else {
        b
    }
}

/// The larger of `a` and `b`.
pub open spec fn max_u32(a: u32, b: u32) -> u32 {
    if a <= b {
        b
    } else {
        a
    }
}

/// Executable clamp matching `clamp_u32`.
pub fn clamp_exec_u32(v: u32, lo: u32, hi: u32) -> (r: u32)
    requires
        lo <= hi,
    ensures
        r == clamp_u32(v, lo, hi),
        lo <= r <= hi,
{
    if v < lo {
        lo
    } else if v > hi {
        hi
    } else {
        v
    }
}

/// Executable clamp matching `clamp_i32`.
pub fn clamp_exec_i32(v: i32, lo: i32, hi: i32) -> (r: i32)
    requires
        lo <= hi,
    ensures
        r == clamp_i32(v, lo, hi),
        lo <= r <= hi,
{
    if v < lo {
        lo
    } else if v > hi {
        hi
    } else {
        v
    }
}

/// One sound of a stored soundscape preset. Continuous fields use the same
/// thousandth units as `AmbientSettings`.
#[derive(Clone, Debug)]
pub struct PresetSound {
    pub category_id: String,
    pub category_path: String,
    pub sound_id: String,
    pub name: String,
    pub files_a: String,
    pub files_b: String,
    pub enabled: bool,
    pub volume: u32,
    pub pitch: u32,
    pub pan: i32,
    pub low_pass_freq: u32,
    pub algorithmic_reverb: u32,
    pub repeat_range_min: u32,
    pub repeat_range_max: u32,
    pub pause_range_min: u32,
    pub pause_range_max: u32,
    pub volume_variation: u32,
}

impl PresetSound {
    /// The ambient settings this preset entry asks for, forced into range.
    pub fn to_settings(&self) -> (r: AmbientSettings)
        ensures
            r.valid(),
            r.volume == clamp_u32(self.volume, 0, 1000),
            r.pitch == clamp_u32(self.pitch, 500, 2000),
            r.pan == clamp_i32(self.pan, -1000i32, 1000),
            r.low_pass_freq == clamp_u32(self.low_pass_freq, 20, 22000),
            r.reverb_type@ == "off"@,
            r.algorithmic_reverb == clamp_u32(self.algorithmic_reverb, 0, 1000),
            r.repeat_min == min_u32(self.repeat_range_min, self.repeat_range_max),
            r.repeat_max == max_u32(self.repeat_range_min, self.repeat_range_max),
            r.pause_min == min_u32(self.pause_range_min, self.pause_range_max),
            r.pause_max == max_u32(self.pause_range_min, self.pause_range_max),
            r.volume_variation == clamp_u32(self.volume_variation, 0, 500),
    {
        let raw = AmbientSettings {
            volume: self.volume,
            pitch: self.pitch,
            pan: self.pan,
            low_pass_freq: self.low_pass_freq,
            reverb_type: String::from_str("off"),
            algorithmic_reverb: self.algorithmic_reverb,
            repeat_min: self.repeat_range_min,
            repeat_max: self.repeat_range_max,
            pause_min: self.pause_range_min,
            pause_max: self.pause_range_max,
            volume_variation: self.volume_variation,
        };
        raw.clamped()
    }
}

/// A stored soundscape preset.
#[derive(Clone, Debug)]
pub struct SoundscapePreset {
    pub id: String,
    pub name: String,
    pub created: String,
    pub modified: String,
    pub sounds: Vec<PresetSound>,
}

/// The record the engine publishes for each playing ambient voice.
#[derive(Clone, Debug)]
pub struct ActiveAmbientInfo {
    pub id: String,
    pub file_a: String,
    pub file_b: String,
    pub settings: AmbientSettings,
}

} // verus!
