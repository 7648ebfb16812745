//! Settings of the engine, and the volume that they give a click.

use crate::click_type::{ClickType, Timings};
use crate::fixed::{scale, spec_scale, UNIT};
use vstd::prelude::*;

verus! {

/// Range of the random pitch multiplier, in millionths; `UNIT` leaves the pitch
/// unchanged. `step` is the granularity that an editor of the range uses.
#[derive(Clone, Copy, Debug, PartialEq, Eq, Structural)]
pub struct Pitch {
    pub from: i64,
    pub to: i64,
    pub step: i64,
}

impl Pitch {
    /// The range is not empty.
    pub open spec fn valid(self) -> bool {
        self.from <= self.to
    }
}

impl Default for Pitch {
    fn default() -> (r: Pitch)
        ensures
            r == (Pitch { from: 950_000, to: 1_050_000, step: 1_000 }),
            r.valid(),
    {
        Pitch { from: 950_000, to: 1_050_000, step: 1_000 }
    }
}

/// Volume of a click: a multiplier for all sounds, a random variation, and the
/// ducking of clicks that follow each other quickly. Times are in microseconds,
/// factors and volumes in millionths.
#[derive(Clone, Copy, Debug, PartialEq, Eq, Structural)]
pub struct VolumeSettings {
    /// Whether quick clicks are ducked at all.
    pub enabled: bool,
    /// Clicks that come sooner than this after the previous event are ducked.
    pub spam_time: u32,
    /// How much volume a click loses for each unit of time that it comes early.
    pub spam_vol_offset_factor: i32,
    /// The most that ducking takes off.
    pub max_spam_vol_offset: i32,
    /// Whether releases are ducked too.
    pub change_releases_volume: bool,
    /// Multiplier applied to every sound last.
    pub global_volume: u32,
    /// Largest random deviation of the volume, in either direction.
    pub volume_var: u32,
}

impl Default for VolumeSettings {
    fn default() -> (r: VolumeSettings)
        ensures
            r == (VolumeSettings {
                enabled: true,
                spam_time: 300_000,
                spam_vol_offset_factor: 900_000,
                max_spam_vol_offset: 300_000,
                change_releases_volume: false,
                global_volume: 1_000_000,
                volume_var: 200_000,
            }),
    {
        VolumeSettings {
            enabled: true,
            spam_time: 300_000,
            spam_vol_offset_factor: 900_000,
            max_spam_vol_offset: 300_000,
            change_releases_volume: false,
            global_volume: 1_000_000,
            volume_var: 200_000,
        }
    }
}

impl VolumeSettings {
    /// Whether a click of category `resolved` that comes `dt` microseconds after the
    /// previous event is ducked.
    pub open spec fn ducks(self, dt: u64, resolved: ClickType) -> bool {
        self.enabled && dt < self.spam_time && (self.change_releases_volume
            || !resolved.spec_is_release())
    }

    /// The volume that ducking takes off: the time by which the click comes early,
    /// times the factor, but no more than the maximum; nothing for a click that is
    /// not ducked.
    pub open spec fn spec_spam_offset(self, dt: u64, resolved: ClickType) -> int {
        if self.ducks(dt, resolved) {
            let offset = spec_scale(self.spam_time - dt, self.spam_vol_offset_factor as int);
            if offset <= self.max_spam_vol_offset {
                offset
            } else {
                self.max_spam_vol_offset as int
            }
        } else {
            0
        }
    }

    /// The volume of a click: one whole, plus the random deviation `jitter`, minus
    /// what ducking takes off, all times the global volume.
    pub open spec fn spec_volume(self, dt: u64, resolved: ClickType, jitter: int) -> int {
        spec_scale(
            UNIT + jitter - self.spec_spam_offset(dt, resolved),
            self.global_volume as int,
        )
    }

    /// The volume that ducking takes off a click, see [`Self::spec_spam_offset`].
    pub fn spam_offset(&self, dt: u64, resolved: ClickType) -> (offset: i64)
        ensures
            offset == self.spec_spam_offset(dt, resolved),
            -0x1000_0000_0000 <= offset <= 0x8000_0000,
    {
        if self.enabled && dt < self.spam_time as u64 && (self.change_releases_volume
            || !resolved.is_release()) {
            let early: i64 = (self.spam_time as u64 - dt) as i64;
            let raw: i128 = scale(early, self.spam_vol_offset_factor as i64);
            proof {
                scale_is_bounded(
                    early as int,
                    self.spam_vol_offset_factor as int,
                    0x1_0000_0000,
                    0x8000_0000,
                );
                assert(0x1_0000_0000int * 0x8000_0000 == 0x8000_0000_0000_0000);
                assert(0x8000_0000_0000_0000int / 1_000_000 < 0x1000_0000_0000 - 1);
            }
            if raw <= self.max_spam_vol_offset as i128 {
                raw as i64
            } else {
                self.max_spam_vol_offset as i64
            }
        } else {
            0
        }
    }

    /// The volume of a click for a given random deviation, see
    /// [`Self::spec_volume`].
    pub fn volume(&self, dt: u64, resolved: ClickType, jitter: i64) -> (volume: i64)
        requires
            -self.volume_var <= jitter <= self.volume_var,
        ensures
            volume == self.spec_volume(dt, resolved, jitter as int),
    {
        let offset = self.spam_offset(dt, resolved);
        let before: i64 = UNIT + jitter - offset;
        let scaled: i128 = scale(before, self.global_volume as i64);
        proof {
            scale_is_bounded(
                before as int,
                self.global_volume as int,
                0x2000_0000_0000,
                0x1_0000_0000,
            );
            assert(0x2000_0000_0000int * 0x1_0000_0000 == 0x2000_0000_0000_0000_0000);
            assert(0x2000_0000_0000_0000_0000int / 1_000_000 < 0x4000_0000_0000_0000);
        }
        scaled as i64
    }
}

/// A product of two bounded fixed-point values is bounded.
proof fn scale_is_bounded(a: int, b: int, bound_a: int, bound_b: int)
    requires
        -bound_a <= a <= bound_a,
        -bound_b <= b <= bound_b,
    ensures
        -((bound_a * bound_b) / 1_000_000) - 1 <= spec_scale(a, b) <= (bound_a * bound_b)
            / 1_000_000,
{
    let p = a * b;
    let m = bound_a * bound_b;
    assert(-m <= p <= m) by (nonlinear_arith)
        requires
            -bound_a <= a <= bound_a,
            -bound_b <= b <= bound_b,
            p == a * b,
            m == bound_a * bound_b,
    ;
    assert(-(m / 1_000_000) - 1 <= p / 1_000_000 <= m / 1_000_000) by (nonlinear_arith)
        requires
            -m <= p <= m,
    ;
}

/// The page of the settings window that is open.
#[derive(Clone, Copy, Debug, PartialEq, Eq, Structural)]
pub enum Stage {
    Clickpack,
    Audio,
    Options,
}

impl Default for Stage {
    fn default() -> (r: Stage)
        ensures
            r == Stage::Clickpack,
    {
        Stage::Clickpack
    }
}

/// Size of the audio buffer, in samples, where none is configured.
pub fn default_buffer_size() -> (size: u32)
    ensures
        size == 512,
{
    512
}

/// Everything that the user can set.
#[derive(Clone, Debug)]
pub struct Config {
    /// Whether the pitch of each click is drawn at random.
    pub pitch_enabled: bool,
    pub pitch: Pitch,
    pub timings: Timings,
    pub volume_settings: VolumeSettings,
    /// Name of the output device; empty for the default device.
    pub selected_device: String,
    /// Whether the bot plays clicks at all.
    pub enabled: bool,
    /// Whether the settings window is hidden.
    pub hidden: bool,
    /// Size of the audio buffer in samples, at least 1.
    pub buffer_size: u32,
    /// Whether the background noise of the clickpack plays.
    pub play_noise: bool,
    /// Volume of the background noise, in millionths.
    pub noise_volume: u32,
    pub use_alternate_hook: bool,
    pub show_console: bool,
    pub stage: Stage,
    pub use_fmod: bool,
    /// Whether events are timed by the game's clock rather than by the time since
    /// the level started.
    pub use_playlayer_time: bool,
}

impl Config {
    /// The settings that the engine can work with: where the pitch is varied, the
    /// pitch range is not empty.
    pub open spec fn valid(&self) -> bool {
        self.pitch_enabled ==> self.pitch.valid()
    }

    /// The settings of a fresh installation.
    pub open spec fn is_default(&self) -> bool {
        &&& self.pitch_enabled
        &&& self.pitch == (Pitch { from: 950_000, to: 1_050_000, step: 1_000 })
        &&& self.timings == (Timings { hard: 2_000_000, regular: 150_000, soft: 25_000 })
        &&& self.volume_settings == (VolumeSettings {
            enabled: true,
            spam_time: 300_000,
            spam_vol_offset_factor: 900_000,
            max_spam_vol_offset: 300_000,
            change_releases_volume: false,
            global_volume: 1_000_000,
            volume_var: 200_000,
        })
        &&& self.selected_device@.len() == 0
        &&& self.enabled
        &&& !self.hidden
        &&& self.buffer_size == 512
        &&& !self.play_noise
        &&& self.noise_volume == 1_000_000
        &&& !self.use_alternate_hook
        &&& !self.show_console
        &&& self.stage == Stage::Clickpack
        &&& !self.use_fmod
        &&& !self.use_playlayer_time
    }

    /// The same settings with the buffer size raised to 1 where it was 0.
    pub fn fixup(self) -> (fixed: Config)
        ensures
            fixed.buffer_size == (if self.buffer_size == 0 {
                1u32
            } else {
                self.buffer_size
            }),
            fixed == (Config { buffer_size: fixed.buffer_size, ..self }),
    {
        let mut fixed = self;
        if fixed.buffer_size < 1 {
            fixed.buffer_size = 1;
        }
        fixed
    }
}

impl Default for Config {
    fn default() -> (r: Config)
        ensures
            r.is_default(),
            r.valid(),
    {
        Config {
            pitch_enabled: true,
            pitch: Pitch::default(),
            timings: Timings::default(),
            volume_settings: VolumeSettings::default(),
            selected_device: String::new(),
            enabled: true,
            hidden: false,
            buffer_size: default_buffer_size(),
            play_noise: false,
            noise_volume: 1_000_000,
            use_alternate_hook: false,
            show_console: false,
            stage: Stage::default(),
            use_fmod: false,
            use_playlayer_time: false,
        }
    }
}

} // verus!
