//! Decision engine of a click-sound bot for a rhythm platformer.
//!
//! Button presses and releases arrive with a timestamp. The engine derives a click
//! category from the time since the previous event, resolves it to a sound that the
//! loaded clickpack really has, computes pitch and volume for it and hands a play
//! command back to the host, which owns the audio device.
//!
//! All real-valued quantities are fixed-point integers: times count microseconds and
//! multipliers count millionths, see [`fixed::UNIT`].

pub mod bot;
pub mod click_type;
pub mod clickpack;
pub mod config;
pub mod fixed;
pub mod random;
pub mod sounds;
pub mod utils;

pub use bot::{Bot, NoiseCommand, PlayCommand, PlayLayer};
pub use click_type::{ClickType, Timings};
pub use clickpack::{
    find_noise_file, load_noise, read_clicks_in_directory, Clickpack, ClickpackTree, DirEntry,
    Listing, LoadError, PackDir,
};
pub use config::{default_buffer_size, Config, Pitch, Stage, VolumeSettings};
pub use fixed::UNIT;
pub use sounds::{SoundWrapper, Sounds};
pub use utils::capitalize_first_letter;
