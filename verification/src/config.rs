//! Settings read from `config.toml`.
//!
//! Real-valued settings are held as the IEEE-754 bit patterns of their `f32`
//! values; the library only stores and hands them on.

use vstd::prelude::*;
use vstd::string::*;

verus! {

/// `[visualizer]` settings.
pub struct VisualizerConfig {
    /// Name of the mode shown at start-up.
    pub mode: String,
    /// Target frame rate.
    pub fps: u32,
    /// Number of spectrum bars; 0 follows the terminal width.
    pub bar_count: usize,
    /// Bit pattern of the `f32` gain applied to magnitudes.
    pub sensitivity_bits: u32,
    /// Whether the status side panel is shown.
    pub show_side_panel: bool,
}

/// `[audio]` settings.
pub struct AudioConfig {
    /// Capture device name, or `default`.
    pub device: String,
    /// `loopback` (what the computer plays) or `mic`.
    pub source: String,
}

/// `[theme]` settings.
pub struct ThemeConfig {
    /// Theme name, matched ignoring case.
    pub name: String,
}

/// `[physics]` settings, as bit patterns of `f32` values.
pub struct PhysicsConfig {
    pub smoothing_bits: u32,
    pub spring_k_bits: u32,
    pub spring_damping_bits: u32,
    pub gravity_bits: u32,
}

/// The whole configuration file.
pub struct Config {
    pub visualizer: VisualizerConfig,
    pub audio: AudioConfig,
    pub theme: ThemeConfig,
    pub physics: PhysicsConfig,
}

/// Bit pattern of `1.0f32`.
pub const F32_ONE_BITS: u32 = 0x3f80_0000;

/// Bit pattern of `0.7f32`.
pub const F32_0_7_BITS: u32 = 0x3f33_3333;

/// Bit pattern of `15.0f32`.
pub const F32_15_BITS: u32 = 0x4170_0000;

/// Bit pattern of `1.8f32`.
pub const F32_1_8_BITS: u32 = 0x3fe6_6666;

/// Bit pattern of `1.5f32`.
pub const F32_1_5_BITS: u32 = 0x3fc0_0000;

impl Config {
    /// The configuration written on first start: bars mode at 60 fps with
    /// width-following bar count, unit sensitivity and the side panel shown;
    /// the default device in loopback; Tokyo Night; smoothing 0.7, spring
    /// constant 15, damping 1.8, gravity 1.5.
    pub open spec fn is_default(&self) -> bool {
        &&& self.visualizer.mode@ == "bars"@
        &&& self.visualizer.fps == 60
        &&& self.visualizer.bar_count == 0
        &&& self.visualizer.sensitivity_bits == F32_ONE_BITS
        &&& self.visualizer.show_side_panel
        &&& self.audio.device@ == "default"@
        &&& self.audio.source@ == "loopback"@
        &&& self.theme.name@ == "tokyo_night"@
        &&& self.physics.smoothing_bits == F32_0_7_BITS
        &&& self.physics.spring_k_bits == F32_15_BITS
        &&& self.physics.spring_damping_bits == F32_1_8_BITS
        &&& self.physics.gravity_bits == F32_1_5_BITS
    }
}

impl Default for Config {
    fn default() -> (c: Self)
        ensures
            c.is_default(),
    {
        Config {
            visualizer: VisualizerConfig {
                mode: String::from_str("bars"),
                fps: 60,
                bar_count: 0,
                sensitivity_bits: F32_ONE_BITS,
                show_side_panel: true,
            },
            audio: AudioConfig {
                device: String::from_str("default"),
                source: String::from_str("loopback"),
            },
            theme: ThemeConfig { name: String::from_str("tokyo_night") },
            physics: PhysicsConfig {
                smoothing_bits: F32_0_7_BITS,
                spring_k_bits: F32_15_BITS,
                spring_damping_bits: F32_1_8_BITS,
                gravity_bits: F32_1_5_BITS,
            },
        }
    }
}

/// Whether switching from `old` to `new` needs the capture stream restarted:
/// the device or the source changed.
pub open spec fn needs_restart(old: Config, new: Config) -> bool {
    old.audio.device@ != new.audio.device@ || old.audio.source@ != new.audio.source@
}

/// Capture restarts exactly when the audio settings that pick the stream
/// change: a different device restarts it whatever the source, a different
/// source restarts it whatever the device, and the same device and source
/// keep it running.
pub proof fn lemma_restart_on_audio_change(old: Config, new: Config)
    ensures
        old.audio.device@ != new.audio.device@ ==> needs_restart(old, new),
        old.audio.source@ != new.audio.source@ ==> needs_restart(old, new),
        old.audio.device@ == new.audio.device@ && old.audio.source@ == new.audio.source@ ==> !needs_restart(old, new),
{
}

} // verus!
