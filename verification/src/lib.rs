//! Verified core of the Mirage terminal audio visualizer: sample buffers,
//! spectrogram history, menu and key handling, palettes, device selection
//! and the integer geometry behind the braille widgets.

pub mod app;
pub mod audio;
pub mod braille;
pub mod config;
pub mod dsp;
pub mod frames;
pub mod layout;
pub mod line;
pub mod mode;
pub mod ring;
pub mod text;
pub mod theme;
pub mod widgets;
