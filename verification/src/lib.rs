//! Verified core of a car dashboard: theme and clock settings, the music
//! queue and the screen navigation, separated from drawing and audio I/O.
pub mod browser;
pub mod clock;
pub mod controller;
pub mod library;
pub mod music;
pub mod settings;
pub mod text;
pub mod theme;

pub use clock::ClockFormat;
pub use text::{format_clock, format_time};
pub use theme::{Color, Palette, ThemeMode};
