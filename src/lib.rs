//! The logic of a small desktop video player that embeds a playback engine's
//! video surface in a GUI window and keeps the controls in step with the engine.
//!
//! - `text`: the `MM:SS` time label.
//! - `geometry`: where the video surface goes inside the window.
//! - `command`: engine commands and their protocol tokens.
//! - `keys`: which key issues which command.
//! - `bridge`: the session's echo suppression, slider seeks, and the steps of
//!   one poll tick that carries engine state into the UI.
//! - `startup`: error kinds, engine options, and the ordered startup steps.
//!
//! Engine readings are fixed-point integers in thousandths (times in
//! milliseconds); the caller converts the engine's floating-point values.

pub mod bridge;
pub mod command;
pub mod geometry;
pub mod keys;
pub mod startup;
pub mod text;
