//! Lyric timing and progressive-rendering engine for a desktop lyrics overlay.
//!
//! The engine turns a playback timestamp into a highlight state for the lyric
//! line currently being sung, keeps one shared playback state consistent under
//! a serialized stream of mutations, and drives the per-window render loop.

pub mod embed;
pub mod lyrics;
pub mod progress;
pub mod render;
pub mod state;
