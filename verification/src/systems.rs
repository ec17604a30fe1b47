//! The stages of the per-tick pipeline, grouped by game mode.

pub mod playing;
