//! The stages that run while a level is played.

pub mod cleanup;
pub mod input_processing;
pub mod physics;
pub mod rendering;
pub mod state_changing;
pub mod util;
