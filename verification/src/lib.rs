//! Compute-device detection, ranking, compatibility checks and GPU-to-CPU
//! fallback supervision, with machine-checked contracts, and the rules of
//! the application around them.

pub mod ai;
pub mod asr;
pub mod gpu;
pub mod media;
pub mod paths;
pub mod queue;
pub mod text;
pub mod time;
