//! Bitrate allocation for an encoder that reserves part of its bitrate for
//! forward error correction, and the sweep that samples the allocation over a
//! bitrate range for charting. All results are exact.

pub mod allocator;
pub mod chart;
pub mod config;
pub mod extended;
pub mod laws;
pub mod ratio;
mod real_lemmas;
pub mod scenario;
pub mod sweep;
