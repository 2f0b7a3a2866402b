//! The configuration of one allocation sweep.

use vstd::prelude::*;

verus! {

/// The bitrate range of an encoder and its use of forward error correction.
/// All bitrates are in bits per second.
#[derive(Clone, Copy, Debug, PartialEq, Eq, Structural)]
pub struct Configuration {
    /// Lower bound of the sampled bitrate range.
    pub min_bitrate: u32,
    /// Upper bound of the sampled range, and the bitrate at which the share
    /// for error correction reaches its full height.
    pub max_bitrate: u32,
    /// Up to this bitrate nothing is reserved for error correction.
    pub fec_enable_threshold: u32,
    /// Whether anything is reserved for error correction at all.
    pub fec_enabled: bool,
}

impl Configuration {
    /// The share for error correction rises over a range that is not empty:
    /// the threshold lies below the maximum.
    pub open spec fn is_valid(&self) -> bool {
        self.max_bitrate > self.fec_enable_threshold
    }

    /// Whether the configuration is valid.
    pub fn check_valid(&self) -> (valid: bool)
        ensures
            valid == self.is_valid(),
    {
        self.max_bitrate > self.fec_enable_threshold
    }
}

} // verus!
