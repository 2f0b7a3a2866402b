//! The set of configurations that a run charts, one chart for each.

use vstd::prelude::*;
use crate::config::Configuration;

verus! {

/// The step by which the maximum bitrate grows from one scenario to the next.
pub const DEFAULT_UNIT: u32 = 1_024_000;

/// The number of scenarios.
pub const DEFAULT_SCENARIO_COUNT: u32 = 8;

/// The minimum bitrate of every scenario.
pub const DEFAULT_MIN_BITRATE: u32 = 1_000;

/// The threshold of every scenario.
pub const DEFAULT_FEC_ENABLE_THRESHOLD: u32 = 2_000_000;

/// The distance between two sampled bitrates.
pub const DEFAULT_STRIDE: u32 = 10_000;

/// The scenario at place `i`: its maximum bitrate is `i + 1` times `unit`.
pub open spec fn scenario_at(
    unit: u32,
    min_bitrate: u32,
    fec_enable_threshold: u32,
    fec_enabled: bool,
    i: int,
) -> Configuration {
    Configuration {
        min_bitrate,
        max_bitrate: ((i + 1) * unit) as u32,
        fec_enable_threshold,
        fec_enabled,
    }
}

/// `count` configurations that differ only in their maximum bitrate, which
/// is `unit`, twice `unit`, and so on up to `count` times `unit`.
pub fn scenarios(
    unit: u32,
    count: u32,
    min_bitrate: u32,
    fec_enable_threshold: u32,
    fec_enabled: bool,
) -> (all: Vec<Configuration>)
    requires
        unit * count <= u32::MAX,
    ensures
        all@.len() == count,
        forall|i: int|
            0 <= i < count ==> {
                &&& #[trigger] all@[i] == scenario_at(
                    unit,
                    min_bitrate,
                    fec_enable_threshold,
                    fec_enabled,
                    i,
                )
                &&& all@[i].max_bitrate == (i + 1) * unit
            },
{
    let mut all: Vec<Configuration> = Vec::new();
    let mut i: u32 = 0;
    while i < count
        invariant
            i <= count,
            unit * count <= u32::MAX,
            all@.len() == i,
            forall|j: int|
                0 <= j < i ==> {
                    &&& #[trigger] all@[j] == scenario_at(
                        unit,
                        min_bitrate,
                        fec_enable_threshold,
                        fec_enabled,
                        j,
                    )
                    &&& all@[j].max_bitrate == (j + 1) * unit
                },
        decreases count - i,
    {
        assert((i + 1) * unit <= unit * count) by (nonlinear_arith)
            requires
                i + 1 <= count,
        ;
        let max_bitrate: u32 = (i + 1) * unit;
        all.push(Configuration { min_bitrate, max_bitrate, fec_enable_threshold, fec_enabled });
        i = i + 1;
    }
    all
}

/// The scenarios of a standard run: error correction switched on, and the
/// maximum bitrate at one to eight times the unit.
pub fn default_scenarios() -> (all: Vec<Configuration>)
    ensures
        all@.len() == DEFAULT_SCENARIO_COUNT,
        forall|i: int|
            0 <= i < DEFAULT_SCENARIO_COUNT ==> #[trigger] all@[i] == (Configuration {
                min_bitrate: DEFAULT_MIN_BITRATE,
                max_bitrate: ((i + 1) * DEFAULT_UNIT) as u32,
                fec_enable_threshold: DEFAULT_FEC_ENABLE_THRESHOLD,
                fec_enabled: true,
            }),
{
    scenarios(
        DEFAULT_UNIT,
        DEFAULT_SCENARIO_COUNT,
        DEFAULT_MIN_BITRATE,
        DEFAULT_FEC_ENABLE_THRESHOLD,
        true,
    )
}

} // verus!
