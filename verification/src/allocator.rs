//! The split of a bitrate between the encoder and forward error correction.
//!
//! Above the threshold the share reserved for error correction grows in
//! proportion to the bitrate, and reaches fifty percent at the maximum
//! bitrate. Nothing is clamped and nothing is rounded: beyond the maximum the
//! share keeps growing, and where the maximum equals the threshold the
//! quotient by zero shows in the result as an infinite value.

use vstd::prelude::*;
use crate::config::Configuration;
use crate::extended::Extended;
use crate::ratio::Ratio;

verus! {

/// Whether anything is reserved for error correction at `bitrate`.
pub open spec fn fec_active(config: Configuration, bitrate: u32) -> bool {
    config.fec_enabled && bitrate > config.fec_enable_threshold
}

/// How far `bitrate` has come from the threshold to the maximum: zero up to
/// the threshold, one at the maximum.
pub open spec fn fec_ratio(config: Configuration, bitrate: u32) -> Extended {
    if fec_active(config, bitrate) {
        Extended::from_int(bitrate - config.fec_enable_threshold).div(
            Extended::from_int(config.max_bitrate - config.fec_enable_threshold),
        )
    } else {
        Extended::from_int(0)
    }
}

/// The percentage reserved for error correction: fifty times the ratio.
pub open spec fn fec_fraction_percent(config: Configuration, bitrate: u32) -> Extended {
    fec_ratio(config, bitrate).mul(Extended::from_int(50))
}

/// The percentage as a fraction of one.
pub open spec fn fec_share(config: Configuration, bitrate: u32) -> Extended {
    fec_fraction_percent(config, bitrate).div(Extended::from_int(100))
}

/// The bitrate of the encoder: the bitrate over one plus the share.
pub open spec fn encoder_bitrate(config: Configuration, bitrate: u32) -> Extended {
    Extended::from_int(bitrate as int).div(
        Extended::from_int(1).add(fec_share(config, bitrate)),
    )
}

/// The bitrate of error correction: the share of the bitrate.
pub open spec fn fec_bitrate(config: Configuration, bitrate: u32) -> Extended {
    fec_share(config, bitrate).mul(Extended::from_int(bitrate as int))
}

/// The sum of the encoder's bitrate and that of error correction.
pub open spec fn total_bitrate(config: Configuration, bitrate: u32) -> Extended {
    encoder_bitrate(config, bitrate).add(fec_bitrate(config, bitrate))
}

/// The allocation computed for one bitrate.
#[derive(Clone, Copy, Debug)]
pub struct AllocationResult {
    /// Percentage of the bitrate reserved for error correction.
    pub fec_fraction_percent: Ratio,
    /// Bitrate allotted to error correction.
    pub fec_bitrate: Ratio,
    /// Bitrate allotted to the encoder.
    pub encoder_bitrate: Ratio,
    /// Sum of the two.
    pub total_bitrate: Ratio,
}

impl AllocationResult {
    /// Every field is a well-formed fraction.
    pub open spec fn wf(&self) -> bool {
        &&& self.fec_fraction_percent.wf()
        &&& self.fec_bitrate.wf()
        &&& self.encoder_bitrate.wf()
        &&& self.total_bitrate.wf()
    }

    /// The result is the allocation of `bitrate` under `config`.
    pub open spec fn is_allocation_of(&self, config: Configuration, bitrate: u32) -> bool {
        &&& self.wf()
        &&& self.fec_fraction_percent@ == fec_fraction_percent(config, bitrate)
        &&& self.fec_bitrate@ == fec_bitrate(config, bitrate)
        &&& self.encoder_bitrate@ == encoder_bitrate(config, bitrate)
        &&& self.total_bitrate@ == total_bitrate(config, bitrate)
    }
}

/// The numerator lies within `n` of zero, and the denominator is at most `d`.
spec fn within(r: Ratio, n: int, d: int) -> bool {
    &&& -n <= r.num <= n
    &&& 0 <= r.den <= d
}

/// A product lies within the product of its factors' bounds.
proof fn lemma_product_bound(x: int, y: int, bound_x: int, bound_y: int)
    by (nonlinear_arith)
    requires
        -bound_x <= x <= bound_x,
        -bound_y <= y <= bound_y,
    ensures
        -(bound_x * bound_y) <= x * y <= bound_x * bound_y,
{
}

/// The formula by which an allocation is computed.
#[derive(Clone, Copy, Debug, PartialEq, Eq, Structural)]
pub enum Strategy {
    /// The established formula.
    Old,
    /// The place of a later formula. Until one is settled it is the
    /// established one.
    New,
}

impl Strategy {
    /// The text of the caption of a chart drawn with this formula.
    pub open spec fn caption_text(self) -> Seq<char> {
        "encoders_bitrate = (bitrate as f64) / (1. + (fec_percentage / 100.))"@
    }

    /// The caption of a chart drawn with this formula: the line that gives
    /// the encoder's bitrate.
    pub fn caption(self) -> (text: &'static str)
        ensures
            text@ == self.caption_text(),
    {
        "encoders_bitrate = (bitrate as f64) / (1. + (fec_percentage / 100.))"
    }
}

/// The allocation of `bitrate` under `config` by the formula that `strategy`
/// names, for any bitrate and any configuration.
pub fn allocate(strategy: Strategy, config: &Configuration, bitrate: u32) -> (r: AllocationResult)
    ensures
        r.is_allocation_of(*config, bitrate),
{
    match strategy {
        Strategy::Old => calc_old(config, bitrate),
        Strategy::New => calc_new(config, bitrate),
    }
}

/// The allocation of `bitrate` under `config` by the later formula, which so
/// far is the established one.
pub fn calc_new(config: &Configuration, bitrate: u32) -> (r: AllocationResult)
    ensures
        r.is_allocation_of(*config, bitrate),
{
    calc_old(config, bitrate)
}

/// The allocation of `bitrate` under `config`, for any bitrate and any
/// configuration: the five steps from the ratio to the total, each exact.
pub fn calc_old(config: &Configuration, bitrate: u32) -> (r: AllocationResult)
    ensures
        r.is_allocation_of(*config, bitrate),
{
    let ghost w: int = 0x1_0000_0000;
    let ratio = if config.fec_enabled && bitrate > config.fec_enable_threshold {
        let above = Ratio::from_int(bitrate as i64 - config.fec_enable_threshold as i64);
        let span = Ratio::from_int(config.max_bitrate as i64 - config.fec_enable_threshold as i64);
        above.div(&span)
    } else {
        Ratio::from_int(0)
    };
    assert(within(ratio, w, w));
    let percent = ratio.mul(&Ratio::from_int(50));
    assert(within(percent, 50 * w, w));
    let share = percent.div(&Ratio::from_int(100));
    assert(within(share, 50 * w, 100 * w));
    let one_plus = Ratio::from_int(1).add(&share);
    assert(within(one_plus, 150 * w, 100 * w));
    let whole = Ratio::from_int(bitrate as i64);
    proof {
        lemma_product_bound(whole.num as int, one_plus.den as int, w, 100 * w);
        lemma_product_bound(share.num as int, whole.num as int, 50 * w, w);
    }
    let encoder = whole.div(&one_plus);
    assert(within(encoder, 100 * w * w, 150 * w));
    let fec = share.mul(&whole);
    assert(within(fec, 50 * w * w, 100 * w));
    proof {
        lemma_product_bound(encoder.num as int, fec.den as int, 100 * w * w, 100 * w);
        lemma_product_bound(fec.num as int, encoder.den as int, 50 * w * w, 150 * w);
        lemma_product_bound(encoder.den as int, fec.den as int, 150 * w, 100 * w);
    }
    let total = encoder.add(&fec);
    AllocationResult {
        fec_fraction_percent: percent,
        fec_bitrate: fec,
        encoder_bitrate: encoder,
        total_bitrate: total,
    }
}

} // verus!
