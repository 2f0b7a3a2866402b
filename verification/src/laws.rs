//! What holds of the allocation for every bitrate and every configuration.
//!
//! For a valid configuration every part of the allocation is a real number,
//! given here in closed form. The other statements follow the share for error
//! correction along the bitrate axis: zero up to the threshold, rising from
//! there, fifty percent at the maximum, and more beyond it.

use vstd::prelude::*;
use crate::allocator::{
    encoder_bitrate, fec_active, fec_bitrate, fec_fraction_percent, fec_ratio, fec_share,
    total_bitrate, AllocationResult,
};
use crate::config::Configuration;
use crate::extended::{lemma_div_by_zero, lemma_div_finite, Extended};
use crate::real_lemmas::{
    lemma_real_fraction_monotone, lemma_real_fraction_of_equal, lemma_real_fraction_sign,
    lemma_real_over_one, lemma_real_product_sign, lemma_real_zero_fraction,
};

verus! {

/// The percentage reserved for error correction, as a real number.
pub open spec fn percent_value(config: Configuration, bitrate: u32) -> real {
    if fec_active(config, bitrate) {
        (bitrate - config.fec_enable_threshold) as real / (config.max_bitrate
            - config.fec_enable_threshold) as real * 50real
    } else {
        0real
    }
}

/// The encoder's bitrate, as a real number.
pub open spec fn encoder_value(config: Configuration, bitrate: u32) -> real {
    bitrate as real / (1real + percent_value(config, bitrate) / 100real)
}

/// The bitrate of error correction, as a real number.
pub open spec fn fec_value(config: Configuration, bitrate: u32) -> real {
    percent_value(config, bitrate) / 100real * bitrate as real
}

/// Under a valid configuration every part of the allocation is a real number:
/// the percentage is not negative, and the parts are the quotients and
/// products of reals that their definitions name.
pub proof fn lemma_valid_allocation_is_finite(config: Configuration, bitrate: u32)
    requires
        config.is_valid(),
    ensures
        percent_value(config, bitrate) >= 0real,
        fec_fraction_percent(config, bitrate) == Extended::Finite(percent_value(config, bitrate)),
        encoder_bitrate(config, bitrate) == Extended::Finite(encoder_value(config, bitrate)),
        fec_bitrate(config, bitrate) == Extended::Finite(fec_value(config, bitrate)),
        total_bitrate(config, bitrate) == Extended::Finite(
            encoder_value(config, bitrate) + fec_value(config, bitrate),
        ),
{
    let percent = percent_value(config, bitrate);
    if fec_active(config, bitrate) {
        let above = (bitrate - config.fec_enable_threshold) as real;
        let span = (config.max_bitrate - config.fec_enable_threshold) as real;
        lemma_div_finite(above, span);
        lemma_real_fraction_sign(above, span);
        assert(fec_ratio(config, bitrate) == Extended::Finite(above / span));
        assert(fec_fraction_percent(config, bitrate) == Extended::Finite(above / span * 50real));
    } else {
        assert(fec_ratio(config, bitrate) == Extended::Finite(0real));
        assert(fec_fraction_percent(config, bitrate) == Extended::Finite(0real * 50real));
    }
    assert(fec_fraction_percent(config, bitrate) == Extended::Finite(percent));
    lemma_div_finite(percent, 100real);
    lemma_real_fraction_sign(percent, 100real);
    assert(fec_share(config, bitrate) == Extended::Finite(percent / 100real));
    lemma_div_finite(bitrate as real, 1real + percent / 100real);
}

/// With error correction switched off, nothing is allotted to it and the
/// encoder has the whole bitrate.
pub proof fn lemma_disabled_gives_all_to_encoder(config: Configuration, bitrate: u32)
    requires
        !config.fec_enabled,
    ensures
        fec_fraction_percent(config, bitrate) == Extended::from_int(0),
        fec_bitrate(config, bitrate) == Extended::from_int(0),
        encoder_bitrate(config, bitrate) == Extended::from_int(bitrate as int),
        total_bitrate(config, bitrate) == Extended::from_int(bitrate as int),
{
    lemma_inactive_gives_all_to_encoder(config, bitrate);
}

/// Up to the threshold nothing is reserved for error correction, and the
/// encoder has the whole bitrate.
pub proof fn lemma_zero_up_to_threshold(config: Configuration, bitrate: u32)
    requires
        bitrate <= config.fec_enable_threshold,
    ensures
        fec_fraction_percent(config, bitrate) == Extended::from_int(0),
        fec_bitrate(config, bitrate) == Extended::from_int(0),
        encoder_bitrate(config, bitrate) == Extended::from_int(bitrate as int),
        total_bitrate(config, bitrate) == Extended::from_int(bitrate as int),
{
    lemma_inactive_gives_all_to_encoder(config, bitrate);
}

/// Where error correction is not active the allocation is the bitrate
/// itself, whatever else the configuration holds.
proof fn lemma_inactive_gives_all_to_encoder(config: Configuration, bitrate: u32)
    requires
        !fec_active(config, bitrate),
    ensures
        fec_fraction_percent(config, bitrate) == Extended::from_int(0),
        fec_bitrate(config, bitrate) == Extended::from_int(0),
        encoder_bitrate(config, bitrate) == Extended::from_int(bitrate as int),
        total_bitrate(config, bitrate) == Extended::from_int(bitrate as int),
{
    assert(fec_ratio(config, bitrate) == Extended::Finite(0real));
    assert(fec_fraction_percent(config, bitrate) == Extended::Finite(0real * 50real));
    lemma_div_finite(0real, 100real);
    lemma_real_zero_fraction(100real);
    assert(fec_share(config, bitrate) == Extended::Finite(0real));
    lemma_div_finite(bitrate as real, 1real);
    lemma_real_over_one(bitrate as real);
    lemma_real_product_sign(0real, bitrate as real);
    assert(fec_bitrate(config, bitrate) == Extended::Finite(0real * bitrate as real));
}

/// At the maximum bitrate of a valid configuration, with error correction
/// switched on, exactly fifty percent are reserved for it.
pub proof fn lemma_fifty_percent_at_max(config: Configuration)
    requires
        config.is_valid(),
        config.fec_enabled,
    ensures
        fec_fraction_percent(config, config.max_bitrate) == Extended::from_int(50),
{
    lemma_valid_allocation_is_finite(config, config.max_bitrate);
    lemma_real_fraction_of_equal((config.max_bitrate - config.fec_enable_threshold) as real);
}

/// The total is the sum of the encoder's bitrate and that of error
/// correction, in the formulas and in every computed allocation.
pub proof fn lemma_total_is_sum(r: AllocationResult, config: Configuration, bitrate: u32)
    requires
        r.is_allocation_of(config, bitrate),
    ensures
        total_bitrate(config, bitrate) == encoder_bitrate(config, bitrate).add(
            fec_bitrate(config, bitrate),
        ),
        r.total_bitrate@ == r.encoder_bitrate@.add(r.fec_bitrate@),
{
}

/// Under a valid configuration the percentage reserved for error correction
/// never falls as the bitrate rises.
pub proof fn lemma_percent_is_monotone(config: Configuration, lower: u32, higher: u32)
    requires
        config.is_valid(),
        lower <= higher,
    ensures
        fec_fraction_percent(config, lower) == Extended::Finite(percent_value(config, lower)),
        fec_fraction_percent(config, higher) == Extended::Finite(percent_value(config, higher)),
        percent_value(config, lower) <= percent_value(config, higher),
{
    lemma_valid_allocation_is_finite(config, lower);
    lemma_valid_allocation_is_finite(config, higher);
    if fec_active(config, lower) {
        lemma_real_fraction_monotone(
            (lower - config.fec_enable_threshold) as real,
            (higher - config.fec_enable_threshold) as real,
            (config.max_bitrate - config.fec_enable_threshold) as real,
        );
    }
}

/// Under a valid configuration the percentage stays between zero and fifty
/// for every bitrate up to the maximum.
pub proof fn lemma_percent_within_fifty_up_to_max(config: Configuration, bitrate: u32)
    requires
        config.is_valid(),
        bitrate <= config.max_bitrate,
    ensures
        fec_fraction_percent(config, bitrate) == Extended::Finite(percent_value(config, bitrate)),
        0real <= percent_value(config, bitrate) <= 50real,
{
    lemma_valid_allocation_is_finite(config, bitrate);
    lemma_percent_is_monotone(config, bitrate, config.max_bitrate);
    if config.fec_enabled {
        lemma_fifty_percent_at_max(config);
        assert(Extended::Finite(percent_value(config, config.max_bitrate)) == Extended::Finite(
            50real,
        ));
    }
}

/// The percentage is not clamped: beyond the maximum bitrate of a valid
/// configuration, with error correction switched on, it exceeds fifty.
pub proof fn lemma_percent_exceeds_fifty_beyond_max(config: Configuration, bitrate: u32)
    requires
        config.is_valid(),
        config.fec_enabled,
        bitrate > config.max_bitrate,
    ensures
        fec_fraction_percent(config, bitrate) == Extended::Finite(percent_value(config, bitrate)),
        percent_value(config, bitrate) > 50real,
{
    lemma_valid_allocation_is_finite(config, bitrate);
    let span = (config.max_bitrate - config.fec_enable_threshold) as real;
    lemma_real_fraction_of_equal(span);
    lemma_real_fraction_monotone(span, (bitrate - config.fec_enable_threshold) as real, span);
}

/// Where error correction is active under a valid configuration, the
/// encoder gets less than the bitrate and the total comes to more than it:
/// the share is taken off by division and put on by multiplication.
pub proof fn lemma_total_exceeds_bitrate_when_active(config: Configuration, bitrate: u32)
    requires
        config.is_valid(),
        fec_active(config, bitrate),
    ensures
        total_bitrate(config, bitrate) == Extended::Finite(
            encoder_value(config, bitrate) + fec_value(config, bitrate),
        ),
        0real < encoder_value(config, bitrate) < bitrate as real,
        encoder_value(config, bitrate) + fec_value(config, bitrate) > bitrate as real,
{
    lemma_valid_allocation_is_finite(config, bitrate);
    let above = (bitrate - config.fec_enable_threshold) as real;
    let span = (config.max_bitrate - config.fec_enable_threshold) as real;
    lemma_real_fraction_sign(above, span);
    let percent = percent_value(config, bitrate);
    assert(percent > 0real) by (nonlinear_arith)
        requires
            percent == above / span * 50real,
            above / span > 0real,
    ;
    let share = percent / 100real;
    lemma_real_fraction_sign(percent, 100real);
    let whole = bitrate as real;
    let encoder = encoder_value(config, bitrate);
    assert(0real < encoder < whole && encoder + share * whole > whole) by (nonlinear_arith)
        requires
            share > 0real,
            whole > 0real,
            encoder == whole / (1real + share),
    ;
}

/// The lower bound of the sampled range plays no part in the allocation: two
/// configurations that differ in nothing else allocate alike, at every bitrate.
pub proof fn lemma_allocation_ignores_min_bitrate(
    config: Configuration,
    other: Configuration,
    bitrate: u32,
)
    requires
        config.max_bitrate == other.max_bitrate,
        config.fec_enable_threshold == other.fec_enable_threshold,
        config.fec_enabled == other.fec_enabled,
    ensures
        fec_fraction_percent(config, bitrate) == fec_fraction_percent(other, bitrate),
        fec_bitrate(config, bitrate) == fec_bitrate(other, bitrate),
        encoder_bitrate(config, bitrate) == encoder_bitrate(other, bitrate),
        total_bitrate(config, bitrate) == total_bitrate(other, bitrate),
{
}

/// Where the maximum equals the threshold, the quotient by zero shows in the
/// result above the threshold: the percentage, the bitrate of error
/// correction and the total are infinite, and nothing is left for the encoder.
pub proof fn lemma_degenerate_is_infinite(config: Configuration, bitrate: u32)
    requires
        config.max_bitrate == config.fec_enable_threshold,
        fec_active(config, bitrate),
    ensures
        fec_fraction_percent(config, bitrate) == Extended::PosInf,
        fec_bitrate(config, bitrate) == Extended::PosInf,
        encoder_bitrate(config, bitrate) == Extended::from_int(0),
        total_bitrate(config, bitrate) == Extended::PosInf,
{
    lemma_div_by_zero((bitrate - config.fec_enable_threshold) as real);
    assert(fec_ratio(config, bitrate) == Extended::PosInf);
    assert(fec_fraction_percent(config, bitrate) == Extended::PosInf);
    assert(fec_share(config, bitrate) == Extended::PosInf) by {
        lemma_real_fraction_sign(1real, 100real);
    }
    assert(fec_bitrate(config, bitrate) == Extended::PosInf);
    assert(encoder_bitrate(config, bitrate) == Extended::Finite(0real)) by (nonlinear_arith)
        requires
            encoder_bitrate(config, bitrate) == Extended::Finite(bitrate as real * 0real),
    ;
}

} // verus!
