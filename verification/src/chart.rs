//! The plan of one chart: what a renderer needs to draw the sweep of one
//! configuration, and the name of the file that holds the drawing.

use vstd::prelude::*;
use vstd::string::StringExecFns;
use crate::allocator::Strategy;
use crate::config::Configuration;
use crate::extended::{lemma_div_finite, Extended};
use crate::ratio::Ratio;
use crate::sweep::{samples, sweep, Metric, Series, SERIES_COUNT};

verus! {

/// Width of the canvas in pixels.
pub const CANVAS_WIDTH: u32 = 3840;

/// Height of the canvas in pixels.
pub const CANVAS_HEIGHT: u32 = 1080;

/// Upper end of the secondary axis, in percent.
pub const SECONDARY_AXIS_UPPER: u32 = 150;

/// Everything that a renderer draws for one configuration. Each axis starts
/// at zero.
#[derive(Debug)]
pub struct ChartPlan {
    /// The caption above the chart.
    pub caption: &'static str,
    /// Width of the canvas in pixels.
    pub width: u32,
    /// Height of the canvas in pixels.
    pub height: u32,
    /// Upper end of the bitrate axis along the bottom.
    pub x_upper: u32,
    /// Upper end of the primary axis: one and a half times the maximum bitrate.
    pub primary_upper: Ratio,
    /// Upper end of the secondary axis, in percent.
    pub secondary_upper: u32,
    /// The series, in the order in which they are drawn.
    pub series: Vec<Series>,
}

impl ChartPlan {
    /// The plan is the one for `config`, sampled in steps of `stride` and
    /// captioned for `strategy`.
    pub open spec fn is_plan_of(
        &self,
        strategy: Strategy,
        config: Configuration,
        stride: u32,
    ) -> bool {
        &&& self.caption@ == strategy.caption_text()
        &&& self.width == CANVAS_WIDTH
        &&& self.height == CANVAS_HEIGHT
        &&& self.x_upper == config.max_bitrate
        &&& self.primary_upper.wf()
        &&& self.primary_upper@ == Extended::Finite(3real * config.max_bitrate as real / 2real)
        &&& self.secondary_upper == SECONDARY_AXIS_UPPER
        &&& self.series@.len() == SERIES_COUNT
        &&& forall|k: int|
            0 <= k < SERIES_COUNT ==> {
                &&& (#[trigger] self.series@[k]).metric == Metric::at(k)
                &&& self.series@[k].follows(
                    config,
                    samples(config.min_bitrate, config.max_bitrate, stride),
                )
            }
    }
}

/// The plan of the chart for `config`: the caption, the canvas, the two axes
/// and the six series, sampled in steps of `stride` with the allocation computed by
/// `strategy`.
pub fn plan_chart(strategy: Strategy, config: &Configuration, stride: u32) -> (plan: ChartPlan)
    requires
        stride > 0,
    ensures
        plan.is_plan_of(strategy, *config, stride),
{
    let primary_upper = Ratio::new(3 * (config.max_bitrate as i128), 2);
    proof {
        lemma_div_finite((3 * config.max_bitrate) as real, 2real);
    }
    ChartPlan {
        caption: strategy.caption(),
        width: CANVAS_WIDTH,
        height: CANVAS_HEIGHT,
        x_upper: config.max_bitrate,
        primary_upper,
        secondary_upper: SECONDARY_AXIS_UPPER,
        series: sweep(strategy, config, stride),
    }
}

/// The decimal digit `d` as text.
pub open spec fn digit_text(d: int) -> Seq<char> {
    if d == 0 {
        "0"@
    } else if d == 1 {
        "1"@
    } else if d == 2 {
        "2"@
    } else if d == 3 {
        "3"@
    } else if d == 4 {
        "4"@
    } else if d == 5 {
        "5"@
    } else if d == 6 {
        "6"@
    } else if d == 7 {
        "7"@
    } else if d == 8 {
        "8"@
    } else {
        "9"@
    }
}

/// The number `n` in decimal, without leading zeros.
pub open spec fn decimal_text(n: nat) -> Seq<char>
    decreases n,
{
    if n < 10 {
        digit_text(n as int)
    } else {
        decimal_text(n / 10) + digit_text((n % 10) as int)
    }
}

/// The switch as text.
pub open spec fn bool_text(b: bool) -> Seq<char> {
    if b {
        "true"@
    } else {
        "false"@
    }
}

/// The name of the file that holds the chart of `config`: the directory,
/// then the four fields of the configuration between hyphens.
pub open spec fn file_name_text(config: Configuration) -> Seq<char> {
    "assets/bitrate-calc-"@ + decimal_text(config.min_bitrate as nat) + "-"@ + decimal_text(
        config.max_bitrate as nat,
    ) + "-"@ + bool_text(config.fec_enabled) + "-"@ + decimal_text(
        config.fec_enable_threshold as nat,
    ) + ".svg"@
}

/// The decimal digit `d` as text.
fn digit_str(d: u32) -> (text: &'static str)
    requires
        d < 10,
    ensures
        text@ == digit_text(d as int),
{
    if d == 0 {
        "0"
    } else if d == 1 {
        "1"
    } else if d == 2 {
        "2"
    } else if d == 3 {
        "3"
    } else if d == 4 {
        "4"
    } else if d == 5 {
        "5"
    } else if d == 6 {
        "6"
    } else if d == 7 {
        "7"
    } else if d == 8 {
        "8"
    } else {
        "9"
    }
}

/// Appends the number `n` in decimal to `text`.
fn append_decimal(text: &mut String, n: u32)
    ensures
        final(text)@ == old(text)@ + decimal_text(n as nat),
    decreases n,
{
    if n >= 10 {
        append_decimal(text, n / 10);
    }
    text.append(digit_str(n % 10));
    assert(final(text)@ =~= old(text)@ + decimal_text(n as nat));
}

/// The name of the file that holds the chart of `config`.
pub fn output_file_name(config: &Configuration) -> (name: String)
    ensures
        name@ == file_name_text(*config),
{
    let mut name = String::from_str("assets/bitrate-calc-");
    append_decimal(&mut name, config.min_bitrate);
    name.append("-");
    append_decimal(&mut name, config.max_bitrate);
    name.append("-");
    name.append(if config.fec_enabled { "true" } else { "false" });
    name.append("-");
    append_decimal(&mut name, config.fec_enable_threshold);
    name.append(".svg");
    name
}

} // verus!
