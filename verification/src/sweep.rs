//! The sweep of one configuration: the sampled bitrates and the six series
//! of points that a chart of the allocation shows.

use vstd::prelude::*;
use crate::allocator::{
    allocate, encoder_bitrate, fec_bitrate, fec_fraction_percent, total_bitrate, Strategy,
};
use crate::config::Configuration;
use crate::extended::Extended;
use crate::ratio::Ratio;

verus! {

/// How many bitrates are sampled from `min` up to, but not including, `max`
/// in steps of `stride`.
pub open spec fn sample_count(min: u32, max: u32, stride: u32) -> nat {
    if min < max && stride > 0 {
        ((max - min - 1) / (stride as int) + 1) as nat
    } else {
        0
    }
}

/// The sampled bitrates: `min`, `min + stride`, and so on below `max`.
pub open spec fn samples(min: u32, max: u32, stride: u32) -> Seq<u32> {
    Seq::new(sample_count(min, max, stride), |i: int| (min + i * stride) as u32)
}

/// Every sample lies in the range, a whole number of strides above `min`.
pub proof fn lemma_sample_in_range(min: u32, max: u32, stride: u32, i: int)
    requires
        stride > 0,
        0 <= i < samples(min, max, stride).len(),
    ensures
        min <= samples(min, max, stride)[i] < max,
        samples(min, max, stride)[i] == min + i * stride,
{
    let count = sample_count(min, max, stride) as int;
    let s = stride as int;
    let span = max - min - 1;
    assert(span == s * (span / s) + span % s && 0 <= span % s < s) by (nonlinear_arith)
        requires
            s > 0,
            span >= 0,
    ;
    assert(0 <= i * s <= (count - 1) * s) by (nonlinear_arith)
        requires
            0 <= i <= count - 1,
            s > 0,
    ;
    assert((count - 1) * s == s * (span / s)) by (nonlinear_arith)
        requires
            count - 1 == span / s,
    ;
}

/// Every bitrate of the range that lies a whole number of strides above
/// `min` is sampled, at the place that this number gives.
pub proof fn lemma_bitrate_is_sampled(min: u32, max: u32, stride: u32, bitrate: u32)
    requires
        stride > 0,
        min <= bitrate < max,
        (bitrate - min) % (stride as int) == 0,
    ensures
        0 <= (bitrate - min) / (stride as int) < samples(min, max, stride).len(),
        samples(min, max, stride)[(bitrate - min) / (stride as int)] == bitrate,
{
    let s = stride as int;
    let span = max - min - 1;
    let d = bitrate - min;
    assert(d == s * (d / s) + d % s && 0 <= d / s) by (nonlinear_arith)
        requires
            s > 0,
            d >= 0,
    ;
    assert(d / s <= span / s) by (nonlinear_arith)
        requires
            s > 0,
            0 <= d <= span,
    ;
    assert((d / s) * s == s * (d / s)) by (nonlinear_arith);
}

/// The bitrates from `min` up to, but not including, `max` in steps of
/// `stride`. A last step that would pass `max` is not taken.
pub fn sample_points(min: u32, max: u32, stride: u32) -> (points: Vec<u32>)
    requires
        stride > 0,
    ensures
        points@ == samples(min, max, stride),
{
    let mut points: Vec<u32> = Vec::new();
    if min >= max {
        assert(points@ =~= samples(min, max, stride));
        return points;
    }
    let ghost count = sample_count(min, max, stride) as int;
    let ghost s = stride as int;
    let ghost span = max - min - 1;
    proof {
        assert(span == s * (span / s) + span % s && 0 <= span % s < s && 0 <= span / s)
            by (nonlinear_arith)
            requires
                s > 0,
                span >= 0,
        ;
    }
    let mut x: u32 = min;
    proof {
        assert(points.len() * s == 0) by (nonlinear_arith)
            requires
                points.len() == 0,
        ;
    }
    loop
        invariant_except_break
            points.len() < count,
            x == min + points.len() * s,
        invariant
            min < max,
            s == stride,
            s > 0,
            span == max - min - 1,
            count == span / s + 1,
            span == s * (span / s) + span % s,
            0 <= span % s < s,
            min <= x < max,
            points.len() <= count,
            forall|i: int| 0 <= i < points.len() ==> points[i] == min + i * s,
        ensures
            points.len() == count,
        decreases max - x,
    {
        let ghost k = points.len() as int;
        points.push(x);
        if max - x <= stride {
            proof {
                // k strides lie below `max`, and one more does not
                assert(k == span / s) by (nonlinear_arith)
                    requires
                        s > 0,
                        k * s <= span,
                        span < k * s + s,
                        span == s * (span / s) + span % s,
                        0 <= span % s < s,
                ;
            }
            break;
        }
        proof {
            assert(k + 1 <= span / s) by (nonlinear_arith)
                requires
                    s > 0,
                    k * s + s <= span,
                    span == s * (span / s) + span % s,
                    0 <= span % s < s,
            ;
            assert((k + 1) * s == k * s + s) by (nonlinear_arith);
        }
        x = x + stride;
    }
    assert(points@ =~= samples(min, max, stride));
    points
}

/// The axis against which a series is drawn.
#[derive(Clone, Copy, Debug, PartialEq, Eq, Structural)]
pub enum Axis {
    /// Bitrates, in bits per second.
    Primary,
    /// Percentages.
    Secondary,
}

/// The colour in which a series is drawn.
#[derive(Clone, Copy, Debug, PartialEq, Eq, Structural)]
pub enum SeriesColor {
    Black,
    DarkRed,
    Blue,
    Orange,
    Grey,
    Green,
}

/// What a series shows over the sampled bitrates.
#[derive(Clone, Copy, Debug, PartialEq, Eq, Structural)]
pub enum Metric {
    /// The maximum bitrate of the configuration, a level line.
    MaxBitrate,
    /// The sampled bitrate itself, the diagonal.
    EstimatedBitrate,
    /// The bitrate allotted to the encoder.
    EncoderBitrate,
    /// The bitrate allotted to error correction.
    FecBitrate,
    /// The percentage reserved for error correction.
    FecFractionPercent,
    /// The sum of the encoder's bitrate and that of error correction.
    TotalBitrate,
}

impl Metric {
    /// The metric of the series at place `i` of a sweep.
    pub open spec fn at(i: int) -> Metric {
        if i == 0 {
            Metric::MaxBitrate
        } else if i == 1 {
            Metric::EstimatedBitrate
        } else if i == 2 {
            Metric::EncoderBitrate
        } else if i == 3 {
            Metric::FecBitrate
        } else if i == 4 {
            Metric::FecFractionPercent
        } else {
            Metric::TotalBitrate
        }
    }

    /// The value of the metric at `bitrate` under `config`.
    pub open spec fn value(self, config: Configuration, bitrate: u32) -> Extended {
        match self {
            Metric::MaxBitrate => Extended::from_int(config.max_bitrate as int),
            Metric::EstimatedBitrate => Extended::from_int(bitrate as int),
            Metric::EncoderBitrate => encoder_bitrate(config, bitrate),
            Metric::FecBitrate => fec_bitrate(config, bitrate),
            Metric::FecFractionPercent => fec_fraction_percent(config, bitrate),
            Metric::TotalBitrate => total_bitrate(config, bitrate),
        }
    }

    /// The text of the label under which the series appears in the legend.
    pub open spec fn label_text(self) -> Seq<char> {
        match self {
            Metric::MaxBitrate => "max_bitrate"@,
            Metric::EstimatedBitrate => "estimated_bitrate"@,
            Metric::EncoderBitrate => "encoders_bitrate"@,
            Metric::FecBitrate => "fec_bitrate"@,
            Metric::FecFractionPercent => "fec_percentage (%)"@,
            Metric::TotalBitrate => "total_bitrate = fec_bitrate + encoders_bitrate"@,
        }
    }

    /// The label under which the series appears in the legend.
    pub fn label(self) -> (text: &'static str)
        ensures
            text@ == self.label_text(),
    {
        match self {
            Metric::MaxBitrate => "max_bitrate",
            Metric::EstimatedBitrate => "estimated_bitrate",
            Metric::EncoderBitrate => "encoders_bitrate",
            Metric::FecBitrate => "fec_bitrate",
            Metric::FecFractionPercent => "fec_percentage (%)",
            Metric::TotalBitrate => "total_bitrate = fec_bitrate + encoders_bitrate",
        }
    }

    /// The axis of the series: the percentage goes against the secondary
    /// axis, every bitrate against the primary one.
    pub fn axis(self) -> (axis: Axis)
        ensures
            axis == (if self == Metric::FecFractionPercent {
                Axis::Secondary
            } else {
                Axis::Primary
            }),
    {
        match self {
            Metric::FecFractionPercent => Axis::Secondary,
            _ => Axis::Primary,
        }
    }

    /// The colour of the series.
    pub fn color(self) -> (color: SeriesColor)
        ensures
            color == (match self {
                Metric::MaxBitrate => SeriesColor::Black,
                Metric::EstimatedBitrate => SeriesColor::DarkRed,
                Metric::EncoderBitrate => SeriesColor::Blue,
                Metric::FecBitrate => SeriesColor::Orange,
                Metric::FecFractionPercent => SeriesColor::Grey,
                Metric::TotalBitrate => SeriesColor::Green,
            }),
    {
        match self {
            Metric::MaxBitrate => SeriesColor::Black,
            Metric::EstimatedBitrate => SeriesColor::DarkRed,
            Metric::EncoderBitrate => SeriesColor::Blue,
            Metric::FecBitrate => SeriesColor::Orange,
            Metric::FecFractionPercent => SeriesColor::Grey,
            Metric::TotalBitrate => SeriesColor::Green,
        }
    }

    /// The value of the metric at `bitrate` under `config`, with the
    /// allocation computed by `strategy`.
    pub fn evaluate(self, strategy: Strategy, config: &Configuration, bitrate: u32) -> (y: Ratio)
        ensures
            y.wf(),
            y@ == self.value(*config, bitrate),
    {
        match self {
            Metric::MaxBitrate => Ratio::from_int(config.max_bitrate as i64),
            Metric::EstimatedBitrate => Ratio::from_int(bitrate as i64),
            Metric::EncoderBitrate => allocate(strategy, config, bitrate).encoder_bitrate,
            Metric::FecBitrate => allocate(strategy, config, bitrate).fec_bitrate,
            Metric::FecFractionPercent => allocate(strategy, config, bitrate).fec_fraction_percent,
            Metric::TotalBitrate => allocate(strategy, config, bitrate).total_bitrate,
        }
    }
}

/// One point of a series: a sampled bitrate and the value of the metric there.
#[derive(Clone, Copy, Debug)]
pub struct Point {
    pub x: u32,
    pub y: Ratio,
}

/// One curve of the chart: a metric and its points in the order of the samples.
#[derive(Debug)]
pub struct Series {
    pub metric: Metric,
    pub points: Vec<Point>,
}

impl Series {
    /// The series has one point for each of the bitrates `xs`, in their
    /// order, and each point holds the value of the metric at its bitrate.
    pub open spec fn follows(&self, config: Configuration, xs: Seq<u32>) -> bool {
        &&& self.points@.len() == xs.len()
        &&& forall|i: int|
            0 <= i < xs.len() ==> {
                &&& (#[trigger] self.points@[i]).x == xs[i]
                &&& self.points@[i].y.wf()
                &&& self.points@[i].y@ == self.metric.value(config, xs[i])
            }
    }

    /// The series of `metric` over the bitrates `xs`.
    pub fn over(strategy: Strategy, config: &Configuration, metric: Metric, xs: &Vec<u32>) -> (series:
        Series)
        ensures
            series.metric == metric,
            series.follows(*config, xs@),
    {
        let mut points: Vec<Point> = Vec::new();
        let mut i: usize = 0;
        while i < xs.len()
            invariant
                i <= xs.len(),
                points@.len() == i,
                forall|j: int|
                    0 <= j < i ==> {
                        &&& (#[trigger] points@[j]).x == xs@[j]
                        &&& points@[j].y.wf()
                        &&& points@[j].y@ == metric.value(*config, xs@[j])
                    },
            decreases xs.len() - i,
        {
            let x: u32 = xs[i];
            points.push(Point { x, y: metric.evaluate(strategy, config, x) });
            i = i + 1;
        }
        Series { metric, points }
    }
}

/// The number of series in a sweep.
pub const SERIES_COUNT: usize = 6;

/// The six series of a sweep, in the order in which they are drawn: all of
/// them over the same bitrates, sampled from the minimum of the
/// configuration up to, but not including, its maximum in steps of `stride`.
pub fn sweep(strategy: Strategy, config: &Configuration, stride: u32) -> (all: Vec<Series>)
    requires
        stride > 0,
    ensures
        all@.len() == SERIES_COUNT,
        forall|k: int|
            0 <= k < SERIES_COUNT ==> {
                &&& (#[trigger] all@[k]).metric == Metric::at(k)
                &&& all@[k].follows(
                    *config,
                    samples(config.min_bitrate, config.max_bitrate, stride),
                )
            },
{
    let xs = sample_points(config.min_bitrate, config.max_bitrate, stride);
    let mut all: Vec<Series> = Vec::new();
    all.push(Series::over(strategy, config, Metric::MaxBitrate, &xs));
    all.push(Series::over(strategy, config, Metric::EstimatedBitrate, &xs));
    all.push(Series::over(strategy, config, Metric::EncoderBitrate, &xs));
    all.push(Series::over(strategy, config, Metric::FecBitrate, &xs));
    all.push(Series::over(strategy, config, Metric::FecFractionPercent, &xs));
    all.push(Series::over(strategy, config, Metric::TotalBitrate, &xs));
    all
}

} // verus!
