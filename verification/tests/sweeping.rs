use bitrate_calc::allocator::{calc_old, Strategy};
use bitrate_calc::chart::{output_file_name, plan_chart, CANVAS_HEIGHT, CANVAS_WIDTH, SECONDARY_AXIS_UPPER};
use bitrate_calc::config::Configuration;
use bitrate_calc::ratio::Ratio;
use bitrate_calc::scenario::{
    default_scenarios, scenarios, DEFAULT_FEC_ENABLE_THRESHOLD, DEFAULT_MIN_BITRATE,
    DEFAULT_SCENARIO_COUNT, DEFAULT_STRIDE, DEFAULT_UNIT,
};
use bitrate_calc::sweep::{sample_points, sweep, Axis, Metric, Series, SeriesColor, SERIES_COUNT};

fn sample_config() -> Configuration {
    Configuration {
        min_bitrate: 1_000,
        max_bitrate: 2_048_000,
        fec_enable_threshold: 2_000_000,
        fec_enabled: true,
    }
}

fn same_value(a: Ratio, b: Ratio) -> bool {
    a.den != 0 && b.den != 0 && a.num * b.den == b.num * a.den
}

#[test]
fn samples_start_at_min_and_stop_below_max() {
    let xs = sample_points(1_000, 2_048_000, 10_000);
    assert_eq!(xs.len(), 205);
    assert_eq!(xs[0], 1_000);
    assert_eq!(xs[1], 11_000);
    assert_eq!(xs[204], 2_041_000);
    let by_std: Vec<u32> = (1_000u32..2_048_000).step_by(10_000).collect();
    assert_eq!(xs, by_std);
}

#[test]
fn sample_on_the_upper_bound_is_left_out() {
    assert_eq!(sample_points(0, 30, 10), vec![0, 10, 20]);
    assert_eq!(sample_points(0, 31, 10), vec![0, 10, 20, 30]);
    assert_eq!(sample_points(5, 6, 1), vec![5]);
}

#[test]
fn empty_range_has_no_samples() {
    assert_eq!(sample_points(10, 10, 3), Vec::<u32>::new());
    assert_eq!(sample_points(11, 10, 3), Vec::<u32>::new());
}

#[test]
fn stride_wider_than_range_gives_one_sample() {
    assert_eq!(sample_points(7, 9, 1_000), vec![7]);
    assert_eq!(sample_points(0, u32::MAX, u32::MAX), vec![0]);
}

#[test]
fn samples_near_the_top_of_the_integers() {
    assert_eq!(sample_points(u32::MAX - 5, u32::MAX, 10), vec![u32::MAX - 5]);
    assert_eq!(
        sample_points(u32::MAX - 5, u32::MAX, 2),
        vec![u32::MAX - 5, u32::MAX - 3, u32::MAX - 1]
    );
}

#[test]
fn samples_match_stepping_for_many_ranges() {
    for (min, max, stride) in [(0u32, 100u32, 7u32), (3, 50, 1), (1_000, 8_192_000, 10_000), (99, 100, 100), (0, 1, 1)] {
        let by_std: Vec<u32> = (min..max).step_by(stride as usize).collect();
        assert_eq!(sample_points(min, max, stride), by_std);
    }
}

#[test]
fn sweep_has_six_series_in_order() {
    let all = sweep(Strategy::Old, &sample_config(), 10_000);
    assert_eq!(all.len(), SERIES_COUNT);
    assert_eq!(all.len(), 6);
    let metrics: Vec<Metric> = all.iter().map(|s| s.metric).collect();
    assert_eq!(
        metrics,
        vec![
            Metric::MaxBitrate,
            Metric::EstimatedBitrate,
            Metric::EncoderBitrate,
            Metric::FecBitrate,
            Metric::FecFractionPercent,
            Metric::TotalBitrate,
        ]
    );
}

#[test]
fn all_series_share_the_samples() {
    let c = sample_config();
    let xs = sample_points(c.min_bitrate, c.max_bitrate, 10_000);
    for series in sweep(Strategy::Old, &c, 10_000) {
        let got: Vec<u32> = series.points.iter().map(|p| p.x).collect();
        assert_eq!(got, xs);
    }
}

#[test]
fn series_hold_the_values_of_their_metrics() {
    let c = sample_config();
    let all = sweep(Strategy::New, &c, 10_000);
    for i in 0..all[0].points.len() {
        let x = all[0].points[i].x;
        let r = calc_old(&c, x);
        assert!(same_value(all[0].points[i].y, Ratio::from_int(2_048_000)));
        assert!(same_value(all[1].points[i].y, Ratio::from_int(x as i64)));
        assert!(same_value(all[2].points[i].y, r.encoder_bitrate));
        assert!(same_value(all[3].points[i].y, r.fec_bitrate));
        assert!(same_value(all[4].points[i].y, r.fec_fraction_percent));
        assert!(same_value(all[5].points[i].y, r.total_bitrate));
    }
    // the last sample, 2041000, lies above the threshold
    let last = all[4].points[all[4].points.len() - 1];
    assert_eq!(last.x, 2_041_000);
    // 41000 / 48000 * 50
    assert!(same_value(last.y, Ratio { num: 1_025, den: 24 }));
}

#[test]
fn series_over_given_bitrates() {
    let c = sample_config();
    let xs = vec![5u32, 2_024_000, 2_048_000];
    let series: Series = Series::over(Strategy::Old, &c, Metric::FecFractionPercent, &xs);
    assert_eq!(series.metric, Metric::FecFractionPercent);
    assert_eq!(series.points.len(), 3);
    assert!(same_value(series.points[0].y, Ratio::from_int(0)));
    assert!(same_value(series.points[1].y, Ratio::from_int(25)));
    assert!(same_value(series.points[2].y, Ratio::from_int(50)));
    let empty = Series::over(Strategy::Old, &c, Metric::TotalBitrate, &Vec::new());
    assert!(empty.points.is_empty());
}

#[test]
fn metric_evaluates_to_its_field() {
    let c = sample_config();
    let r = calc_old(&c, 2_024_000);
    assert!(same_value(Metric::MaxBitrate.evaluate(Strategy::Old, &c, 2_024_000), Ratio::from_int(2_048_000)));
    assert!(same_value(Metric::EstimatedBitrate.evaluate(Strategy::Old, &c, 2_024_000), Ratio::from_int(2_024_000)));
    assert!(same_value(Metric::EncoderBitrate.evaluate(Strategy::Old, &c, 2_024_000), r.encoder_bitrate));
    assert!(same_value(Metric::FecBitrate.evaluate(Strategy::Old, &c, 2_024_000), r.fec_bitrate));
    assert!(same_value(Metric::FecFractionPercent.evaluate(Strategy::Old, &c, 2_024_000), r.fec_fraction_percent));
    assert!(same_value(Metric::TotalBitrate.evaluate(Strategy::Old, &c, 2_024_000), r.total_bitrate));
}

#[test]
fn labels_axes_and_colours() {
    assert_eq!(Metric::MaxBitrate.label(), "max_bitrate");
    assert_eq!(Metric::EstimatedBitrate.label(), "estimated_bitrate");
    assert_eq!(Metric::EncoderBitrate.label(), "encoders_bitrate");
    assert_eq!(Metric::FecBitrate.label(), "fec_bitrate");
    assert_eq!(Metric::FecFractionPercent.label(), "fec_percentage (%)");
    assert_eq!(Metric::TotalBitrate.label(), "total_bitrate = fec_bitrate + encoders_bitrate");

    assert_eq!(Metric::FecFractionPercent.axis(), Axis::Secondary);
    for m in [Metric::MaxBitrate, Metric::EstimatedBitrate, Metric::EncoderBitrate, Metric::FecBitrate, Metric::TotalBitrate] {
        assert_eq!(m.axis(), Axis::Primary);
    }

    assert_eq!(Metric::MaxBitrate.color(), SeriesColor::Black);
    assert_eq!(Metric::EstimatedBitrate.color(), SeriesColor::DarkRed);
    assert_eq!(Metric::EncoderBitrate.color(), SeriesColor::Blue);
    assert_eq!(Metric::FecBitrate.color(), SeriesColor::Orange);
    assert_eq!(Metric::FecFractionPercent.color(), SeriesColor::Grey);
    assert_eq!(Metric::TotalBitrate.color(), SeriesColor::Green);
}

#[test]
fn sweep_with_a_coarse_stride() {
    let c = sample_config();
    let all = sweep(Strategy::Old, &c, 1_000_000);
    for series in &all {
        let xs: Vec<u32> = series.points.iter().map(|p| p.x).collect();
        assert_eq!(xs, vec![1_000, 1_001_000, 2_001_000]);
    }
    // 1000 / 48000 * 50
    assert!(same_value(all[4].points[2].y, Ratio { num: 25, den: 24 }));
}

#[test]
fn sweep_of_an_empty_range_has_six_empty_series() {
    let c = Configuration { min_bitrate: 5, max_bitrate: 5, fec_enable_threshold: 1, fec_enabled: true };
    let all = sweep(Strategy::Old, &c, 1);
    assert_eq!(all.len(), 6);
    assert!(all.iter().all(|s| s.points.is_empty()));
}

#[test]
fn chart_plan_holds_canvas_axes_and_series() {
    let c = sample_config();
    let plan = plan_chart(Strategy::Old, &c, DEFAULT_STRIDE);
    assert_eq!(
        plan.caption,
        "encoders_bitrate = (bitrate as f64) / (1. + (fec_percentage / 100.))"
    );
    assert_eq!(plan.caption, Strategy::Old.caption());
    assert_eq!(plan_chart(Strategy::New, &c, DEFAULT_STRIDE).caption, Strategy::New.caption());
    assert_eq!((plan.width, plan.height), (3840, 1080));
    assert_eq!((plan.width, plan.height), (CANVAS_WIDTH, CANVAS_HEIGHT));
    assert_eq!(plan.x_upper, 2_048_000);
    assert!(same_value(plan.primary_upper, Ratio::from_int(3_072_000)));
    assert_eq!(plan.secondary_upper, 150);
    assert_eq!(plan.secondary_upper, SECONDARY_AXIS_UPPER);
    assert_eq!(plan.series.len(), 6);
    assert_eq!(plan.series[0].points.len(), 205);
}

#[test]
fn primary_axis_of_an_odd_maximum_ends_on_a_half() {
    let c = Configuration { min_bitrate: 0, max_bitrate: 3, fec_enable_threshold: 1, fec_enabled: true };
    let plan = plan_chart(Strategy::Old, &c, 1);
    assert!(same_value(plan.primary_upper, Ratio { num: 9, den: 2 }));
    let c = Configuration { max_bitrate: u32::MAX, ..c };
    let plan = plan_chart(Strategy::Old, &c, u32::MAX);
    assert!(same_value(plan.primary_upper, Ratio { num: 3 * (u32::MAX as i128), den: 2 }));
}

#[test]
fn file_name_is_made_of_the_four_fields() {
    assert_eq!(
        output_file_name(&sample_config()),
        "assets/bitrate-calc-1000-2048000-true-2000000.svg"
    );
    let c = Configuration { min_bitrate: 0, max_bitrate: u32::MAX, fec_enable_threshold: 10, fec_enabled: false };
    assert_eq!(output_file_name(&c), "assets/bitrate-calc-0-4294967295-false-10.svg");
    assert_eq!(
        output_file_name(&c),
        format!("assets/bitrate-calc-{}-{}-{}-{}.svg", c.min_bitrate, c.max_bitrate, c.fec_enabled, c.fec_enable_threshold)
    );
}

#[test]
fn file_name_digits_match_formatting() {
    for n in [0u32, 1, 9, 10, 11, 99, 100, 101, 1_000, 12_345, 907_060, 1_000_000_000, u32::MAX - 1] {
        let c = Configuration { min_bitrate: n, max_bitrate: n, fec_enable_threshold: n, fec_enabled: true };
        assert_eq!(output_file_name(&c), format!("assets/bitrate-calc-{}-{}-true-{}.svg", n, n, n));
    }
}

#[test]
fn default_scenarios_raise_the_maximum_eight_times() {
    let all = default_scenarios();
    assert_eq!(all.len(), 8);
    assert_eq!(all.len(), DEFAULT_SCENARIO_COUNT as usize);
    for (i, c) in all.iter().enumerate() {
        assert_eq!(c.min_bitrate, 1_000);
        assert_eq!(c.max_bitrate, (i as u32 + 1) * 1_024_000);
        assert_eq!(c.fec_enable_threshold, 2_000_000);
        assert!(c.fec_enabled);
    }
    assert_eq!(all[1], sample_config());
    assert_eq!((DEFAULT_UNIT, DEFAULT_MIN_BITRATE, DEFAULT_FEC_ENABLE_THRESHOLD, DEFAULT_STRIDE), (1_024_000, 1_000, 2_000_000, 10_000));
}

#[test]
fn scenarios_differ_only_in_the_maximum() {
    let all = scenarios(5, 3, 1, 2, false);
    assert_eq!(
        all,
        vec![
            Configuration { min_bitrate: 1, max_bitrate: 5, fec_enable_threshold: 2, fec_enabled: false },
            Configuration { min_bitrate: 1, max_bitrate: 10, fec_enable_threshold: 2, fec_enabled: false },
            Configuration { min_bitrate: 1, max_bitrate: 15, fec_enable_threshold: 2, fec_enabled: false },
        ]
    );
    assert!(scenarios(7, 0, 1, 2, true).is_empty());
    let top = scenarios(u32::MAX, 1, 0, 0, true);
    assert_eq!(top[0].max_bitrate, u32::MAX);
}

#[test]
fn every_default_scenario_sweeps_without_failure() {
    for c in default_scenarios() {
        let plan = plan_chart(Strategy::Old, &c, DEFAULT_STRIDE);
        let expected = ((c.max_bitrate - c.min_bitrate - 1) / DEFAULT_STRIDE + 1) as usize;
        for series in &plan.series {
            assert_eq!(series.points.len(), expected);
            assert!(series.points.iter().all(|p| p.y.den > 0));
        }
    }
}
