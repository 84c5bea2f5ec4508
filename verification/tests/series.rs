use fitr::series::{HIGH_TENTHS, LOW_TENTHS, RANGE_SCALE};
use fitr::{Interval, Metric, Sample, SeriesBuilder, Timestamp, TrackError, TrackPoint};

fn at(seconds: i64, nanoseconds: u32) -> Option<Timestamp> {
    Some(Timestamp::new(seconds, nanoseconds).unwrap())
}

fn point(timestamp: Option<Timestamp>, speed: Option<i32>) -> TrackPoint {
    TrackPoint { latitude: 0, longitude: 0, elevation: None, timestamp, speed }
}

fn speeds(values: &[i32]) -> Vec<TrackPoint> {
    let mut points = Vec::new();
    for (i, value) in values.iter().enumerate() {
        points.push(point(at(1_000 + 10 * i as i64, 0), Some(*value)));
    }
    points
}

fn in_value_units(tenths: i64) -> f64 {
    tenths as f64 / RANGE_SCALE as f64
}

#[test]
fn range_factors_are_eight_and_twelve_tenths() {
    assert_eq!(RANGE_SCALE, 10);
    assert_eq!(LOW_TENTHS, 8);
    assert_eq!(HIGH_TENTHS, 12);
}

#[test]
fn build_refuses_an_empty_list() {
    let builder = SeriesBuilder::new(Metric::Speed);
    assert_eq!(builder.build(&Vec::new()), Err(TrackError::EmptyInput));
    let builder = SeriesBuilder::new(Metric::Elevation);
    assert_eq!(builder.build(&Vec::new()), Err(TrackError::EmptyInput));
}

#[test]
fn build_seeds_the_extrema_with_zero() {
    // values 3.0, 5.0, 1.0: lowest 0.0, highest 5.0, range (0.0, 6.0)
    let series = SeriesBuilder::new(Metric::Speed).build(&speeds(&[3, 5, 1])).unwrap();
    assert_eq!(series.value_range, Interval { low: 0, high: 60 });
    assert_eq!(in_value_units(series.value_range.low), 0.0);
    assert_eq!(in_value_units(series.value_range.high), 6.0);
}

#[test]
fn build_takes_negative_values_below_zero() {
    // values -2.0, -5.0: lowest -5.0, highest 0.0, range (-4.0, 0.0)
    let series = SeriesBuilder::new(Metric::Speed).build(&speeds(&[-2, -5])).unwrap();
    assert_eq!(series.value_range, Interval { low: -40, high: 0 });
    assert_eq!(in_value_units(series.value_range.low), -4.0);
    assert_eq!(in_value_units(series.value_range.high), 0.0);
}

#[test]
fn build_ranges_over_both_signs() {
    let series = SeriesBuilder::new(Metric::Speed).build(&speeds(&[-7, 0, 11, 3])).unwrap();
    assert_eq!(series.value_range, Interval { low: -56, high: 132 });
}

#[test]
fn build_range_is_exact_for_values_that_five_does_not_divide() {
    // 0.8 * -3 = -2.4 and 1.2 * 7 = 8.4
    let series = SeriesBuilder::new(Metric::Speed).build(&speeds(&[7, -3])).unwrap();
    assert_eq!(series.value_range, Interval { low: -24, high: 84 });
}

#[test]
fn build_range_at_the_ends_of_the_value_type() {
    let series = SeriesBuilder::new(Metric::Speed).build(&speeds(&[i32::MIN, i32::MAX])).unwrap();
    assert_eq!(series.value_range.low, 8 * (i32::MIN as i64));
    assert_eq!(series.value_range.high, 12 * (i32::MAX as i64));
}

#[test]
fn build_keeps_one_sample_per_point_in_order() {
    let series = SeriesBuilder::new(Metric::Speed).build(&speeds(&[3, 5, 1])).unwrap();
    assert_eq!(
        series.samples,
        vec![
            Sample { offset_seconds: 0, value: 3 },
            Sample { offset_seconds: 10, value: 5 },
            Sample { offset_seconds: 20, value: 1 },
        ]
    );
    assert_eq!(series.window, Interval { low: 0, high: 20 });
}

#[test]
fn build_counts_offsets_in_whole_seconds_toward_zero() {
    let points = vec![
        point(at(10, 900_000_000), Some(1)),
        point(at(12, 100_000_000), Some(2)),
        point(at(12, 900_000_000), Some(3)),
        point(at(13, 0), Some(4)),
    ];
    let series = SeriesBuilder::new(Metric::Speed).build(&points).unwrap();
    let offsets: Vec<i64> = series.samples.iter().map(|s| s.offset_seconds).collect();
    assert_eq!(offsets, vec![0, 1, 2, 2]);
    assert_eq!(series.window, Interval { low: 0, high: 2 });
}

#[test]
fn build_does_not_sort() {
    let points = vec![
        point(at(100, 0), Some(1)),
        point(at(40, 500_000_000), Some(2)),
        point(at(160, 0), Some(3)),
        point(at(99, 0), Some(4)),
    ];
    let series = SeriesBuilder::new(Metric::Speed).build(&points).unwrap();
    assert_eq!(
        series.samples,
        vec![
            Sample { offset_seconds: 0, value: 1 },
            Sample { offset_seconds: -59, value: 2 },
            Sample { offset_seconds: 60, value: 3 },
            Sample { offset_seconds: -1, value: 4 },
        ]
    );
    assert_eq!(series.window, Interval { low: 0, high: -1 });
}

#[test]
fn build_of_a_single_point_has_an_empty_window() {
    let series = SeriesBuilder::new(Metric::Speed).build(&speeds(&[4])).unwrap();
    assert_eq!(series.samples, vec![Sample { offset_seconds: 0, value: 4 }]);
    assert_eq!(series.window, Interval { low: 0, high: 0 });
    assert_eq!(series.value_range, Interval { low: 0, high: 48 });
}

#[test]
fn build_reads_the_metric_it_was_made_for() {
    let points = vec![
        TrackPoint {
            latitude: 1,
            longitude: 2,
            elevation: Some(400),
            timestamp: at(0, 0),
            speed: Some(3),
        },
        TrackPoint {
            latitude: 1,
            longitude: 2,
            elevation: Some(-20),
            timestamp: at(5, 0),
            speed: Some(9),
        },
    ];
    let by_speed = SeriesBuilder::new(Metric::Speed).build(&points).unwrap();
    let by_elevation = SeriesBuilder::new(Metric::Elevation).build(&points).unwrap();
    assert_eq!(by_speed.samples[1], Sample { offset_seconds: 5, value: 9 });
    assert_eq!(by_speed.value_range, Interval { low: 0, high: 108 });
    assert_eq!(by_elevation.samples[1], Sample { offset_seconds: 5, value: -20 });
    assert_eq!(by_elevation.value_range, Interval { low: -160, high: 4800 });
}

#[test]
fn build_refuses_a_point_without_timestamp() {
    let points = vec![point(at(0, 0), Some(1)), point(None, Some(2)), point(at(2, 0), Some(3))];
    let built = SeriesBuilder::new(Metric::Speed).build(&points);
    assert_eq!(built, Err(TrackError::MissingTimestamp));
    let points = vec![point(None, Some(1))];
    assert_eq!(
        SeriesBuilder::new(Metric::Speed).build(&points),
        Err(TrackError::MissingTimestamp)
    );
}

#[test]
fn build_refuses_a_point_without_value() {
    let points = vec![point(at(0, 0), Some(1)), point(at(1, 0), None)];
    let built = SeriesBuilder::new(Metric::Speed).build(&points);
    assert_eq!(built, Err(TrackError::MissingValue));
    // the speed is there, the elevation is not
    let points = vec![point(at(0, 0), Some(1))];
    assert_eq!(
        SeriesBuilder::new(Metric::Elevation).build(&points),
        Err(TrackError::MissingValue)
    );
}

#[test]
fn build_reports_the_first_incomplete_point() {
    let points = vec![point(at(0, 0), Some(1)), point(at(1, 0), None), point(None, Some(3))];
    assert_eq!(SeriesBuilder::new(Metric::Speed).build(&points), Err(TrackError::MissingValue));
    let points = vec![point(at(0, 0), Some(1)), point(None, Some(3)), point(at(1, 0), None)];
    assert_eq!(
        SeriesBuilder::new(Metric::Speed).build(&points),
        Err(TrackError::MissingTimestamp)
    );
}

#[test]
fn build_looks_for_the_timestamp_before_the_value() {
    let points = vec![point(at(0, 0), Some(1)), point(None, None)];
    assert_eq!(
        SeriesBuilder::new(Metric::Speed).build(&points),
        Err(TrackError::MissingTimestamp)
    );
    let points = vec![point(None, None)];
    assert_eq!(
        SeriesBuilder::new(Metric::Speed).build(&points),
        Err(TrackError::MissingTimestamp)
    );
}

#[test]
fn build_gives_the_same_series_for_the_same_points() {
    let points = vec![
        point(at(1_556_700_000, 0), Some(2_500)),
        point(at(1_556_700_001, 500_000_000), Some(-300)),
        point(at(1_556_700_007, 0), Some(4_100)),
    ];
    let builder = SeriesBuilder::new(Metric::Speed);
    let first = builder.build(&points);
    let second = builder.build(&points.clone());
    assert!(first.is_ok());
    assert_eq!(first, second);
}

#[test]
fn build_offsets_do_not_decrease_with_the_timestamps() {
    let points = vec![
        point(at(50, 0), Some(1)),
        point(at(50, 0), Some(2)),
        point(at(50, 999_999_999), Some(3)),
        point(at(51, 0), Some(4)),
        point(at(3_600, 1), Some(5)),
    ];
    let series = SeriesBuilder::new(Metric::Speed).build(&points).unwrap();
    let offsets: Vec<i64> = series.samples.iter().map(|s| s.offset_seconds).collect();
    assert_eq!(offsets, vec![0, 0, 0, 1, 3_550]);
    for pair in offsets.windows(2) {
        assert!(pair[0] <= pair[1]);
    }
}

#[test]
fn build_range_always_holds_zero() {
    for values in [vec![5, 9], vec![-5, -9], vec![-1, 1], vec![0]] {
        let series = SeriesBuilder::new(Metric::Speed).build(&speeds(&values)).unwrap();
        assert!(series.value_range.low <= 0);
        assert!(series.value_range.high >= 0);
    }
}

#[test]
fn point_reads_each_metric() {
    let p = TrackPoint {
        latitude: 0,
        longitude: 0,
        elevation: Some(12),
        timestamp: None,
        speed: None,
    };
    assert_eq!(p.read(Metric::Elevation), Some(12));
    assert_eq!(p.read(Metric::Speed), None);
}
