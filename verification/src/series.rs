//! From timestamped values to a chartable series: offsets from the first
//! sample, and a value range that always holds zero.

use vstd::prelude::*;
use crate::error::TrackError;
use crate::extrema::{greatest, least, lemma_greatest, lemma_least};
use crate::time::{whole_seconds, Timestamp};
use crate::track::{Metric, TrackPoint};

verus! {

/// Parts of a value unit in which `value_range` is held: its ends are in
/// tenths, so that eight and twelve tenths of a whole value are whole numbers.
pub const RANGE_SCALE: i64 = 10;

/// Tenths of the lowest value at which the range starts.
pub const LOW_TENTHS: i64 = 8;

/// Tenths of the highest value at which the range ends.
pub const HIGH_TENTHS: i64 = 12;

/// One sample of a series.
#[derive(Clone, Copy, Debug, PartialEq, Eq)]
pub struct Sample {
    /// Whole seconds since the first sample of the series.
    pub offset_seconds: i64,
    /// The value, in value units.
    pub value: i32,
}

impl View for Sample {
    type V = (int, int);

    /// The pair of offset and value.
    open spec fn view(&self) -> (int, int) {
        (self.offset_seconds as int, self.value as int)
    }
}

/// The two ends of an axis.
#[derive(Clone, Copy, Debug, PartialEq, Eq)]
pub struct Interval {
    /// The lower end.
    pub low: i64,
    /// The upper end.
    pub high: i64,
}

impl View for Interval {
    type V = (int, int);

    /// The pair of lower and upper end.
    open spec fn view(&self) -> (int, int) {
        (self.low as int, self.high as int)
    }
}

/// A series ready for charting.
#[derive(Clone, Debug, PartialEq, Eq)]
pub struct TimeSeries {
    /// The samples, in the order of the points they were made of.
    pub samples: Vec<Sample>,
    /// Lower and upper end of the value axis, in tenths of a value unit.
    pub value_range: Interval,
    /// First and last offset of the time axis, in seconds.
    pub window: Interval,
}

/// What a [`TimeSeries`] holds, as mathematical values.
pub struct SeriesView {
    /// Pairs of offset in seconds and value.
    pub samples: Seq<(int, int)>,
    /// Ends of the value axis, in tenths of a value unit.
    pub value_range: (int, int),
    /// Ends of the time axis, in seconds.
    pub window: (int, int),
}

impl View for TimeSeries {
    type V = SeriesView;

    open spec fn view(&self) -> SeriesView {
        SeriesView {
            samples: Seq::new(self.samples@.len(), |i: int| self.samples@[i]@),
            value_range: self.value_range@,
            window: self.window@,
        }
    }
}

/// The values of `metric` at `points`, in order. Meant for points that all
/// have one.
pub open spec fn values_of(points: Seq<TrackPoint>, metric: Metric) -> Seq<int> {
    Seq::new(points.len(), |i: int| points[i].value(metric).unwrap() as int)
}

/// Whole seconds from the first point's timestamp to that of point `i`,
/// rounded toward zero.
pub open spec fn offset_at(points: Seq<TrackPoint>, i: int) -> int {
    whole_seconds(points[i].timestamp.unwrap()@ - points[0].timestamp.unwrap()@)
}

/// The lowest value of a series: the least of zero and all of `values`.
pub open spec fn min_value(values: Seq<int>) -> int {
    least(0, values)
}

/// The highest value of a series: the greatest of zero and all of `values`.
pub open spec fn max_value(values: Seq<int>) -> int {
    greatest(0, values)
}

/// The series of `metric` over `points`, all of which are complete.
pub open spec fn series_view(points: Seq<TrackPoint>, metric: Metric) -> SeriesView {
    let values = values_of(points, metric);
    SeriesView {
        samples: Seq::new(points.len(), |i: int| (offset_at(points, i), values[i])),
        value_range: (LOW_TENTHS * min_value(values), HIGH_TENTHS * max_value(values)),
        window: (0, offset_at(points, points.len() - 1)),
    }
}

/// The index of the first point that lacks its timestamp or its value of
/// `metric`; `points.len()` where no point does.
pub open spec fn first_incomplete(points: Seq<TrackPoint>, metric: Metric) -> int
    decreases points.len(),
{
    if points.len() == 0 {
        0
    } else {
        let before = first_incomplete(points.drop_last(), metric);
        if before < points.len() - 1 {
            before
        } else if points.last().is_complete(metric) {
            points.len() as int
        } else {
            points.len() - 1
        }
    }
}

/// What building a series of `metric` over `points` comes to. An empty list is
/// refused as such; otherwise the first incomplete point decides the error,
/// its timestamp being looked for before its value; with none, the series.
pub open spec fn series_outcome(points: Seq<TrackPoint>, metric: Metric) -> Result<
    SeriesView,
    TrackError,
> {
    let gap = first_incomplete(points, metric);
    if points.len() == 0 {
        Err(TrackError::EmptyInput)
    } else if gap < points.len() {
        if points[gap].timestamp is None {
            Err(TrackError::MissingTimestamp)
        } else {
            Err(TrackError::MissingValue)
        }
    } else {
        Ok(series_view(points, metric))
    }
}

/// A built series or its refusal, the series taken by its view.
pub open spec fn outcome_view(built: Result<TimeSeries, TrackError>) -> Result<
    SeriesView,
    TrackError,
> {
    match built {
        Ok(series) => Ok(series@),
        Err(error) => Err(error),
    }
}

/// `first_incomplete` is the one index before which every point is complete
/// and at which the list ends or a point is not.
pub proof fn lemma_first_incomplete(points: Seq<TrackPoint>, metric: Metric, gap: int)
    requires
        0 <= gap <= points.len(),
        forall|j: int| 0 <= j < gap ==> (#[trigger] points[j]).is_complete(metric),
        gap < points.len() ==> !points[gap].is_complete(metric),
    ensures
        first_incomplete(points, metric) == gap,
    decreases points.len(),
{
    if points.len() > 0 {
        let front = points.drop_last();
        if gap == points.len() {
            lemma_first_incomplete(front, metric, gap - 1);
        } else {
            lemma_first_incomplete(front, metric, gap);
        }
    }
}

/// The value axis of every series holds zero.
pub proof fn lemma_range_holds_zero(points: Seq<TrackPoint>, metric: Metric)
    ensures
        series_view(points, metric).value_range.0 <= 0 <= series_view(
            points,
            metric,
        ).value_range.1,
{
    lemma_least(0, values_of(points, metric));
    lemma_greatest(0, values_of(points, metric));
}

/// Offsets are counted from the first point: its sample is at zero, where the
/// time axis starts, and the time axis of a single point ends there too.
pub proof fn lemma_series_starts_at_zero(points: Seq<TrackPoint>, metric: Metric)
    requires
        points.len() > 0,
    ensures
        series_view(points, metric).samples[0].0 == 0,
        series_view(points, metric).window.0 == 0,
        points.len() == 1 ==> series_view(points, metric).window == (0int, 0int),
{
}

/// Where no timestamp is earlier than the one before it, no offset is smaller
/// than the one before it.
pub proof fn lemma_offsets_non_decreasing(points: Seq<TrackPoint>, metric: Metric)
    requires
        forall|i: int, j: int|
            0 <= i <= j < points.len() ==> (#[trigger] points[i]).timestamp.unwrap()@ <= (
            #[trigger] points[j]).timestamp.unwrap()@,
    ensures
        forall|i: int, j: int|
            0 <= i <= j < points.len() ==> (#[trigger] series_view(points, metric).samples[i]).0
                <= (#[trigger] series_view(points, metric).samples[j]).0,
{
    let samples = series_view(points, metric).samples;
    assert forall|i: int, j: int| 0 <= i <= j < points.len() implies (#[trigger] samples[i]).0 <= (
    #[trigger] samples[j]).0 by {
        let start = points[0].timestamp.unwrap()@;
        let first = points[i].timestamp.unwrap()@;
        let second = points[j].timestamp.unwrap()@;
        assert(first <= second);
        assert(whole_seconds(first - start) <= whole_seconds(second - start));
    }
}

/// Building is a function of the points and the metric: two results that
/// both meet the contract of [`SeriesBuilder::build`] for the same input hold
/// the same series, or are the same refusal.
pub proof fn lemma_build_is_a_function(
    points: Seq<TrackPoint>,
    metric: Metric,
    first: Result<TimeSeries, TrackError>,
    second: Result<TimeSeries, TrackError>,
)
    requires
        outcome_view(first) == series_outcome(points, metric),
        outcome_view(second) == series_outcome(points, metric),
    ensures
        outcome_view(first) == outcome_view(second),
        first is Ok ==> second is Ok && first.unwrap().samples@ == second.unwrap().samples@
            && first.unwrap().value_range == second.unwrap().value_range && first.unwrap().window
            == second.unwrap().window,
        first is Err ==> second == first,
{
    if first is Ok {
        let a = first.unwrap();
        let b = second.unwrap();
        assert(a@.samples.len() == b@.samples.len());
        assert forall|i: int| 0 <= i < a.samples@.len() implies a.samples@[i] == b.samples@[i] by {
            assert(a@.samples[i] == b@.samples[i]);
        }
        assert(a.samples@ =~= b.samples@);
    }
}

/// Makes the series of one metric.
#[derive(Clone, Copy, Debug, PartialEq, Eq)]
pub struct SeriesBuilder {
    /// The value that the series is made of.
    pub metric: Metric,
}

impl SeriesBuilder {
    /// A builder for series of `metric`.
    pub fn new(metric: Metric) -> (builder: SeriesBuilder)
        ensures
            builder.metric == metric,
    {
        SeriesBuilder { metric }
    }

    /// The series of the builder's metric over `points`: one sample per point
    /// and in the same order, each with its whole seconds since the first
    /// point; the value axis from eight tenths of the lowest to twelve tenths
    /// of the highest value, zero counted among the values; the time axis from
    /// zero to the last offset. Refused when `points` is empty or a point
    /// lacks its timestamp or its value.
    pub fn build(&self, points: &Vec<TrackPoint>) -> (built: Result<TimeSeries, TrackError>)
        ensures
            outcome_view(built) == series_outcome(points@, self.metric),
    {
        let metric = self.metric;
        let count: usize = points.len();
        if count == 0 {
            return Err(TrackError::EmptyInput);
        }
        let start: Timestamp = match points[0].timestamp {
            Some(instant) => instant,
            None => {
                proof {
                    lemma_first_incomplete(points@, metric, 0);
                }
                return Err(TrackError::MissingTimestamp);
            },
        };
        let ghost values = values_of(points@, metric);
        let mut samples: Vec<Sample> = Vec::new();
        let mut lowest: i32 = 0;
        let mut highest: i32 = 0;
        let mut i: usize = 0;
        while i < count
            invariant
                metric == self.metric,
                count == points.len(),
                0 <= i <= count,
                points[0].timestamp == Some(start),
                values == values_of(points@, metric),
                forall|j: int| 0 <= j < i ==> (#[trigger] points[j]).is_complete(metric),
                samples.len() == i,
                forall|j: int|
                    0 <= j < i ==> (#[trigger] samples[j])@ == (offset_at(points@, j), values[j]),
                lowest == min_value(values.take(i as int)),
                highest == max_value(values.take(i as int)),
            decreases count - i,
        {
            let point: TrackPoint = points[i];
            let instant: Timestamp = match point.timestamp {
                Some(instant) => instant,
                None => {
                    proof {
                        lemma_first_incomplete(points@, metric, i as int);
                    }
                    return Err(TrackError::MissingTimestamp);
                },
            };
            let value: i32 = match point.read(metric) {
                Some(value) => value,
                None => {
                    proof {
                        lemma_first_incomplete(points@, metric, i as int);
                    }
                    return Err(TrackError::MissingValue);
                },
            };
            let offset: i64 = instant.whole_seconds_since(&start);
            samples.push(Sample { offset_seconds: offset, value });
            proof {
                assert(values.take(i + 1).drop_last() =~= values.take(i as int));
                assert(values.take(i + 1).last() == value);
            }
            if value > highest {
                highest = value;
            }
            if value < lowest {
                lowest = value;
            }
            i = i + 1;
        }
        let last: i64 = samples[count - 1].offset_seconds;
        let series = TimeSeries {
            samples,
            value_range: Interval {
                low: LOW_TENTHS * (lowest as i64),
                high: HIGH_TENTHS * (highest as i64),
            },
            window: Interval { low: 0, high: last },
        };
        proof {
            lemma_first_incomplete(points@, metric, count as int);
            assert(values.take(count as int) =~= values);
            assert(series@.samples =~= series_view(points@, metric).samples);
        }
        Ok(series)
    }
}

} // verus!
