//! The points of a recorded track.

use vstd::prelude::*;
use crate::time::Timestamp;

verus! {

/// The scalar of a point that a series is made of.
#[derive(Clone, Copy, Debug, PartialEq, Eq, Structural)]
pub enum Metric {
    /// Speed over ground.
    Speed,
    /// Height above the reference surface.
    Elevation,
}

/// One observed location. Coordinates are whole numbers of a coordinate unit
/// and values whole numbers of a value unit, both of the caller's choosing
/// (ten-millionths of a degree and millimetres, say).
#[derive(Clone, Copy, Debug, PartialEq, Eq)]
pub struct TrackPoint {
    /// First coordinate.
    pub latitude: i32,
    /// Second coordinate.
    pub longitude: i32,
    /// Elevation, where it was recorded.
    pub elevation: Option<i32>,
    /// Time of the observation, where it was recorded.
    pub timestamp: Option<Timestamp>,
    /// Speed, where it was recorded or derived.
    pub speed: Option<i32>,
}

impl TrackPoint {
    /// The point's value of `metric`, where it has one.
    pub open spec fn value(self, metric: Metric) -> Option<i32> {
        match metric {
            Metric::Speed => self.speed,
            Metric::Elevation => self.elevation,
        }
    }

    /// Whether the point has what a series of `metric` needs of it: a
    /// timestamp and a value.
    pub open spec fn is_complete(self, metric: Metric) -> bool {
        self.timestamp is Some && self.value(metric) is Some
    }

    /// The point's value of `metric`, where it has one.
    pub fn read(&self, metric: Metric) -> (value: Option<i32>)
        ensures
            value == self.value(metric),
    {
        match metric {
            Metric::Speed => self.speed,
            Metric::Elevation => self.elevation,
        }
    }
}

} // verus!
