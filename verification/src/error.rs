//! The ways in which a track can be unfit for charting or framing.

use vstd::prelude::*;

verus! {

/// Why a series or a viewport could not be made from a list of points.
#[derive(Clone, Copy, Debug, PartialEq, Eq, Structural)]
pub enum TrackError {
    /// The list holds no point.
    EmptyInput,
    /// A point has no timestamp where one is needed.
    MissingTimestamp,
    /// A point lacks the value that was asked for.
    MissingValue,
}

} // verus!
