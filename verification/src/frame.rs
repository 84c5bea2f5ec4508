//! The rectangle that is in view.

use vstd::prelude::*;

verus! {

/// Sub-units in one coordinate unit. A [`BoundingBox`] is held in sub-units,
/// a quarter of a millionth of a unit each, so that the quarter margin and
/// every step of so many millionths of a span are whole numbers.
pub const BOUNDS_SCALE: i64 = 4_000_000;

/// The margin on each side for one coordinate unit of raw extent, in
/// sub-units: a quarter of [`BOUNDS_SCALE`].
pub const MARGIN_SCALE: i64 = 1_000_000;

/// A rectangle, in sub-units of the coordinate unit.
#[derive(Clone, Copy, Debug, PartialEq, Eq)]
pub struct BoundingBox {
    /// Lower end of the first axis.
    pub x_min: i64,
    /// Lower end of the second axis.
    pub y_min: i64,
    /// Upper end of the first axis.
    pub x_max: i64,
    /// Upper end of the second axis.
    pub y_max: i64,
}

impl BoundingBox {
    /// Whether on each axis the lower end is not above the upper end.
    pub open spec fn is_ordered(&self) -> bool {
        self.x_min <= self.x_max && self.y_min <= self.y_max
    }
}

/// The lower end of the framed axis whose raw extent is from `low` to `high`
/// coordinate units: `low` less a quarter of the extent, in sub-units.
pub open spec fn framed_min(low: int, high: int) -> int {
    BOUNDS_SCALE * low - MARGIN_SCALE * (high - low)
}

/// The upper end of the framed axis whose raw extent is from `low` to `high`
/// coordinate units: `high` plus a quarter of the extent, in sub-units.
pub open spec fn framed_max(low: int, high: int) -> int {
    BOUNDS_SCALE * high + MARGIN_SCALE * (high - low)
}

} // verus!
