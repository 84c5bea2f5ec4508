//! Viewport and time-series engine for recorded GPS tracks.
//!
//! A track is a list of [`TrackPoint`]s. [`SeriesBuilder`] turns it into a
//! [`TimeSeries`] for a chart: one sample per point, at its whole seconds
//! since the first, and a value axis that always holds zero.
//! [`ViewportModel`] frames the track with a margin and then moves the frame
//! by the pan commands it is given, which wait for the next tick.
//!
//! Every quantity is a whole number. Coordinates and values come in units of
//! the caller's choosing. What is derived from them is held in finer units
//! wherever that keeps it exact: bounds in sub-units
//! ([`frame::BOUNDS_SCALE`] to the coordinate unit), the value range in tenths
//! of the value unit ([`series::RANGE_SCALE`]), and step fractions in
//! millionths ([`pan::FRACTION_SCALE`]).

pub mod control;
pub mod error;
pub mod extrema;
pub mod frame;
pub mod laws;
pub mod pan;
pub mod series;
pub mod time;
pub mod track;
pub mod viewport;

pub use crate::control::{Command, Flow, Input, Key};
pub use crate::error::TrackError;
pub use crate::frame::BoundingBox;
pub use crate::pan::{Direction, Event, PanState, Phase, StepBase};
pub use crate::series::{Interval, Sample, SeriesBuilder, TimeSeries};
pub use crate::time::Timestamp;
pub use crate::track::{Metric, TrackPoint};
pub use crate::viewport::ViewportModel;
