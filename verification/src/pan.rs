//! Pan commands and the steps that wait for the next tick.

use vstd::prelude::*;

verus! {

/// Step fractions are counted in millionths of the visible span.
pub const FRACTION_SCALE: i64 = 1_000_000;

/// One hundredth of the visible span: the usual size of a step.
pub const DEFAULT_STEP_FRACTION: u32 = 10_000;

/// The way of one pan command.
#[derive(Clone, Copy, Debug, PartialEq, Eq, Structural)]
pub enum Direction {
    Up,
    Down,
    Left,
    Right,
}

/// What the model is told: one pan command, or that a frame is due.
#[derive(Clone, Copy, Debug, PartialEq, Eq, Structural)]
pub enum Event {
    /// One key press towards a direction.
    Scroll(Direction),
    /// The periodic tick that applies what is pending.
    Tick,
}

/// Which span a horizontal step is a fraction of.
#[derive(Clone, Copy, Debug, PartialEq, Eq, Structural)]
pub enum StepBase {
    /// The visible vertical span, for both axes.
    VerticalSpan,
    /// The visible span of the axis itself.
    OwnSpan,
}

/// Whether steps are waiting for the next tick.
#[derive(Clone, Copy, Debug, PartialEq, Eq, Structural)]
pub enum Phase {
    /// Nothing is pending.
    Idle,
    /// A counter is not zero.
    PendingScroll,
}

/// The steps that were asked for and are not applied yet, and the size of one
/// step on each axis.
#[derive(Clone, Copy, Debug, PartialEq, Eq)]
pub struct PanState {
    /// Net steps downwards (negative: upwards) since the last tick.
    pub pending_vertical: i64,
    /// Net steps leftwards (negative: rightwards) since the last tick.
    pub pending_horizontal: i64,
    /// One vertical step, in millionths of the visible span.
    pub vertical_step_fraction: u32,
    /// One horizontal step, in millionths of the visible span.
    pub horizontal_step_fraction: u32,
}

/// By how much a counter moves on one command towards `direction`: down and
/// left count up, up and right count down.
pub open spec fn vertical_change(direction: Direction) -> int {
    match direction {
        Direction::Down => 1,
        Direction::Up => -1,
        _ => 0,
    }
}

/// See [`vertical_change`].
pub open spec fn horizontal_change(direction: Direction) -> int {
    match direction {
        Direction::Left => 1,
        Direction::Right => -1,
        _ => 0,
    }
}

/// The shift that `pending` steps come to, each of them `fraction` millionths
/// of `span`.
pub open spec fn pan_shift(span: int, fraction: int, pending: int) -> int {
    span / (FRACTION_SCALE as int) * fraction * pending
}

} // verus!
