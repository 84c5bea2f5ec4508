//! What holds of every viewport, whatever the points, the commands and the
//! ticks.

use vstd::prelude::*;
use crate::extrema::{lemma_greatest, lemma_least};
use crate::frame::BOUNDS_SCALE;
use crate::pan::{
    horizontal_change,
    pan_shift,
    vertical_change,
    Direction,
    Event,
    FRACTION_SCALE,
};
use crate::track::TrackPoint;
use crate::viewport::{framed, highest, latitudes, longitudes, lowest, ViewportView};

verus! {

/// Whether `values` reach from `low` to `high` and no further.
pub open spec fn is_extent(values: Seq<int>, low: int, high: int) -> bool {
    &&& forall|i: int| 0 <= i < values.len() ==> low <= #[trigger] values[i] <= high
    &&& exists|i: int| 0 <= i < values.len() && #[trigger] values[i] == low
    &&& exists|i: int| 0 <= i < values.len() && #[trigger] values[i] == high
}

/// `view` with other counts of pending steps.
pub open spec fn with_pending(view: ViewportView, vertical: int, horizontal: int) -> ViewportView {
    ViewportView { pending_vertical: vertical, pending_horizontal: horizontal, ..view }
}

/// `view` after all of `events`, in order.
pub open spec fn run(view: ViewportView, events: Seq<Event>) -> ViewportView
    decreases events.len(),
{
    if events.len() == 0 {
        view
    } else {
        run(view, events.drop_last()).apply(events.last())
    }
}

/// `view` after `count` commands towards `direction`.
pub open spec fn scrolled(view: ViewportView, direction: Direction, count: nat) -> ViewportView
    decreases count,
{
    if count == 0 {
        view
    } else {
        scrolled(view, direction, (count - 1) as nat).scroll(direction)
    }
}

/// `view` after `count` times a command towards `direction` and a tick.
pub open spec fn stepped(view: ViewportView, direction: Direction, count: nat) -> ViewportView
    decreases count,
{
    if count == 0 {
        view
    } else {
        stepped(view, direction, (count - 1) as nat).scroll(direction).tick()
    }
}

/// The lowest and the highest of a list that is not empty are its extent.
pub proof fn lemma_extent(values: Seq<int>)
    requires
        values.len() > 0,
    ensures
        is_extent(values, lowest(values), highest(values)),
{
    lemma_least(values[0], values);
    lemma_greatest(values[0], values);
    // the seed of both is the first value, which is one of the values
    assert(values.first() == values[0]);
}

/// A list has one extent only.
pub proof fn lemma_extent_is_unique(values: Seq<int>, low: int, high: int)
    requires
        is_extent(values, low, high),
    ensures
        low == lowest(values),
        high == highest(values),
{
    lemma_extent(values);
}

/// The margin is a quarter of the raw extent, exactly: where the first
/// coordinates of the points reach from `a` to `b` and the second from `c` to
/// `d`, the framed bounds, taken in coordinate units, are `a - (b - a) / 4`,
/// `b + (b - a) / 4`, `c - (d - c) / 4` and `d + (d - c) / 4`. Stated without
/// the division, the bounds being held in sub-units.
pub proof fn lemma_margin_is_a_quarter(
    points: Seq<TrackPoint>,
    vertical_step_fraction: u32,
    horizontal_step_fraction: u32,
    a: int,
    b: int,
    c: int,
    d: int,
)
    requires
        is_extent(latitudes(points), a, b),
        is_extent(longitudes(points), c, d),
    ensures
        ({
            let view = framed(points, vertical_step_fraction, horizontal_step_fraction);
            &&& 4 * view.x_min == BOUNDS_SCALE * (4 * a - (b - a))
            &&& 4 * view.x_max == BOUNDS_SCALE * (4 * b + (b - a))
            &&& 4 * view.y_min == BOUNDS_SCALE * (4 * c - (d - c))
            &&& 4 * view.y_max == BOUNDS_SCALE * (4 * d + (d - c))
        }),
{
    lemma_extent_is_unique(latitudes(points), a, b);
    lemma_extent_is_unique(longitudes(points), c, d);
}

/// No point lies outside the frame, and on an axis along which the points
/// differ none lies on its edge.
pub proof fn lemma_points_are_inside(
    points: Seq<TrackPoint>,
    vertical_step_fraction: u32,
    horizontal_step_fraction: u32,
    i: int,
)
    requires
        0 <= i < points.len(),
    ensures
        ({
            let view = framed(points, vertical_step_fraction, horizontal_step_fraction);
            let x = BOUNDS_SCALE * points[i].latitude;
            let y = BOUNDS_SCALE * points[i].longitude;
            &&& view.x_min <= x <= view.x_max
            &&& view.y_min <= y <= view.y_max
            &&& view.visible_x() > 0 ==> view.x_min < x < view.x_max
            &&& view.visible_y() > 0 ==> view.y_min < y < view.y_max
        }),
{
    let xs = latitudes(points);
    let ys = longitudes(points);
    lemma_extent(xs);
    lemma_extent(ys);
    assert(lowest(xs) <= xs[i] <= highest(xs));
    assert(lowest(ys) <= ys[i] <= highest(ys));
}

/// The viewport that frames a list of points is well formed.
pub proof fn lemma_framed_is_wf(
    points: Seq<TrackPoint>,
    vertical_step_fraction: u32,
    horizontal_step_fraction: u32,
)
    requires
        points.len() > 0,
    ensures
        framed(points, vertical_step_fraction, horizontal_step_fraction).wf(),
{
    lemma_extent(latitudes(points));
    lemma_extent(longitudes(points));
}

/// No command and no tick spoils a viewport: the bounds stay ordered, and the
/// visible spans stay what they were.
pub proof fn lemma_apply_keeps_wf(view: ViewportView, event: Event)
    requires
        view.wf(),
    ensures
        view.apply(event).wf(),
        view.apply(event).visible_x() == view.visible_x(),
        view.apply(event).visible_y() == view.visible_y(),
{
}

/// After framing and after any commands and ticks that follow, on each axis
/// the lower bound is not above the upper bound.
pub proof fn lemma_bounds_stay_ordered(
    points: Seq<TrackPoint>,
    vertical_step_fraction: u32,
    horizontal_step_fraction: u32,
    events: Seq<Event>,
)
    requires
        points.len() > 0,
    ensures
        run(
            framed(points, vertical_step_fraction, horizontal_step_fraction),
            events,
        ).is_ordered(),
        run(framed(points, vertical_step_fraction, horizontal_step_fraction), events).wf(),
    decreases events.len(),
{
    let start = framed(points, vertical_step_fraction, horizontal_step_fraction);
    if events.len() == 0 {
        lemma_framed_is_wf(points, vertical_step_fraction, horizontal_step_fraction);
    } else {
        lemma_bounds_stay_ordered(
            points,
            vertical_step_fraction,
            horizontal_step_fraction,
            events.drop_last(),
        );
        lemma_apply_keeps_wf(run(start, events.drop_last()), events.last());
    }
}

/// A tick moves an axis by exactly the span times the step fraction times the
/// pending steps: nothing is lost to rounding.
pub proof fn lemma_shift_is_exact(view: ViewportView)
    requires
        view.wf(),
    ensures
        FRACTION_SCALE * view.vertical_shift() == view.visible_y() * view.vertical_step_fraction
            * view.pending_vertical,
        FRACTION_SCALE * view.horizontal_shift() == view.horizontal_base()
            * view.horizontal_step_fraction * view.pending_horizontal,
{
    lemma_pan_shift_is_exact(
        view.visible_y(),
        view.vertical_step_fraction,
        view.pending_vertical,
    );
    lemma_pan_shift_is_exact(
        view.horizontal_base(),
        view.horizontal_step_fraction,
        view.pending_horizontal,
    );
}

/// See [`lemma_shift_is_exact`].
pub proof fn lemma_pan_shift_is_exact(span: int, fraction: int, pending: int)
    requires
        span % (FRACTION_SCALE as int) == 0,
    ensures
        FRACTION_SCALE * pan_shift(span, fraction, pending) == span * fraction * pending,
{
    let unit = span / (FRACTION_SCALE as int);
    assert(span == FRACTION_SCALE * unit);
    assert(FRACTION_SCALE * (unit * fraction * pending) == (FRACTION_SCALE * unit) * fraction
        * pending) by (nonlinear_arith);
}

/// The shift is linear in the pending steps: so many steps shift by so many
/// times the shift of one.
pub proof fn lemma_shift_is_linear(span: int, fraction: int, pending: int)
    ensures
        pan_shift(span, fraction, pending) == pending * pan_shift(span, fraction, 1),
{
    let step = span / (FRACTION_SCALE as int) * fraction;
    assert(step * pending == pending * (step * 1)) by (nonlinear_arith);
}

/// Panning adds up: the steps that are pending may be applied by one tick or,
/// split in two lots, by two, and the viewport is the same.
pub proof fn lemma_pan_adds_up(
    view: ViewportView,
    first_vertical: int,
    first_horizontal: int,
    then_vertical: int,
    then_horizontal: int,
)
    ensures
        with_pending(
            view,
            first_vertical + then_vertical,
            first_horizontal + then_horizontal,
        ).tick() == with_pending(
            with_pending(view, first_vertical, first_horizontal).tick(),
            then_vertical,
            then_horizontal,
        ).tick(),
{
    let vertical_step = view.visible_y() / (FRACTION_SCALE as int) * view.vertical_step_fraction;
    let horizontal_step = view.horizontal_base() / (FRACTION_SCALE as int)
        * view.horizontal_step_fraction;
    assert(vertical_step * (first_vertical + then_vertical) == vertical_step * first_vertical
        + vertical_step * then_vertical) by (nonlinear_arith);
    assert(horizontal_step * (first_horizontal + then_horizontal) == horizontal_step
        * first_horizontal + horizontal_step * then_horizontal) by (nonlinear_arith);
}

/// `count` commands towards one direction come to `count` on its counter.
pub proof fn lemma_scrolled(view: ViewportView, direction: Direction, count: nat)
    ensures
        scrolled(view, direction, count) == with_pending(
            view,
            view.pending_vertical + count * vertical_change(direction),
            view.pending_horizontal + count * horizontal_change(direction),
        ),
    decreases count,
{
    let dv = vertical_change(direction);
    let dh = horizontal_change(direction);
    if count > 0 {
        lemma_scrolled(view, direction, (count - 1) as nat);
        assert((count - 1) * dv + dv == count * dv) by (nonlinear_arith);
        assert((count - 1) * dh + dh == count * dh) by (nonlinear_arith);
    } else {
        assert(count * dv == 0 && count * dh == 0) by (nonlinear_arith)
            requires
                count == 0,
        ;
    }
}

/// Commands coalesce: some commands towards one direction and then one tick
/// leave the viewport where as many rounds of one command and one tick
/// leave it.
pub proof fn lemma_scrolls_coalesce(view: ViewportView, direction: Direction, count: nat)
    requires
        count >= 1,
    ensures
        scrolled(view, direction, count).tick() == stepped(view, direction, count),
    decreases count,
{
    let dv = vertical_change(direction);
    let dh = horizontal_change(direction);
    if count == 1 {
        assert(scrolled(view, direction, 0) == view);
        assert(stepped(view, direction, 0) == view);
    } else {
        let fewer = (count - 1) as nat;
        let vertical = view.pending_vertical + fewer * dv;
        let horizontal = view.pending_horizontal + fewer * dh;
        // so far: some commands and a tick, or as many rounds
        lemma_scrolls_coalesce(view, direction, fewer);
        lemma_scrolled(view, direction, fewer);
        let before = with_pending(view, vertical, horizontal).tick();
        assert(stepped(view, direction, fewer) == before);
        // one more round starts with nothing pending
        assert(before.scroll(direction) == with_pending(before, dv, dh));
        assert(stepped(view, direction, count) == with_pending(before, dv, dh).tick());
        // one more command adds one to what is pending
        lemma_scrolled(view, direction, count);
        assert(fewer * dv + dv == count * dv && fewer * dh + dh == count * dh)
            by (nonlinear_arith)
            requires
                fewer == count - 1,
        ;
        assert(scrolled(view, direction, count) == with_pending(
            view,
            vertical + dv,
            horizontal + dh,
        ));
        lemma_pan_adds_up(view, vertical, horizontal, dv, dh);
    }
}

/// Only the net count matters: two commands may come in either order, and
/// two opposite commands leave the viewport as it was.
pub proof fn lemma_scrolls_commute(view: ViewportView, first: Direction, second: Direction)
    ensures
        view.scroll(first).scroll(second) == view.scroll(second).scroll(first),
        view.scroll(Direction::Up).scroll(Direction::Down) == view,
        view.scroll(Direction::Left).scroll(Direction::Right) == view,
{
}

/// A tick with nothing pending changes nothing.
pub proof fn lemma_idle_tick_changes_nothing(view: ViewportView)
    requires
        view.is_idle(),
    ensures
        view.tick() == view,
{
    let vertical_step = view.visible_y() / (FRACTION_SCALE as int) * view.vertical_step_fraction;
    let horizontal_step = view.horizontal_base() / (FRACTION_SCALE as int)
        * view.horizontal_step_fraction;
    assert(vertical_step * 0 == 0);
    assert(horizontal_step * 0 == 0);
}

/// After a tick nothing is pending, and after one command on a viewport with
/// nothing pending something is.
pub proof fn lemma_phases(view: ViewportView, direction: Direction)
    ensures
        view.tick().is_idle(),
        view.is_idle() ==> !view.scroll(direction).is_idle(),
{
}

} // verus!
