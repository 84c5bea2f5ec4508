//! The pannable viewport: framed once from the points of a track, then moved
//! by the steps that pan commands leave pending until the next tick.

use vstd::prelude::*;
use crate::control::{command_for, command_of, Command, Flow, Input};
use crate::error::TrackError;
use crate::extrema::{greatest, least, lemma_greatest, lemma_least};
use crate::frame::{framed_max, framed_min, BoundingBox, BOUNDS_SCALE, MARGIN_SCALE};
use crate::pan::{
    horizontal_change,
    pan_shift,
    vertical_change,
    Direction,
    Event,
    PanState,
    Phase,
    StepBase,
    FRACTION_SCALE,
};
use crate::track::TrackPoint;

verus! {

/// What a [`ViewportModel`] holds, as mathematical values: the bounds in
/// sub-units, the pending steps, and the step fractions in millionths.
pub struct ViewportView {
    pub x_min: int,
    pub y_min: int,
    pub x_max: int,
    pub y_max: int,
    pub pending_vertical: int,
    pub pending_horizontal: int,
    pub vertical_step_fraction: int,
    pub horizontal_step_fraction: int,
    pub step_base: StepBase,
}

impl ViewportView {
    /// The visible span of the first axis.
    pub open spec fn visible_x(self) -> int {
        self.x_max - self.x_min
    }

    /// The visible span of the second axis.
    pub open spec fn visible_y(self) -> int {
        self.y_max - self.y_min
    }

    /// Whether on each axis the lower end is not above the upper end.
    pub open spec fn is_ordered(self) -> bool {
        self.x_min <= self.x_max && self.y_min <= self.y_max
    }

    /// What holds of every viewport: the bounds are ordered, the visible spans
    /// are whole millions of sub-units, and no step fraction is negative.
    pub open spec fn wf(self) -> bool {
        &&& self.is_ordered()
        &&& self.visible_x() % (FRACTION_SCALE as int) == 0
        &&& self.visible_y() % (FRACTION_SCALE as int) == 0
        &&& self.vertical_step_fraction >= 0
        &&& self.horizontal_step_fraction >= 0
    }

    /// Whether every part is within the range of the integer that holds it.
    pub open spec fn fits(self) -> bool {
        &&& i64::MIN <= self.x_min <= i64::MAX
        &&& i64::MIN <= self.y_min <= i64::MAX
        &&& i64::MIN <= self.x_max <= i64::MAX
        &&& i64::MIN <= self.y_max <= i64::MAX
        &&& i64::MIN <= self.pending_vertical <= i64::MAX
        &&& i64::MIN <= self.pending_horizontal <= i64::MAX
        &&& 0 <= self.vertical_step_fraction <= u32::MAX
        &&& 0 <= self.horizontal_step_fraction <= u32::MAX
    }

    /// Whether no step is pending.
    pub open spec fn is_idle(self) -> bool {
        self.pending_vertical == 0 && self.pending_horizontal == 0
    }

    /// The span that a horizontal step is a fraction of.
    pub open spec fn horizontal_base(self) -> int {
        match self.step_base {
            StepBase::VerticalSpan => self.visible_y(),
            StepBase::OwnSpan => self.visible_x(),
        }
    }

    /// The shift of the second axis that the next tick applies.
    pub open spec fn vertical_shift(self) -> int {
        pan_shift(self.visible_y(), self.vertical_step_fraction, self.pending_vertical)
    }

    /// The shift of the first axis that the next tick applies.
    pub open spec fn horizontal_shift(self) -> int {
        pan_shift(self.horizontal_base(), self.horizontal_step_fraction, self.pending_horizontal)
    }

    /// The viewport after one pan command: one counter moves by one, the
    /// bounds stay.
    pub open spec fn scroll(self, direction: Direction) -> ViewportView {
        ViewportView {
            pending_vertical: self.pending_vertical + vertical_change(direction),
            pending_horizontal: self.pending_horizontal + horizontal_change(direction),
            ..self
        }
    }

    /// The viewport after a tick: both ends of each axis are shifted by what
    /// is pending for it, and nothing is pending any more.
    pub open spec fn tick(self) -> ViewportView {
        ViewportView {
            x_min: self.x_min + self.horizontal_shift(),
            x_max: self.x_max + self.horizontal_shift(),
            y_min: self.y_min + self.vertical_shift(),
            y_max: self.y_max + self.vertical_shift(),
            pending_vertical: 0,
            pending_horizontal: 0,
            ..self
        }
    }

    /// The viewport after `event`.
    pub open spec fn apply(self, event: Event) -> ViewportView {
        match event {
            Event::Scroll(direction) => self.scroll(direction),
            Event::Tick => self.tick(),
        }
    }
}

/// The first coordinates of `points`, in order.
pub open spec fn latitudes(points: Seq<TrackPoint>) -> Seq<int> {
    Seq::new(points.len(), |i: int| points[i].latitude as int)
}

/// The second coordinates of `points`, in order.
pub open spec fn longitudes(points: Seq<TrackPoint>) -> Seq<int> {
    Seq::new(points.len(), |i: int| points[i].longitude as int)
}

/// The least of `values`, which is not empty.
pub open spec fn lowest(values: Seq<int>) -> int {
    least(values[0], values)
}

/// The greatest of `values`, which is not empty.
pub open spec fn highest(values: Seq<int>) -> int {
    greatest(values[0], values)
}

/// The viewport that frames `points`, of which there is at least one: on each
/// axis the raw extent of the points with a quarter of it added on both
/// sides, nothing pending, and horizontal steps taken from the vertical span.
pub open spec fn framed(
    points: Seq<TrackPoint>,
    vertical_step_fraction: u32,
    horizontal_step_fraction: u32,
) -> ViewportView {
    let xs = latitudes(points);
    let ys = longitudes(points);
    ViewportView {
        x_min: framed_min(lowest(xs), highest(xs)),
        x_max: framed_max(lowest(xs), highest(xs)),
        y_min: framed_min(lowest(ys), highest(ys)),
        y_max: framed_max(lowest(ys), highest(ys)),
        pending_vertical: 0,
        pending_horizontal: 0,
        vertical_step_fraction: vertical_step_fraction as int,
        horizontal_step_fraction: horizontal_step_fraction as int,
        step_base: StepBase::VerticalSpan,
    }
}

/// What framing `points` comes to: a refusal where there is none, else the
/// viewport.
pub open spec fn framed_outcome(
    points: Seq<TrackPoint>,
    vertical_step_fraction: u32,
    horizontal_step_fraction: u32,
) -> Result<ViewportView, TrackError> {
    if points.len() == 0 {
        Err(TrackError::EmptyInput)
    } else {
        Ok(framed(points, vertical_step_fraction, horizontal_step_fraction))
    }
}

/// A made viewport or its refusal, the viewport taken by its view.
pub open spec fn made_view(made: Result<ViewportModel, TrackError>) -> Result<
    ViewportView,
    TrackError,
> {
    match made {
        Ok(model) => Ok(model@),
        Err(error) => Err(error),
    }
}

/// The visible region of a track and the pan steps that wait to move it.
#[derive(Clone, Copy, Debug, PartialEq, Eq)]
pub struct ViewportModel {
    bounds: BoundingBox,
    pan: PanState,
    step_base: StepBase,
}

impl View for ViewportModel {
    type V = ViewportView;

    closed spec fn view(&self) -> ViewportView {
        ViewportView {
            x_min: self.bounds.x_min as int,
            y_min: self.bounds.y_min as int,
            x_max: self.bounds.x_max as int,
            y_max: self.bounds.y_max as int,
            pending_vertical: self.pan.pending_vertical as int,
            pending_horizontal: self.pan.pending_horizontal as int,
            vertical_step_fraction: self.pan.vertical_step_fraction as int,
            horizontal_step_fraction: self.pan.horizontal_step_fraction as int,
            step_base: self.step_base,
        }
    }
}

/// Both ends of an axis after the shift that `pending` steps of `fraction`
/// millionths of `span` come to, where both still fit.
fn shift_axis(low: i64, high: i64, span: u64, fraction: u32, pending: i64) -> (moved: Option<
    (i64, i64),
>)
    requires
        low <= high,
    ensures
        moved is Some <==> i64::MIN <= low + pan_shift(span as int, fraction as int, pending as int)
            && high + pan_shift(span as int, fraction as int, pending as int) <= i64::MAX,
        moved matches Some(ends) ==> ends.0 == low + pan_shift(
            span as int,
            fraction as int,
            pending as int,
        ) && ends.1 == high + pan_shift(span as int, fraction as int, pending as int),
{
    let unit: u64 = span / (FRACTION_SCALE as u64);
    assert(0 <= unit * fraction <= u64::MAX * u32::MAX) by (nonlinear_arith)
        requires
            0 <= unit <= u64::MAX,
            0 <= fraction <= u32::MAX,
    ;
    let step: u128 = (unit as u128) * (fraction as u128);
    let ghost shift = step * pending;
    assert(shift == pan_shift(span as int, fraction as int, pending as int));
    if pending == 0 {
        assert(shift == 0) by (nonlinear_arith)
            requires
                shift == step * pending,
                pending == 0,
        ;
        return Some((low, high));
    }
    if step > u64::MAX as u128 {
        // a span is less than 2^64 wide: shifted by more, it has left the range
        assert(shift > u64::MAX || shift < -u64::MAX) by (nonlinear_arith)
            requires
                shift == step * pending,
                step > u64::MAX,
                pending != 0,
        ;
        return None;
    }
    assert(u64::MAX * i64::MIN <= shift <= u64::MAX * i64::MAX) by (nonlinear_arith)
        requires
            shift == step * pending,
            0 <= step <= u64::MAX,
            i64::MIN <= pending <= i64::MAX,
    ;
    let moved_by: i128 = (step as i128) * (pending as i128);
    let new_low: i128 = (low as i128) + moved_by;
    let new_high: i128 = (high as i128) + moved_by;
    if new_low >= (i64::MIN as i128) && new_high <= (i64::MAX as i128) {
        Some((new_low as i64, new_high as i64))
    } else {
        None
    }
}

impl ViewportModel {
    #[verifier::type_invariant]
    spec fn inv(self) -> bool {
        self@.wf()
    }

    /// The viewport that frames `points`: on each axis their raw extent with a
    /// quarter of it added on both sides, with nothing pending and steps of
    /// the given millionths of the visible vertical span. Refused when
    /// `points` is empty.
    pub fn init(
        points: &Vec<TrackPoint>,
        vertical_step_fraction: u32,
        horizontal_step_fraction: u32,
    ) -> (made: Result<ViewportModel, TrackError>)
        ensures
            made_view(made) == framed_outcome(
                points@,
                vertical_step_fraction,
                horizontal_step_fraction,
            ),
            made matches Ok(model) ==> model@.wf() && model@.fits(),
    {
        let count: usize = points.len();
        if count == 0 {
            return Err(TrackError::EmptyInput);
        }
        let ghost xs = latitudes(points@);
        let ghost ys = longitudes(points@);
        let mut x_low: i32 = points[0].latitude;
        let mut x_high: i32 = points[0].latitude;
        let mut y_low: i32 = points[0].longitude;
        let mut y_high: i32 = points[0].longitude;
        let mut i: usize = 0;
        while i < count
            invariant
                count == points.len(),
                0 <= i <= count,
                xs == latitudes(points@),
                ys == longitudes(points@),
                x_low == least(xs[0], xs.take(i as int)),
                x_high == greatest(xs[0], xs.take(i as int)),
                y_low == least(ys[0], ys.take(i as int)),
                y_high == greatest(ys[0], ys.take(i as int)),
            decreases count - i,
        {
            let point: TrackPoint = points[i];
            proof {
                assert(xs.take(i + 1).drop_last() =~= xs.take(i as int));
                assert(ys.take(i + 1).drop_last() =~= ys.take(i as int));
                assert(xs.take(i + 1).last() == point.latitude);
                assert(ys.take(i + 1).last() == point.longitude);
            }
            if point.latitude < x_low {
                x_low = point.latitude;
            }
            if point.latitude > x_high {
                x_high = point.latitude;
            }
            if point.longitude < y_low {
                y_low = point.longitude;
            }
            if point.longitude > y_high {
                y_high = point.longitude;
            }
            i = i + 1;
        }
        proof {
            assert(xs.take(count as int) =~= xs);
            assert(ys.take(count as int) =~= ys);
            lemma_least(xs[0], xs);
            lemma_greatest(xs[0], xs);
            lemma_least(ys[0], ys);
            lemma_greatest(ys[0], ys);
        }
        let x_margin: i64 = MARGIN_SCALE * ((x_high as i64) - (x_low as i64));
        let y_margin: i64 = MARGIN_SCALE * ((y_high as i64) - (y_low as i64));
        let bounds = BoundingBox {
            x_min: BOUNDS_SCALE * (x_low as i64) - x_margin,
            y_min: BOUNDS_SCALE * (y_low as i64) - y_margin,
            x_max: BOUNDS_SCALE * (x_high as i64) + x_margin,
            y_max: BOUNDS_SCALE * (y_high as i64) + y_margin,
        };
        let pan = PanState {
            pending_vertical: 0,
            pending_horizontal: 0,
            vertical_step_fraction,
            horizontal_step_fraction,
        };
        Ok(ViewportModel { bounds, pan, step_base: StepBase::VerticalSpan })
    }

    /// The same viewport with horizontal steps taken from `step_base`.
    pub fn with_step_base(self, step_base: StepBase) -> (model: ViewportModel)
        ensures
            model@ == (ViewportView { step_base, ..self@ }),
            model@.wf(),
    {
        proof {
            use_type_invariant(&self);
        }
        ViewportModel { bounds: self.bounds, pan: self.pan, step_base }
    }

    /// Counts one pan command towards `direction`: down and left count their
    /// counter up, up and right count it down. The bounds stay as they are
    /// until the next tick. The counter must not stand at the end of its
    /// range; [`ViewportModel::apply`] takes a command wherever it stands.
    pub fn scroll(&mut self, direction: Direction)
        requires
            old(self)@.scroll(direction).fits(),
        ensures
            final(self)@ == old(self)@.scroll(direction),
            final(self)@.wf(),
    {
        proof {
            use_type_invariant(&*self);
        }
        let pan: PanState = self.pan;
        self.pan = match direction {
            Direction::Down => PanState { pending_vertical: pan.pending_vertical + 1, ..pan },
            Direction::Up => PanState { pending_vertical: pan.pending_vertical - 1, ..pan },
            Direction::Left => PanState { pending_horizontal: pan.pending_horizontal + 1, ..pan },
            Direction::Right => PanState { pending_horizontal: pan.pending_horizontal - 1, ..pan },
        };
    }

    /// The bounds that the next tick moves to, where they fit.
    fn shifted(&self) -> (moved: Option<BoundingBox>)
        ensures
            moved is Some <==> self@.tick().fits(),
            moved matches Some(bounds) ==> self@.tick().x_min == bounds.x_min && self@.tick().y_min
                == bounds.y_min && self@.tick().x_max == bounds.x_max && self@.tick().y_max
                == bounds.y_max,
    {
        proof {
            use_type_invariant(self);
        }
        let bounds: BoundingBox = self.bounds;
        let pan: PanState = self.pan;
        let visible_y: u64 = ((bounds.y_max as i128) - (bounds.y_min as i128)) as u64;
        let visible_x: u64 = ((bounds.x_max as i128) - (bounds.x_min as i128)) as u64;
        let base: u64 = match self.step_base {
            StepBase::VerticalSpan => visible_y,
            StepBase::OwnSpan => visible_x,
        };
        let vertical = shift_axis(
            bounds.y_min,
            bounds.y_max,
            visible_y,
            pan.vertical_step_fraction,
            pan.pending_vertical,
        );
        let horizontal = shift_axis(
            bounds.x_min,
            bounds.x_max,
            base,
            pan.horizontal_step_fraction,
            pan.pending_horizontal,
        );
        match (vertical, horizontal) {
            (Some(ys), Some(xs)) => Some(
                BoundingBox { x_min: xs.0, y_min: ys.0, x_max: xs.1, y_max: ys.1 },
            ),
            _ => None,
        }
    }

    /// Applies what is pending: both ends of the second axis move by the
    /// visible vertical span times the vertical step fraction times the
    /// pending vertical steps, both ends of the first axis by the base span
    /// of horizontal steps times the horizontal step fraction times the
    /// pending horizontal steps; then nothing is pending. The bounds must
    /// still fit after the move; [`ViewportModel::apply`] takes a tick
    /// wherever they stand.
    pub fn tick(&mut self)
        requires
            old(self)@.tick().fits(),
        ensures
            final(self)@ == old(self)@.tick(),
            final(self)@.wf(),
    {
        proof {
            use_type_invariant(&*self);
        }
        match self.shifted() {
            Some(bounds) => {
                let pan: PanState = self.pan;
                let step_base: StepBase = self.step_base;
                *self = ViewportModel {
                    bounds,
                    pan: PanState { pending_vertical: 0, pending_horizontal: 0, ..pan },
                    step_base,
                };
            },
            None => {},
        }
    }

    /// Takes `event` where the viewport after it fits the integers that hold
    /// it, and says whether it did; where it does not fit, nothing changes.
    pub fn apply(&mut self, event: Event) -> (applied: bool)
        ensures
            applied == old(self)@.apply(event).fits(),
            applied ==> final(self)@ == old(self)@.apply(event),
            !applied ==> final(self)@ == old(self)@,
            final(self)@.wf(),
    {
        proof {
            use_type_invariant(&*self);
        }
        match event {
            Event::Scroll(direction) => {
                let pan: PanState = self.pan;
                let in_reach: bool = match direction {
                    Direction::Down => pan.pending_vertical < i64::MAX,
                    Direction::Up => pan.pending_vertical > i64::MIN,
                    Direction::Left => pan.pending_horizontal < i64::MAX,
                    Direction::Right => pan.pending_horizontal > i64::MIN,
                };
                if in_reach {
                    self.scroll(direction);
                }
                in_reach
            },
            Event::Tick => {
                let in_reach: bool = self.shifted().is_some();
                if in_reach {
                    self.tick();
                }
                in_reach
            },
        }
    }

    /// One round of the render loop: carries out the command of `input` and
    /// says whether the loop goes on. An event after which the viewport would
    /// not fit its integers is dropped.
    pub fn handle(&mut self, input: Input) -> (flow: Flow)
        ensures
            flow == Flow::Quit <==> command_of(input) == Command::Quit,
            final(self)@ == (match command_of(input) {
                Command::Apply(event) => if old(self)@.apply(event).fits() {
                    old(self)@.apply(event)
                } else {
                    old(self)@
                },
                _ => old(self)@,
            }),
            final(self)@.wf(),
    {
        proof {
            use_type_invariant(&*self);
        }
        match command_for(input) {
            Command::Quit => Flow::Quit,
            Command::Apply(event) => {
                let _ = self.apply(event);
                Flow::Continue
            },
            Command::Ignore => Flow::Continue,
        }
    }

    /// The bounds as they are now.
    pub fn current_bounds(&self) -> (bounds: BoundingBox)
        ensures
            bounds.x_min == self@.x_min,
            bounds.y_min == self@.y_min,
            bounds.x_max == self@.x_max,
            bounds.y_max == self@.y_max,
            bounds.is_ordered(),
            self@.wf(),
            self@.fits(),
    {
        proof {
            use_type_invariant(self);
        }
        self.bounds
    }

    /// The pending steps and the step fractions as they are now.
    pub fn current_pan_state(&self) -> (pan: PanState)
        ensures
            pan.pending_vertical == self@.pending_vertical,
            pan.pending_horizontal == self@.pending_horizontal,
            pan.vertical_step_fraction == self@.vertical_step_fraction,
            pan.horizontal_step_fraction == self@.horizontal_step_fraction,
            self@.wf(),
            self@.fits(),
    {
        proof {
            use_type_invariant(self);
        }
        self.pan
    }

    /// The span that horizontal steps are taken from.
    pub fn step_base(&self) -> (step_base: StepBase)
        ensures
            step_base == self@.step_base,
    {
        self.step_base
    }

    /// `Idle` where nothing is pending, else `PendingScroll`.
    pub fn phase(&self) -> (phase: Phase)
        ensures
            phase == Phase::Idle <==> self@.is_idle(),
            phase == Phase::PendingScroll <==> !self@.is_idle(),
    {
        if self.pan.pending_vertical == 0 && self.pan.pending_horizontal == 0 {
            Phase::Idle
        } else {
            Phase::PendingScroll
        }
    }
}

} // verus!
