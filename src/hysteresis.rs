//! A hysteresis switch made of two linear segments and two thresholds.
//!
//! Slopes, intercepts and thresholds are fixed-point values (see
//! [`crate::fixed`]); input and output samples are plain integers.
use vstd::prelude::*;

use crate::fixed::{
    div_fx, floor_div, fx_div, lemma_mul_within, saturate, saturate_i32, scale_down, shift_down,
};
use crate::plant::{outputs_of, state_after, TransferTimeDomain, TypeIdentifier};
use crate::{NotDefinedError, TransferFunction};

verus! {

/// Which segment the switch follows while the input is inside the band.
#[derive(Debug, Clone, Copy, PartialEq, Eq, Structural)]
pub enum Direction {
    FromUpper,
    FromLower,
}

/// The affine map `y = m * x + n`, with `m` and `n` fixed-point.
#[derive(Debug, Clone, Copy, PartialEq, Eq, Structural)]
pub struct LinearFn {
    pub m: i32,
    pub n: i32,
}

impl LinearFn {
    /// The integer output for integer input `u`, rounded down and saturated.
    pub open spec fn value(self, u: int) -> i32 {
        saturate(scale_down(self.m * u + self.n))
    }

    /// Evaluates the segment at `u`.
    pub fn eval(&self, u: i32) -> (r: i32)
        ensures
            r == self.value(u as int),
    {
        proof {
            lemma_mul_within(self.m as int, u as int, 0x8000_0000, 0x8000_0000);
        }
        let y: i128 = (self.m as i128) * (u as i128) + self.n as i128;
        saturate_i32(shift_down(y))
    }
}

/// A two-branch switch: below `lower` it follows `lower_fn`, above `upper` it
/// follows `upper_fn`, and in between it keeps the branch it followed last.
///
/// No ordering of the thresholds is enforced: with `lower > upper` the rules
/// still apply in their order, the lower one first.
#[derive(Debug, Clone, Copy, PartialEq, Eq, Structural)]
pub struct Hysteresis {
    pub lower_fn: LinearFn,
    pub upper_fn: LinearFn,
    pub lower: i64,
    pub upper: i64,
    pub direction: Direction,
}

impl Hysteresis {
    /// Whether `u` lies strictly below the lower threshold.
    pub open spec fn is_below(self, u: int) -> bool {
        u * 1024 < self.lower
    }

    /// Whether `u` lies strictly above the upper threshold.
    pub open spec fn is_above(self, u: int) -> bool {
        u * 1024 > self.upper
    }

    /// The branch followed after input `u`.
    pub open spec fn direction_after(self, u: int) -> Direction {
        if self.is_below(u) {
            Direction::FromLower
        } else if self.is_above(u) {
            Direction::FromUpper
        } else {
            self.direction
        }
    }

    /// The output for input `u`: the segment of the branch followed after it.
    pub open spec fn response(self, u: int) -> i32 {
        match self.direction_after(u) {
            Direction::FromLower => self.lower_fn.value(u),
            Direction::FromUpper => self.upper_fn.value(u),
        }
    }

    /// Feeds one input sample.
    pub fn step(&mut self, u: i32) -> (r: i32)
        ensures
            *final(self) == (Hysteresis { direction: old(self).direction_after(u as int), ..*old(self) }),
            r == old(self).response(u as int),
    {
        let scaled: i64 = (u as i64) * 1024;
        if scaled < self.lower {
            self.direction = Direction::FromLower;
            return self.lower_fn.eval(u);
        }
        if scaled > self.upper {
            self.direction = Direction::FromUpper;
            return self.upper_fn.eval(u);
        }
        match self.direction {
            Direction::FromLower => self.lower_fn.eval(u),
            Direction::FromUpper => self.upper_fn.eval(u),
        }
    }
}

impl TransferFunction<i32> for Hysteresis {
    open spec fn transfer_state(&self, u: i32) -> Self {
        Hysteresis { direction: self.direction_after(u as int), ..*self }
    }

    open spec fn transfer_result(&self, u: i32) -> Result<i32, NotDefinedError> {
        Ok(self.response(u as int))
    }

    fn transfer(&mut self, u: i32) -> (r: Result<i32, NotDefinedError>) {
        Ok(self.step(u))
    }
}

impl TypeIdentifier for Hysteresis {
    open spec fn kind_name(&self) -> Seq<char> {
        "Hysteresis"@
    }

    fn short_type_name(&self) -> (r: &'static str) {
        "Hysteresis"
    }
}

impl View for Hysteresis {
    type V = Hysteresis;

    open spec fn view(&self) -> Hysteresis {
        *self
    }
}

impl TransferTimeDomain<i32> for Hysteresis {
    open spec fn inv(v: Hysteresis) -> bool {
        true
    }

    open spec fn next(v: Hysteresis, u: i32) -> Hysteresis {
        Hysteresis { direction: v.direction_after(u as int), ..v }
    }

    open spec fn output(v: Hysteresis, u: i32) -> i32 {
        v.response(u as int)
    }

    fn transfer_td(&mut self, u: i32) -> (r: i32) {
        self.step(u)
    }
}

/// Band memory: a switch on its lower branch stays there, and answers with
/// the lower segment, for every input sequence in which no input exceeds the
/// upper threshold, however close to it the inputs come.
pub proof fn lemma_band_memory(h: Hysteresis, inputs: Seq<i32>)
    requires
        h.direction == Direction::FromLower,
        forall|i: int| 0 <= i < inputs.len() ==> !h.is_above(#[trigger] inputs[i] as int),
    ensures
        outputs_of::<i32, Hysteresis>(h, inputs) == inputs.map_values(
            |u: i32| h.lower_fn.value(u as int),
        ),
        state_after::<i32, Hysteresis>(h, inputs) == h,
    decreases inputs.len(),
{
    if inputs.len() > 0 {
        let rest = inputs.drop_first();
        assert(Hysteresis::next(h, inputs[0]) == h);
        assert forall|i: int| 0 <= i < rest.len() implies !h.is_above(#[trigger] rest[i] as int) by {
            assert(rest[i] == inputs[i + 1]);
        }
        lemma_band_memory(h, rest);
        assert(outputs_of::<i32, Hysteresis>(h, inputs) =~= inputs.map_values(
            |u: i32| h.lower_fn.value(u as int),
        ));
    }
}

/// Largest magnitude of any value a well-formed builder holds.
pub const BUILDER_BOUND: i64 = 0x1000_0000_0000;

/// Collects the parameters of a [`Hysteresis`] and derives its thresholds.
///
/// Thresholds may be given directly, or derived from a spread around a
/// midpoint, a spread in output units, the crossing point of the two segments,
/// or a vertical offset between the segments.
#[derive(Debug, Clone, Copy)]
pub struct HysteresisBuilder {
    pub upper_fn: LinearFn,
    pub lower_fn: LinearFn,
    pub upper: Option<i64>,
    pub lower: Option<i64>,
    pub midpoint: i64,
    pub spread: i64,
    pub direction: Direction,
}

/// Whether `x` is within the builder's bound.
pub open spec fn in_bound(x: int) -> bool {
    -BUILDER_BOUND <= x <= BUILDER_BOUND
}

impl HysteresisBuilder {
    /// The values are small enough for every derivation to stay exact.
    pub open spec fn wf(self) -> bool {
        &&& in_bound(self.midpoint as int)
        &&& in_bound(self.spread as int)
        &&& (self.lower matches Some(x) ==> in_bound(x as int))
        &&& (self.upper matches Some(x) ==> in_bound(x as int))
    }

    /// Whether the two segments have different slopes, so that they cross.
    pub open spec fn slopes_differ(self) -> bool {
        self.lower_fn.m != self.upper_fn.m
    }

    /// The slope of the upper segment minus the slope of the lower one.
    pub open spec fn slope_gap(self) -> int {
        self.upper_fn.m - self.lower_fn.m
    }

    /// The input value at which the lower segment, shifted up by `delta_y`,
    /// meets the upper segment.
    pub open spec fn offset_point(self, delta_y: int) -> int {
        fx_div(self.lower_fn.n - self.upper_fn.n + delta_y, self.slope_gap())
    }

    /// The builder [`HysteresisBuilder::new`] returns.
    pub open spec fn spec_new(lower_fn: LinearFn, upper_fn: LinearFn) -> Self {
        HysteresisBuilder {
            upper_fn,
            lower_fn,
            upper: None,
            lower: None,
            midpoint: 0,
            spread: 0,
            direction: Direction::FromLower,
        }
    }

    /// The lower threshold that `build` derives.
    pub open spec fn built_lower(self) -> int {
        match self.lower {
            Some(x) => x as int,
            None => match self.upper {
                None => self.midpoint - self.spread / 2,
                Some(y) => y - self.spread,
            },
        }
    }

    /// The upper threshold that `build` derives.
    pub open spec fn built_upper(self) -> int {
        match self.upper {
            Some(x) => x as int,
            None => match self.lower {
                None => self.midpoint + self.spread / 2,
                Some(y) => y + self.spread,
            },
        }
    }

    /// The switch [`HysteresisBuilder::build`] returns.
    pub open spec fn spec_build(self) -> Hysteresis {
        Hysteresis {
            lower_fn: self.lower_fn,
            upper_fn: self.upper_fn,
            lower: self.built_lower() as i64,
            upper: self.built_upper() as i64,
            direction: self.direction,
        }
    }

    /// The builder with spread `s` in input units.
    pub open spec fn spec_spread_x(self, s: int) -> Self {
        HysteresisBuilder { spread: s as i64, ..self }
    }

    /// The builder with spread `s` in output units converted to input
    /// units; unchanged when the slopes are equal.
    pub open spec fn spec_spread_y(self, s: int) -> Self {
        if self.slopes_differ() {
            HysteresisBuilder { spread: fx_div(s, self.slope_gap()) as i64, ..self }
        } else {
            self
        }
    }

    /// The builder with its midpoint where the segments cross; unchanged
    /// when the slopes are equal.
    pub open spec fn spec_cross(self) -> Self {
        if self.slopes_differ() {
            HysteresisBuilder { midpoint: self.offset_point(0) as i64, ..self }
        } else {
            self
        }
    }

    /// The builder with its lower threshold at the offset point of
    /// `delta_y`; unchanged when the slopes are equal.
    pub open spec fn spec_lower_y(self, delta_y: int) -> Self {
        if self.slopes_differ() {
            HysteresisBuilder { lower: Some(self.offset_point(delta_y) as i64), ..self }
        } else {
            self
        }
    }

    /// The builder with its upper threshold at the offset point of
    /// `delta_y`; unchanged when the slopes are equal.
    pub open spec fn spec_upper_y(self, delta_y: int) -> Self {
        if self.slopes_differ() {
            HysteresisBuilder { upper: Some(self.offset_point(delta_y) as i64), ..self }
        } else {
            self
        }
    }

    /// A builder with no thresholds, zero midpoint and spread, on the lower
    /// branch.
    pub fn new(lower_fn: LinearFn, upper_fn: LinearFn) -> (r: Self)
        ensures
            r == Self::spec_new(lower_fn, upper_fn),
            r.wf(),
    {
        HysteresisBuilder {
            upper_fn,
            lower_fn,
            upper: None,
            lower: None,
            midpoint: 0,
            spread: 0,
            direction: Direction::FromLower,
        }
    }

    /// Derives the thresholds. An explicit threshold is taken as it is; a
    /// missing one lies `spread` away from the explicit one; with neither,
    /// both lie half the spread away from the midpoint.
    pub fn build(&self) -> (r: Hysteresis)
        requires
            self.wf(),
        ensures
            r == self.spec_build(),
            r.lower == self.built_lower(),
            r.upper == self.built_upper(),
    {
        let half: i64 = floor_div(self.spread as i128, 2) as i64;
        let lower: i64 = match self.lower {
            Some(x) => x,
            None => match self.upper {
                None => self.midpoint - half,
                Some(y) => y - self.spread,
            },
        };
        let upper: i64 = match self.upper {
            Some(x) => x,
            None => match self.lower {
                None => self.midpoint + half,
                Some(y) => y + self.spread,
            },
        };
        Hysteresis {
            lower_fn: self.lower_fn,
            upper_fn: self.upper_fn,
            upper,
            lower,
            direction: self.direction,
        }
    }

    /// Sets the spread in input units.
    pub fn spread_x(self, s: i32) -> (r: Self)
        requires
            self.wf(),
        ensures
            r == self.spec_spread_x(s as int),
            r.wf(),
    {
        HysteresisBuilder { spread: s as i64, ..self }
    }

    /// Sets the spread in output units, converted to input units by the
    /// difference of the slopes; with equal slopes nothing changes.
    pub fn spread_y(self, s: i32) -> (r: Self)
        requires
            self.wf(),
        ensures
            r == self.spec_spread_y(s as int),
            r.wf(),
    {
        if self.lower_fn.m != self.upper_fn.m {
            let gap: i64 = self.upper_fn.m as i64 - self.lower_fn.m as i64;
            let spread: i128 = div_fx(s as i64, gap);
            HysteresisBuilder { spread: spread as i64, ..self }
        } else {
            self
        }
    }

    /// Puts the midpoint where the two segments cross; with equal slopes
    /// nothing changes.
    pub fn cross(self) -> (r: Self)
        requires
            self.wf(),
        ensures
            r == self.spec_cross(),
            r.wf(),
    {
        if self.lower_fn.m != self.upper_fn.m {
            let gap: i64 = self.upper_fn.m as i64 - self.lower_fn.m as i64;
            let mid: i128 = div_fx(self.lower_fn.n as i64 - self.upper_fn.n as i64, gap);
            HysteresisBuilder { midpoint: mid as i64, ..self }
        } else {
            self
        }
    }

    /// Sets the lower threshold.
    pub fn lower_x(self, s: i32) -> (r: Self)
        requires
            self.wf(),
        ensures
            r == (HysteresisBuilder { lower: Some(s as i64), ..self }),
            r.wf(),
    {
        HysteresisBuilder { lower: Some(s as i64), ..self }
    }

    /// Sets the upper threshold.
    pub fn upper_x(self, s: i32) -> (r: Self)
        requires
            self.wf(),
        ensures
            r == (HysteresisBuilder { upper: Some(s as i64), ..self }),
            r.wf(),
    {
        HysteresisBuilder { upper: Some(s as i64), ..self }
    }

    /// Sets the lower threshold where the lower segment, shifted up by
    /// `delta_y`, meets the upper one; with equal slopes nothing changes.
    pub fn lower_y(self, delta_y: i32) -> (r: Self)
        requires
            self.wf(),
        ensures
            r == self.spec_lower_y(delta_y as int),
            r.wf(),
    {
        if self.lower_fn.m != self.upper_fn.m {
            let gap: i64 = self.upper_fn.m as i64 - self.lower_fn.m as i64;
            let x: i128 = div_fx(
                self.lower_fn.n as i64 - self.upper_fn.n as i64 + delta_y as i64,
                gap,
            );
            HysteresisBuilder { lower: Some(x as i64), ..self }
        } else {
            self
        }
    }

    /// Sets the upper threshold where the lower segment, shifted up by
    /// `delta_y`, meets the upper one; with equal slopes nothing changes.
    pub fn upper_y(self, delta_y: i32) -> (r: Self)
        requires
            self.wf(),
        ensures
            r == self.spec_upper_y(delta_y as int),
            r.wf(),
    {
        if self.lower_fn.m != self.upper_fn.m {
            let gap: i64 = self.upper_fn.m as i64 - self.lower_fn.m as i64;
            let x: i128 = div_fx(
                self.lower_fn.n as i64 - self.upper_fn.n as i64 + delta_y as i64,
                gap,
            );
            HysteresisBuilder { upper: Some(x as i64), ..self }
        } else {
            self
        }
    }

    /// Starts the switch on the upper branch.
    pub fn upper_direction(self) -> (r: Self)
        requires
            self.wf(),
        ensures
            r == (HysteresisBuilder { direction: Direction::FromUpper, ..self }),
            r.wf(),
    {
        HysteresisBuilder { direction: Direction::FromUpper, ..self }
    }
}

/// A spread given in input units puts the thresholds half of it below and
/// above the midpoint, which is zero unless set otherwise.
pub proof fn lemma_spread_x_thresholds(lower_fn: LinearFn, upper_fn: LinearFn, s: i32)
    ensures
        HysteresisBuilder::spec_new(lower_fn, upper_fn).spec_spread_x(s as int).spec_build().lower
            == -((s as int) / 2),
        HysteresisBuilder::spec_new(lower_fn, upper_fn).spec_spread_x(s as int).spec_build().upper
            == (s as int) / 2,
{
}

/// With different slopes, a spread in output units is the spread in input
/// units that it becomes when divided by the difference of the slopes.
pub proof fn lemma_spread_y_is_spread_x(b: HysteresisBuilder, s: i32)
    requires
        b.wf(),
        b.slopes_differ(),
    ensures
        b.spec_spread_y(s as int) == b.spec_spread_x(fx_div(s as int, b.slope_gap())),
{
}

} // verus!
