//! A first-order lag with gain, configured once at construction and
//! discretised implicitly: `out[k] = out[k-1] + alpha * (kp * in[k] - out[k-1])`
//! with `alpha = sample_time / (t1_time + sample_time)`, which stays stable
//! for every time constant.
//!
//! Times are counts of one caller-chosen unit; gain, `alpha` and the state
//! are fixed-point, and the product of `alpha` with a fixed-point difference
//! is shifted down once.
use vstd::prelude::*;

use crate::fixed::{
    floor_div, fx_mul, lemma_fraction_between, lemma_mul_within, saturate, saturate_i32,
    scale_down, shift_down,
};
use crate::plant::{ConfigError, PRODUCT_BOUND};

verus! {

/// The largest gain [`PT1::new`] accepts, exclusive.
pub const MAX_GAIN: i32 = 1000;

/// The model of a [`PT1`].
pub struct LagView {
    /// The smoothing factor, fixed-point.
    pub alpha: i64,
    /// The gain, fixed-point.
    pub kp: i64,
    /// The last output, fixed-point.
    pub previous_output: i128,
}

impl LagView {
    /// Whether the model describes a consistent element.
    pub open spec fn inv(self) -> bool {
        &&& 0 <= self.alpha <= 1024
        &&& 1024 <= self.kp <= MAX_GAIN * 1024
        &&& -PRODUCT_BOUND <= self.previous_output <= PRODUCT_BOUND
    }

    /// The new state after input `u`.
    pub open spec fn advanced(self, u: int) -> int {
        self.previous_output + fx_mul(self.alpha as int, u * self.kp - self.previous_output)
    }
}

/// A first-order lag with gain.
#[derive(Debug, Clone, Copy)]
pub struct PT1 {
    alpha: i64,
    kp: i64,
    previous_output: i128,
}

impl View for PT1 {
    type V = LagView;

    closed spec fn view(&self) -> LagView {
        LagView { alpha: self.alpha, kp: self.kp, previous_output: self.previous_output }
    }
}

impl PartialEq for PT1 {
    /// Equal parameters and equal state.
    fn eq(&self, other: &PT1) -> (r: bool) {
        self.alpha == other.alpha && self.kp == other.kp && self.previous_output
            == other.previous_output
    }
}

impl vstd::std_specs::cmp::PartialEqSpecImpl for PT1 {
    open spec fn obeys_eq_spec() -> bool {
        true
    }

    open spec fn eq_spec(&self, other: &PT1) -> bool {
        self@ == other@
    }
}

impl PT1 {
    /// A lag at rest. Fails with `InvalidSampleTime` for a zero sample
    /// time, with `InvalidTimeConstant` for a time constant below the sample
    /// time, and with `InvalidGain` for a gain that is not positive or not
    /// below `MAX_GAIN`.
    pub fn new(sample_time: u32, t1_time: u32, kp: i32) -> (r: Result<Self, ConfigError>)
        ensures
            sample_time == 0 ==> r == Err::<Self, ConfigError>(ConfigError::InvalidSampleTime),
            sample_time > 0 && t1_time < sample_time ==> r == Err::<Self, ConfigError>(
                ConfigError::InvalidTimeConstant,
            ),
            sample_time > 0 && t1_time >= sample_time && !(0 < kp < MAX_GAIN) ==> r == Err::<
                Self,
                ConfigError,
            >(ConfigError::InvalidGain),
            r is Ok <==> sample_time > 0 && t1_time >= sample_time && 0 < kp < MAX_GAIN,
            r matches Ok(p) ==> p@.inv() && p@ == (LagView {
                alpha: ((sample_time * 1024) / (t1_time + sample_time)) as i64,
                kp: (kp * 1024) as i64,
                previous_output: 0,
            }),
    {
        if sample_time == 0 {
            return Err(ConfigError::InvalidSampleTime);
        }
        if t1_time < sample_time {
            return Err(ConfigError::InvalidTimeConstant);
        }
        if kp <= 0 || kp >= MAX_GAIN {
            return Err(ConfigError::InvalidGain);
        }
        let total: u64 = t1_time as u64 + sample_time as u64;
        let alpha: u64 = (sample_time as u64 * 1024) / total;
        proof {
            vstd::arithmetic::div_mod::lemma_div_is_ordered(
                sample_time as int * 1024,
                total as int * 1024,
                total as int,
            );
            vstd::arithmetic::div_mod::lemma_div_multiples_vanish(1024, total as int);
            assert(total as int * 1024 == 1024 * total as int) by (nonlinear_arith);
        }
        Ok(PT1 { alpha: alpha as i64, kp: kp as i64 * 1024, previous_output: 0 })
    }

    /// The smoothing factor, fixed-point.
    pub fn alpha(&self) -> (r: i64)
        ensures
            r == self@.alpha,
    {
        self.alpha
    }

    /// The gain, fixed-point.
    pub fn kp(&self) -> (r: i64)
        ensures
            r == self@.kp,
    {
        self.kp
    }

    /// Feeds one input sample and returns the output, rounded down and
    /// saturated.
    pub fn transfer(&mut self, input: i32) -> (r: i32)
        requires
            old(self)@.inv(),
        ensures
            final(self)@.inv(),
            final(self)@ == (LagView {
                previous_output: old(self)@.advanced(input as int) as i128,
                ..old(self)@
            }),
            r == saturate(scale_down(old(self)@.advanced(input as int))),
    {
        proof {
            lemma_mul_within(input as int, self.kp as int, 0x8000_0000, MAX_GAIN as int * 1024);
        }
        let diff: i128 = (input as i128) * (self.kp as i128) - self.previous_output;
        proof {
            lemma_mul_within(self.alpha as int, diff as int, 1024, 2 * PRODUCT_BOUND as int);
            lemma_fraction_between(self.alpha as int, diff as int);
        }
        let out: i128 = self.previous_output + floor_div(self.alpha as i128 * diff, 1024);
        self.previous_output = out;
        saturate_i32(shift_down(out))
    }
}

} // verus!
