//! The PT1 element, a first-order lag with gain, integrated by forward Euler:
//! `out[k] = out[k-1] + alpha * (kp * in[k] - out[k-1])` with
//! `alpha = sample_time / t1_time`.
//!
//! Times are counts of one caller-chosen unit. The gain, `alpha` and the
//! state are fixed-point; the product of `alpha` and a fixed-point difference
//! is shifted down once, so the state keeps exactly one scale factor.
use vstd::prelude::*;

use crate::fixed::{
    floor_div, fx_mul, lemma_fraction_between, lemma_mul_within, saturate, saturate_i32,
    scale_down, shift_down,
};
use crate::plant::{ConfigError, TransferTimeDomain, TypeIdentifier, KP_BOUND, PRODUCT_BOUND};

verus! {

/// The model of a [`PT1`].
pub struct PT1View {
    pub t1_time: u32,
    pub sample_time: u32,
    /// The gain, fixed-point.
    pub kp: i64,
    /// The last output, fixed-point.
    pub previous_output: i128,
}

impl PT1View {
    /// The smoothing factor, fixed-point: `sample_time / t1_time`, or one for
    /// a zero time constant, which makes the element a pure gain.
    pub open spec fn alpha(self) -> int {
        if self.t1_time == 0 {
            1024
        } else {
            (self.sample_time as int * 1024) / self.t1_time as int
        }
    }

    /// Where the input `u` drives the output, fixed-point.
    pub open spec fn target(self, u: int) -> int {
        u * self.kp
    }

    /// The new state after input `u`.
    pub open spec fn advanced(self, u: int) -> int {
        self.previous_output + fx_mul(self.alpha(), self.target(u) - self.previous_output)
    }
}

/// A first-order lag with gain.
#[derive(Debug, Clone, Copy)]
pub struct PT1 {
    t1_time: u32,
    sample_time: u32,
    kp: i64,
    previous_output: i128,
}

impl View for PT1 {
    type V = PT1View;

    closed spec fn view(&self) -> PT1View {
        PT1View {
            t1_time: self.t1_time,
            sample_time: self.sample_time,
            kp: self.kp,
            previous_output: self.previous_output,
        }
    }
}

impl PT1 {
    /// The time constant.
    pub fn t1_time(&self) -> (r: u32)
        ensures
            r == self@.t1_time,
    {
        self.t1_time
    }

    /// The sample time.
    pub fn sample_time(&self) -> (r: u32)
        ensures
            r == self@.sample_time,
    {
        self.sample_time
    }

    /// The gain, fixed-point.
    pub fn kp(&self) -> (r: i64)
        ensures
            r == self@.kp,
    {
        self.kp
    }

    /// The smoothing factor, fixed-point.
    fn alpha(&self) -> (r: i128)
        requires
            Self::inv(self@),
        ensures
            r == self@.alpha(),
            0 <= r <= 1024,
    {
        if self.t1_time == 0 {
            1024
        } else {
            let a: u64 = (self.sample_time as u64 * 1024) / self.t1_time as u64;
            proof {
                let ts = self.sample_time as int;
                let t1 = self.t1_time as int;
                assert(1024 <= ts * 1024 <= t1 * 1024) by (nonlinear_arith)
                    requires
                        1 <= ts <= t1,
                ;
                vstd::arithmetic::div_mod::lemma_div_is_ordered(ts * 1024, t1 * 1024, t1);
                vstd::arithmetic::div_mod::lemma_div_multiples_vanish(1024, t1);
                vstd::arithmetic::div_mod::lemma_div_pos_is_pos(ts * 1024, t1);
            }
            a as i128
        }
    }

    /// Sets the sample time; the state is kept. Fails if it is zero, or if
    /// the time constant is neither zero nor at least the sample time.
    pub fn set_sample_time(self, sample_time: u32) -> (r: Result<Self, ConfigError>)
        requires
            Self::inv(self@),
        ensures
            sample_time == 0 ==> r == Err::<Self, ConfigError>(ConfigError::InvalidSampleTime),
            sample_time > 0 && self@.t1_time != 0 && self@.t1_time < sample_time ==> r == Err::<
                Self,
                ConfigError,
            >(ConfigError::InvalidTimeConstant),
            r is Ok <==> sample_time > 0 && (self@.t1_time == 0 || self@.t1_time >= sample_time),
            r matches Ok(p) ==> Self::inv(p@) && p@ == (PT1View { sample_time, ..self@ }),
    {
        if sample_time == 0 {
            Err(ConfigError::InvalidSampleTime)
        } else if self.t1_time != 0 && self.t1_time < sample_time {
            Err(ConfigError::InvalidTimeConstant)
        } else {
            Ok(PT1 { sample_time, ..self })
        }
    }

    /// Sets the time constant; the state is kept. Fails unless it is zero
    /// or at least the sample time.
    pub fn set_t1_time(self, t1_time: u32) -> (r: Result<Self, ConfigError>)
        requires
            Self::inv(self@),
        ensures
            r is Ok <==> t1_time == 0 || t1_time >= self@.sample_time,
            r matches Ok(p) ==> Self::inv(p@) && p@ == (PT1View { t1_time, ..self@ }),
            r matches Err(e) ==> e == ConfigError::InvalidTimeConstant,
    {
        if t1_time == 0 || t1_time >= self.sample_time {
            Ok(PT1 { t1_time, ..self })
        } else {
            Err(ConfigError::InvalidTimeConstant)
        }
    }

    /// Sets the gain, stored fixed-point; the state is kept. Fails unless it
    /// is positive.
    pub fn set_kp(self, kp: i32) -> (r: Result<Self, ConfigError>)
        requires
            Self::inv(self@),
        ensures
            r is Ok <==> kp > 0,
            r matches Ok(p) ==> Self::inv(p@) && p@ == (PT1View { kp: (kp * 1024) as i64, ..self@ }),
            r matches Err(e) ==> e == ConfigError::InvalidGain,
    {
        if kp > 0 {
            Ok(PT1 { kp: kp as i64 * 1024, ..self })
        } else {
            Err(ConfigError::InvalidGain)
        }
    }
}

impl PartialEq for PT1 {
    /// Equal parameters and equal state.
    fn eq(&self, other: &PT1) -> (r: bool) {
        self.t1_time == other.t1_time && self.sample_time == other.sample_time && self.kp == other.kp
            && self.previous_output == other.previous_output
    }
}

impl vstd::std_specs::cmp::PartialEqSpecImpl for PT1 {
    open spec fn obeys_eq_spec() -> bool {
        true
    }

    open spec fn eq_spec(&self, other: &PT1) -> bool {
        self@ == other@
    }
}

impl Default for PT1 {
    /// Gain one, sample time and time constant one, at rest.
    fn default() -> (r: Self)
        ensures
            Self::inv(r@),
            r@ == (PT1View { t1_time: 1, sample_time: 1, kp: 1024, previous_output: 0 }),
    {
        PT1 { t1_time: 1, sample_time: 1, kp: 1024, previous_output: 0 }
    }
}

impl TypeIdentifier for PT1 {
    open spec fn kind_name(&self) -> Seq<char> {
        "PT1"@
    }

    fn short_type_name(&self) -> (r: &'static str) {
        "PT1"
    }
}

impl TransferTimeDomain<i32> for PT1 {
    open spec fn inv(v: PT1View) -> bool {
        &&& v.sample_time > 0
        &&& (v.t1_time == 0 || v.t1_time >= v.sample_time)
        &&& 1024 <= v.kp <= KP_BOUND
        &&& -PRODUCT_BOUND <= v.previous_output <= PRODUCT_BOUND
    }

    open spec fn next(v: PT1View, u: i32) -> PT1View {
        PT1View { previous_output: v.advanced(u as int) as i128, ..v }
    }

    open spec fn output(v: PT1View, u: i32) -> i32 {
        saturate(scale_down(v.advanced(u as int)))
    }

    fn transfer_td(&mut self, u: i32) -> (r: i32) {
        let alpha: i128 = self.alpha();
        proof {
            lemma_mul_within(u as int, self.kp as int, 0x8000_0000, KP_BOUND as int);
        }
        let target: i128 = (u as i128) * (self.kp as i128);
        let diff: i128 = target - self.previous_output;
        proof {
            lemma_mul_within(alpha as int, diff as int, 1024, 2 * PRODUCT_BOUND as int);
            lemma_fraction_between(alpha as int, diff as int);
        }
        let out: i128 = self.previous_output + floor_div(alpha * diff, 1024);
        self.previous_output = out;
        saturate_i32(shift_down(out))
    }
}

/// With the time constant equal to the sample time and gain one, the element
/// passes every input through unchanged, whatever its state.
pub proof fn lemma_unit_lag_is_identity(v: PT1View, u: i32)
    requires
        PT1::inv(v),
        v.t1_time == v.sample_time,
        v.kp == 1024,
    ensures
        PT1::output(v, u) == u,
        PT1::next(v, u).previous_output == u * 1024,
{
    let ts = v.sample_time as int;
    vstd::arithmetic::div_mod::lemma_div_multiples_vanish(1024, ts);
    assert(ts * 1024 == 1024 * ts) by (nonlinear_arith);
    let d = v.target(u as int) - v.previous_output;
    vstd::arithmetic::div_mod::lemma_div_multiples_vanish(d, 1024);
    assert(1024 * d == d * 1024) by (nonlinear_arith);
    vstd::arithmetic::div_mod::lemma_div_multiples_vanish(u as int, 1024);
    assert(u * 1024 == 1024 * u) by (nonlinear_arith);
}

} // verus!
