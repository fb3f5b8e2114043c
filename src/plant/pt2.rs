//! The PT2 element, a damped second-order lag with gain, integrated by
//! forward Euler on the output `x` and its derivative `v`:
//!
//! `v[k] = v[k-1] + h * (-2 * D * w * v[k-1] - w^2 * x[k-1] + kp * w^2 * u[k])`
//! `x[k] = x[k-1] + h * w * v[k-1]`
//!
//! with sample time `h`, natural frequency `w` and damping `D`. `D < 1`
//! oscillates, `D == 1` is critically damped, `D > 1` is overdamped.
//!
//! The sample time is a count of one caller-chosen unit and `w` is per that
//! unit. Gain, frequency, damping and both states are fixed-point. Explicit
//! Euler is stable only for `h` small against `1 / w`; the element does not
//! check this, and saturates its states at `STATE_LIMIT` instead of
//! overflowing.
use vstd::prelude::*;

use crate::fixed::{
    isqrt, clamp, clamp_i128, floor_div, fx_mul, lemma_mul_within, saturate, saturate_i32, scale_down,
    shift_down,
};
use crate::plant::{ConfigError, TransferTimeDomain, TypeIdentifier, KP_BOUND};

verus! {

/// Largest magnitude of either state of a [`PT2`].
pub const STATE_LIMIT: i128 = 0x1_0000_0000_0000_0000_00;

/// Largest magnitude of the derivative's rate of change that a step can use
/// before it saturates the derivative anyway.
pub const RATE_LIMIT: i128 = 0x400_0000_0000_0000_0000_0000;

/// The model of a [`PT2`].
pub struct PT2View {
    /// Natural frequency, fixed-point.
    pub omega: i32,
    /// Damping, fixed-point.
    pub damping: i32,
    pub sample_time: u32,
    /// The gain, fixed-point.
    pub kp: i64,
    /// The output state, fixed-point.
    pub previous_output: i128,
    /// The derivative state, fixed-point.
    pub previous_diff_output: i128,
}

impl PT2View {
    /// `w^2`, fixed-point.
    pub open spec fn omega_squared(self) -> int {
        fx_mul(self.omega as int, self.omega as int)
    }

    /// `2 * D * w`, fixed-point.
    pub open spec fn decay(self) -> int {
        fx_mul(2 * self.damping, self.omega as int)
    }

    /// The derivative's rate of change for input `u`, fixed-point.
    pub open spec fn rate(self, u: int) -> int {
        -fx_mul(self.decay(), self.previous_diff_output as int) - fx_mul(
            self.omega_squared(),
            self.previous_output as int,
        ) + fx_mul(self.omega_squared(), u * self.kp)
    }

    /// The derivative after input `u`.
    pub open spec fn next_diff_output(self, u: int) -> int {
        clamp(
            self.previous_diff_output + self.sample_time * self.rate(u),
            STATE_LIMIT as int,
        )
    }

    /// The output state after a step.
    pub open spec fn next_output(self) -> int {
        clamp(
            self.previous_output + self.sample_time * fx_mul(
                self.omega as int,
                self.previous_diff_output as int,
            ),
            STATE_LIMIT as int,
        )
    }
}

/// A damped second-order lag with gain.
#[derive(Debug, Clone, Copy)]
pub struct PT2 {
    omega: i32,
    damping: i32,
    sample_time: u32,
    kp: i64,
    previous_output: i128,
    previous_diff_output: i128,
}

impl View for PT2 {
    type V = PT2View;

    closed spec fn view(&self) -> PT2View {
        PT2View {
            omega: self.omega,
            damping: self.damping,
            sample_time: self.sample_time,
            kp: self.kp,
            previous_output: self.previous_output,
            previous_diff_output: self.previous_diff_output,
        }
    }
}

/// Clamping the rate at `RATE_LIMIT` before multiplying by the sample time
/// does not change the saturated result.
proof fn lemma_rate_clamp(x: int, h: int, a: int)
    requires
        -STATE_LIMIT <= x <= STATE_LIMIT,
        h >= 1,
    ensures
        clamp(x + h * clamp(a, RATE_LIMIT as int), STATE_LIMIT as int) == clamp(
            x + h * a,
            STATE_LIMIT as int,
        ),
{
    let l = RATE_LIMIT as int;
    if a > l {
        assert(h * a >= a) by (nonlinear_arith)
            requires
                h >= 1,
                a > 0,
        ;
        assert(h * l >= l) by (nonlinear_arith)
            requires
                h >= 1,
                l > 0,
        ;
    } else if a < -l {
        assert(h * a <= a) by (nonlinear_arith)
            requires
                h >= 1,
                a < 0,
        ;
        assert(h * -l <= -l) by (nonlinear_arith)
            requires
                h >= 1,
                l > 0,
        ;
    }
}

impl PT2 {
    /// Natural frequency, fixed-point.
    pub fn omega(&self) -> (r: i32)
        ensures
            r == self@.omega,
    {
        self.omega
    }

    /// Damping, fixed-point.
    pub fn damping(&self) -> (r: i32)
        ensures
            r == self@.damping,
    {
        self.damping
    }

    /// The sample time.
    pub fn sample_time(&self) -> (r: u32)
        ensures
            r == self@.sample_time,
    {
        self.sample_time
    }

    /// The gain, fixed-point.
    pub fn kp(&self) -> (r: i64)
        ensures
            r == self@.kp,
    {
        self.kp
    }

    /// Sets the sample time; the state is kept. Fails if it is zero.
    pub fn set_sample_time(self, sample_time: u32) -> (r: Result<Self, ConfigError>)
        requires
            Self::inv(self@),
        ensures
            r is Ok <==> sample_time > 0,
            r matches Ok(p) ==> Self::inv(p@) && p@ == (PT2View { sample_time, ..self@ }),
            r matches Err(e) ==> e == ConfigError::InvalidSampleTime,
    {
        if sample_time > 0 {
            Ok(PT2 { sample_time, ..self })
        } else {
            Err(ConfigError::InvalidSampleTime)
        }
    }

    /// Sets the sample time, or the default of one where
    /// [`PT2::set_sample_time`] fails.
    pub fn set_sample_time_or_default(self, sample_time: u32) -> (r: Self)
        requires
            Self::inv(self@),
        ensures
            Self::inv(r@),
            r@ == (PT2View { sample_time: if sample_time > 0 { sample_time } else { 1 }, ..self@ }),
    {
        match self.set_sample_time(sample_time) {
            Ok(p) => p,
            Err(_) => PT2 { sample_time: 1, ..self },
        }
    }

    /// Sets the natural frequency, fixed-point; the state is kept. Fails
    /// unless it is positive. Whether forward Euler stays stable at this
    /// frequency and sample time is left to the caller.
    pub fn set_omega(self, omega: i32) -> (r: Result<Self, ConfigError>)
        requires
            Self::inv(self@),
        ensures
            r is Ok <==> omega > 0,
            r matches Ok(p) ==> Self::inv(p@) && p@ == (PT2View { omega, ..self@ }),
            r matches Err(e) ==> e == ConfigError::InvalidFrequency,
    {
        if omega > 0 {
            Ok(PT2 { omega, ..self })
        } else {
            Err(ConfigError::InvalidFrequency)
        }
    }

    /// Sets the natural frequency, or the default of one where
    /// [`PT2::set_omega`] fails.
    pub fn set_omega_or_default(self, omega: i32) -> (r: Self)
        requires
            Self::inv(self@),
        ensures
            Self::inv(r@),
            r@ == (PT2View { omega: if omega > 0 { omega } else { 1024 }, ..self@ }),
    {
        match self.set_omega(omega) {
            Ok(p) => p,
            Err(_) => PT2 { omega: 1024, ..self },
        }
    }

    /// Sets the damping, fixed-point; the state is kept. Fails if it is
    /// negative.
    pub fn set_damping(self, damping: i32) -> (r: Result<Self, ConfigError>)
        requires
            Self::inv(self@),
        ensures
            r is Ok <==> damping >= 0,
            r matches Ok(p) ==> Self::inv(p@) && p@ == (PT2View { damping, ..self@ }),
            r matches Err(e) ==> e == ConfigError::NegativeDamping,
    {
        if damping >= 0 {
            Ok(PT2 { damping, ..self })
        } else {
            Err(ConfigError::NegativeDamping)
        }
    }

    /// Sets the damping, or the critical default of one where
    /// [`PT2::set_damping`] fails.
    pub fn set_damping_or_default(self, damping: i32) -> (r: Self)
        requires
            Self::inv(self@),
        ensures
            Self::inv(r@),
            r@ == (PT2View { damping: if damping >= 0 { damping } else { 1024 }, ..self@ }),
    {
        match self.set_damping(damping) {
            Ok(p) => p,
            Err(_) => PT2 { damping: 1024, ..self },
        }
    }

    /// Whether `t1_time` is a time constant [`PT2::set_t1_time`] accepts:
    /// at least the sample time, and short enough that `1 / t1_time` does
    /// not round to zero.
    pub open spec fn accepts_t1(v: PT2View, t1_time: u32) -> bool {
        t1_time >= v.sample_time && 1024int / (t1_time as int) >= 1
    }

    /// Sets the natural frequency to `1 / t1_time`, rounded down; the state
    /// is kept. Fails unless [`PT2::accepts_t1`] holds.
    pub fn set_t1_time(self, t1_time: u32) -> (r: Result<Self, ConfigError>)
        requires
            Self::inv(self@),
        ensures
            r is Ok <==> Self::accepts_t1(self@, t1_time),
            r matches Ok(p) ==> Self::inv(p@) && p@ == (PT2View {
                omega: (1024int / (t1_time as int)) as i32,
                ..self@
            }),
            r matches Err(e) ==> e == ConfigError::InvalidTimeConstant,
    {
        if t1_time >= self.sample_time && 1024 / t1_time >= 1 {
            Ok(PT2 { omega: (1024 / t1_time) as i32, ..self })
        } else {
            Err(ConfigError::InvalidTimeConstant)
        }
    }

    /// Sets the natural frequency from a time constant, or to the default
    /// of one where [`PT2::set_t1_time`] fails.
    pub fn set_t1_time_or_default(self, t1_time: u32) -> (r: Self)
        requires
            Self::inv(self@),
        ensures
            Self::inv(r@),
            Self::accepts_t1(self@, t1_time) ==> r@ == (PT2View {
                omega: (1024int / (t1_time as int)) as i32,
                ..self@
            }),
            !Self::accepts_t1(self@, t1_time) ==> r@ == (PT2View { omega: 1024, ..self@ }),
    {
        match self.set_t1_time(t1_time) {
            Ok(p) => p,
            Err(_) => PT2 { omega: 1024, ..self },
        }
    }

    /// Whether `t2_time` is a second time constant [`PT2::set_t2_time`]
    /// accepts: at least the sample time, and short enough that the new
    /// frequency does not round to zero.
    pub open spec fn accepts_t2(v: PT2View, t2_time: u32) -> bool {
        t2_time >= v.sample_time && (v.omega * 1024) / (t2_time as int) >= 1
    }

    /// Adds a second time constant to the one the natural frequency stands
    /// for (`t1 = 1 / omega`): the frequency becomes `1 / sqrt(t1 * t2)`,
    /// the square root rounded down, and the damping
    /// `(t1 + t2) / (2 * t1 * t2) = (omega + 1 / t2) / 2`, rounded down; the
    /// state is kept. Fails unless [`PT2::accepts_t2`] holds.
    pub fn set_t2_time(self, t2_time: u32) -> (r: Result<Self, ConfigError>)
        requires
            Self::inv(self@),
        ensures
            r is Ok <==> Self::accepts_t2(self@, t2_time),
            r matches Ok(p) ==> {
                &&& Self::inv(p@)
                &&& p@.omega * p@.omega <= (self@.omega * 1024) / (t2_time as int)
                &&& (self@.omega * 1024) / (t2_time as int) < (p@.omega + 1) * (p@.omega + 1)
                &&& p@.damping == (self@.omega + 1024int / (t2_time as int)) / 2
                &&& p@ == (PT2View { omega: p@.omega, damping: p@.damping, ..self@ })
            },
            r matches Err(e) ==> e == ConfigError::InvalidTimeConstant,
    {
        if t2_time >= self.sample_time && (self.omega as u64 * 1024) / t2_time as u64 >= 1 {
            let squared: u64 = (self.omega as u64 * 1024) / t2_time as u64;
            let root: u64 = isqrt(squared);
            proof {
                assert(squared < 0x8000_0000 * 1024);
                assert(root < 0x8000_0000) by (nonlinear_arith)
                    requires
                        root * root <= squared,
                        squared < 0x8000_0000 * 1024,
                ;
                assert(root >= 1) by (nonlinear_arith)
                    requires
                        squared >= 1,
                        squared < (root + 1) * (root + 1),
                ;
            }
            let damping: i32 = ((self.omega as i64 + 1024 / t2_time as i64) / 2) as i32;
            Ok(PT2 { omega: root as i32, damping, ..self })
        } else {
            Err(ConfigError::InvalidTimeConstant)
        }
    }

    /// Adds a second time constant as [`PT2::set_t2_time`] does; where that
    /// fails, only the damping changes, to the critical value of one.
    pub fn set_t2_time_or_default(self, t2_time: u32) -> (r: Self)
        requires
            Self::inv(self@),
        ensures
            Self::inv(r@),
            Self::accepts_t2(self@, t2_time) ==> {
                &&& r@.omega * r@.omega <= (self@.omega * 1024) / (t2_time as int)
                &&& (self@.omega * 1024) / (t2_time as int) < (r@.omega + 1) * (r@.omega + 1)
                &&& r@.damping == (self@.omega + 1024int / (t2_time as int)) / 2
                &&& r@ == (PT2View { omega: r@.omega, damping: r@.damping, ..self@ })
            },
            !Self::accepts_t2(self@, t2_time) ==> r@ == (PT2View { damping: 1024, ..self@ }),
    {
        match self.set_t2_time(t2_time) {
            Ok(p) => p,
            Err(_) => PT2 { damping: 1024, ..self },
        }
    }

    /// Sets the gain; it is stored fixed-point.
    pub fn set_kp(self, kp: i32) -> (r: Self)
        requires
            Self::inv(self@),
        ensures
            Self::inv(r@),
            r@ == (PT2View { kp: (kp * 1024) as i64, ..self@ }),
    {
        PT2 { kp: kp as i64 * 1024, ..self }
    }
}

impl PartialEq for PT2 {
    /// Equal parameters and equal state.
    fn eq(&self, other: &PT2) -> (r: bool) {
        self.omega == other.omega && self.damping == other.damping && self.sample_time
            == other.sample_time && self.kp == other.kp && self.previous_output
            == other.previous_output && self.previous_diff_output == other.previous_diff_output
    }
}

impl vstd::std_specs::cmp::PartialEqSpecImpl for PT2 {
    open spec fn obeys_eq_spec() -> bool {
        true
    }

    open spec fn eq_spec(&self, other: &PT2) -> bool {
        self@ == other@
    }
}

impl Default for PT2 {
    /// Natural frequency one, no damping, sample time one, gain one, at rest.
    fn default() -> (r: Self)
        ensures
            Self::inv(r@),
            r@ == (PT2View {
                omega: 1024,
                damping: 0,
                sample_time: 1,
                kp: 1024,
                previous_output: 0,
                previous_diff_output: 0,
            }),
    {
        PT2 {
            omega: 1024,
            damping: 0,
            sample_time: 1,
            kp: 1024,
            previous_output: 0,
            previous_diff_output: 0,
        }
    }
}

impl TypeIdentifier for PT2 {
    open spec fn kind_name(&self) -> Seq<char> {
        "PT2"@
    }

    fn short_type_name(&self) -> (r: &'static str) {
        "PT2"
    }
}

impl TransferTimeDomain<i32> for PT2 {
    open spec fn inv(v: PT2View) -> bool {
        &&& v.sample_time > 0
        &&& v.omega > 0
        &&& v.damping >= 0
        &&& -KP_BOUND <= v.kp <= KP_BOUND
        &&& -STATE_LIMIT <= v.previous_output <= STATE_LIMIT
        &&& -STATE_LIMIT <= v.previous_diff_output <= STATE_LIMIT
    }

    open spec fn next(v: PT2View, u: i32) -> PT2View {
        PT2View {
            previous_output: v.next_output() as i128,
            previous_diff_output: v.next_diff_output(u as int) as i128,
            ..v
        }
    }

    open spec fn output(v: PT2View, u: i32) -> i32 {
        saturate(scale_down(v.next_output()))
    }

    fn transfer_td(&mut self, u: i32) -> (r: i32) {
        let ghost v = self@;
        let w: i128 = self.omega as i128;
        let h: i128 = self.sample_time as i128;
        let x: i128 = self.previous_output;
        let d: i128 = self.previous_diff_output;
        proof {
            lemma_mul_within(w as int, w as int, 0x8000_0000, 0x8000_0000);
            lemma_mul_within(2 * self.damping, w as int, 0x1_0000_0000, 0x8000_0000);
        }
        assert(w * w >= 0) by (nonlinear_arith);
        let omega_squared: i128 = floor_div(w * w, 1024);
        let decay: i128 = floor_div(2 * (self.damping as i128) * w, 1024);
        assert(0 <= omega_squared <= 0x10_0000_0000_0000);
        assert(-0x20_0000_0000_0000 <= decay <= 0x20_0000_0000_0000);
        proof {
            lemma_mul_within(u as int, self.kp as int, 0x8000_0000, KP_BOUND as int);
            lemma_mul_within(decay as int, d as int, 0x20_0000_0000_0000, STATE_LIMIT as int);
            lemma_mul_within(omega_squared as int, x as int, 0x10_0000_0000_0000, STATE_LIMIT as int);
        }
        let target: i128 = (u as i128) * (self.kp as i128);
        proof {
            lemma_mul_within(omega_squared as int, target as int, 0x10_0000_0000_0000, STATE_LIMIT as int);
            lemma_mul_within(w as int, d as int, 0x8000_0000, STATE_LIMIT as int);
        }
        let damping_term: i128 = floor_div(decay * d, 1024);
        let spring_term: i128 = floor_div(omega_squared * x, 1024);
        let drive_term: i128 = floor_div(omega_squared * target, 1024);
        let velocity: i128 = floor_div(w * d, 1024);
        assert(-0x8_0000_0000_0000_0000_0000_0000_0000 <= damping_term <= 0x8_0000_0000_0000_0000_0000_0000_0000);
        assert(-0x8_0000_0000_0000_0000_0000_0000_0000 <= spring_term <= 0x8_0000_0000_0000_0000_0000_0000_0000);
        assert(-0x8_0000_0000_0000_0000_0000_0000_0000 <= drive_term <= 0x8_0000_0000_0000_0000_0000_0000_0000);
        assert(-0x2000_0000_0000_0000_0000_0000 <= velocity <= 0x2000_0000_0000_0000_0000_0000);
        let rate: i128 = clamp_i128(-damping_term - spring_term + drive_term, RATE_LIMIT);
        proof {
            lemma_mul_within(h as int, rate as int, 0x1_0000_0000, RATE_LIMIT as int);
            lemma_mul_within(h as int, velocity as int, 0x1_0000_0000, 0x2000_0000_0000_0000_0000_0000);
            lemma_rate_clamp(d as int, h as int, v.rate(u as int));
        }
        let next_d: i128 = clamp_i128(d + h * rate, STATE_LIMIT);
        let next_x: i128 = clamp_i128(x + h * velocity, STATE_LIMIT);
        self.previous_diff_output = next_d;
        self.previous_output = next_x;
        saturate_i32(shift_down(next_x))
    }
}

} // verus!
