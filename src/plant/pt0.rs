//! The PT0 element, a pure transport delay with gain:
//! `out[k] = kp * in[k - d]` with `d = floor(t0_time / sample_time)`, and
//! zero while the delay line fills. With `t0_time == 0` it is a gain element.
//!
//! Times are counts of one caller-chosen unit; the gain is fixed-point.
use vstd::prelude::*;

use crate::fixed::{lemma_mul_within, saturate, saturate_i32, scale_down, shift_down};
use crate::plant::{
    outputs_of, ConfigError, TransferTimeDomain, TypeIdentifier, KP_BOUND, PRODUCT_BOUND,
};

verus! {

/// The most samples the delay line holds.
pub const MAX_BUFFER_SIZE: usize = 1000;

/// The model of a [`PT0`].
pub struct PT0View {
    pub t0_time: u32,
    pub sample_time: u32,
    /// The gain, fixed-point.
    pub kp: i64,
    /// Scaled samples still on their way, the oldest first.
    pub buffer: Seq<i128>,
}

impl PT0View {
    /// The number of samples an input is delayed by.
    pub open spec fn delay(self) -> int {
        self.t0_time as int / self.sample_time as int
    }

    /// The scaled sample that input `u` puts on the delay line.
    pub open spec fn scaled(self, u: int) -> i128 {
        (u * self.kp) as i128
    }
}

/// `n` zero samples: a delay line at rest.
pub open spec fn zeros(n: int) -> Seq<i128> {
    Seq::new(n as nat, |i: int| 0i128)
}

/// The output sample for a scaled sample leaving the delay line.
pub open spec fn emitted(x: i128) -> i32 {
    saturate(scale_down(x as int))
}

/// A transport delay with gain.
#[derive(Debug)]
pub struct PT0 {
    t0_time: u32,
    sample_time: u32,
    kp: i64,
    buffered_output: Vec<i128>,
}

impl View for PT0 {
    type V = PT0View;

    closed spec fn view(&self) -> PT0View {
        PT0View {
            t0_time: self.t0_time,
            sample_time: self.sample_time,
            kp: self.kp,
            buffer: self.buffered_output@,
        }
    }
}

/// A delay line of `n` zero samples.
fn zero_buffer(n: usize) -> (r: Vec<i128>)
    ensures
        r@ == zeros(n as int),
{
    let mut r: Vec<i128> = Vec::new();
    let mut i: usize = 0;
    while i < n
        invariant
            i <= n,
            r@ == zeros(i as int),
        decreases n - i,
    {
        r.push(0);
        i = i + 1;
        assert(r@ =~= zeros(i as int));
    }
    r
}

impl PT0 {
    /// The delay time.
    pub fn t0_time(&self) -> (r: u32)
        ensures
            r == self@.t0_time,
    {
        self.t0_time
    }

    /// The sample time.
    pub fn sample_time(&self) -> (r: u32)
        ensures
            r == self@.sample_time,
    {
        self.sample_time
    }

    /// The gain, fixed-point.
    pub fn kp(&self) -> (r: i64)
        ensures
            r == self@.kp,
    {
        self.kp
    }

    /// The number of samples an input is delayed by.
    pub fn delay_samples(&self) -> (r: usize)
        requires
            Self::inv(self@),
        ensures
            r == self@.delay(),
    {
        (self.t0_time / self.sample_time) as usize
    }

    /// Sets the sample time; the delay line restarts at rest. Fails if it
    /// is zero, or if the delay line would need more than `MAX_BUFFER_SIZE`
    /// samples under it.
    pub fn set_sample_time(self, sample_time: u32) -> (r: Result<Self, ConfigError>)
        requires
            Self::inv(self@),
        ensures
            sample_time == 0 ==> r == Err::<Self, ConfigError>(ConfigError::InvalidSampleTime),
            sample_time > 0 && self@.t0_time as int / sample_time as int > MAX_BUFFER_SIZE ==> r
                == Err::<Self, ConfigError>(
                ConfigError::BufferSizeExceeded {
                    requested: (self@.t0_time / sample_time) as u32,
                    maximum: MAX_BUFFER_SIZE,
                },
            ),
            r is Ok <==> sample_time > 0 && self@.t0_time as int / sample_time as int
                <= MAX_BUFFER_SIZE,
            r matches Ok(p) ==> Self::inv(p@) && p@ == (PT0View {
                sample_time,
                buffer: zeros(self@.t0_time as int / sample_time as int),
                ..self@
            }),
    {
        if sample_time == 0 {
            return Err(ConfigError::InvalidSampleTime);
        }
        let d: u32 = self.t0_time / sample_time;
        if d as usize <= MAX_BUFFER_SIZE {
            let buffered_output = zero_buffer(d as usize);
            Ok(PT0 { sample_time, buffered_output, ..self })
        } else {
            Err(ConfigError::BufferSizeExceeded { requested: d, maximum: MAX_BUFFER_SIZE })
        }
    }

    /// The sample time that [`PT0::set_sample_time_or_default`] keeps: `ts`
    /// where [`PT0::set_sample_time`] accepts it, else the default of one
    /// where that is accepted, else the current one.
    pub open spec fn chosen_sample_time(v: PT0View, ts: u32) -> u32 {
        if ts > 0 && v.t0_time as int / ts as int <= MAX_BUFFER_SIZE {
            ts
        } else if v.t0_time <= MAX_BUFFER_SIZE {
            1
        } else {
            v.sample_time
        }
    }

    /// Sets the sample time, falling back as [`PT0::chosen_sample_time`]
    /// says; the delay line restarts at rest.
    pub fn set_sample_time_or_default(self, sample_time: u32) -> (r: Self)
        requires
            Self::inv(self@),
        ensures
            Self::inv(r@),
            r@ == (PT0View {
                sample_time: Self::chosen_sample_time(self@, sample_time),
                buffer: zeros(self@.t0_time as int / Self::chosen_sample_time(self@, sample_time) as int),
                ..self@
            }),
    {
        let ts: u32 = if sample_time > 0 && (self.t0_time / sample_time) as usize <= MAX_BUFFER_SIZE {
            sample_time
        } else if self.t0_time as usize <= MAX_BUFFER_SIZE {
            1
        } else {
            self.sample_time
        };
        let buffered_output = zero_buffer((self.t0_time / ts) as usize);
        PT0 { sample_time: ts, buffered_output, ..self }
    }

    /// Sets the delay time; the delay line restarts at rest. Fails if the
    /// delay line would need more than `MAX_BUFFER_SIZE` samples.
    pub fn set_t0_time(self, t0_time: u32) -> (r: Result<Self, ConfigError>)
        requires
            Self::inv(self@),
        ensures
            t0_time as int / self@.sample_time as int <= MAX_BUFFER_SIZE <==> r is Ok,
            r matches Ok(p) ==> Self::inv(p@) && p@ == (PT0View {
                t0_time,
                buffer: zeros(t0_time as int / self@.sample_time as int),
                ..self@
            }),
            r matches Err(e) ==> e == (ConfigError::BufferSizeExceeded {
                requested: (t0_time / self@.sample_time) as u32,
                maximum: MAX_BUFFER_SIZE,
            }),
    {
        let d: u32 = t0_time / self.sample_time;
        if d as usize <= MAX_BUFFER_SIZE {
            let buffered_output = zero_buffer(d as usize);
            Ok(PT0 { t0_time, buffered_output, ..self })
        } else {
            Err(ConfigError::BufferSizeExceeded { requested: d, maximum: MAX_BUFFER_SIZE })
        }
    }

    /// Sets the delay time, or the default of zero if the delay line would
    /// need more than `MAX_BUFFER_SIZE` samples; the delay line restarts at
    /// rest.
    pub fn set_t0_time_or_default(self, t0_time: u32) -> (r: Self)
        requires
            Self::inv(self@),
        ensures
            Self::inv(r@),
            t0_time as int / self@.sample_time as int <= MAX_BUFFER_SIZE ==> r@ == (PT0View {
                t0_time,
                buffer: zeros(t0_time as int / self@.sample_time as int),
                ..self@
            }),
            t0_time as int / self@.sample_time as int > MAX_BUFFER_SIZE ==> r@ == (PT0View {
                t0_time: 0,
                buffer: Seq::empty(),
                ..self@
            }),
    {
        let d: u32 = t0_time / self.sample_time;
        let t0: u32 = if d as usize <= MAX_BUFFER_SIZE {
            t0_time
        } else {
            0
        };
        let buffered_output = zero_buffer((t0 / self.sample_time) as usize);
        proof {
            assert(zeros(0) =~= Seq::<i128>::empty());
        }
        PT0 { t0_time: t0, buffered_output, ..self }
    }

    /// Sets the gain; it is stored fixed-point. Samples already on the
    /// delay line keep the gain they were scaled with.
    pub fn set_kp(self, kp: i32) -> (r: Self)
        requires
            Self::inv(self@),
        ensures
            Self::inv(r@),
            r@ == (PT0View { kp: (kp * 1024) as i64, ..self@ }),
    {
        PT0 { kp: kp as i64 * 1024, ..self }
    }
}

impl Clone for PT0 {
    /// A copy with the same parameters and the same samples on its way.
    fn clone(&self) -> (r: Self)
        ensures
            r@ == self@,
    {
        let mut buffered_output: Vec<i128> = Vec::new();
        let mut i: usize = 0;
        while i < self.buffered_output.len()
            invariant
                i <= self.buffered_output.len(),
                buffered_output@ == self.buffered_output@.subrange(0, i as int),
            decreases self.buffered_output.len() - i,
        {
            buffered_output.push(self.buffered_output[i]);
            i = i + 1;
            assert(buffered_output@ =~= self.buffered_output@.subrange(0, i as int));
        }
        assert(buffered_output@ =~= self.buffered_output@);
        PT0 {
            t0_time: self.t0_time,
            sample_time: self.sample_time,
            kp: self.kp,
            buffered_output,
        }
    }
}

impl PartialEq for PT0 {
    /// Equal parameters and equal state.
    fn eq(&self, other: &PT0) -> (r: bool) {
        if self.t0_time != other.t0_time || self.sample_time != other.sample_time
            || self.kp != other.kp || self.buffered_output.len() != other.buffered_output.len() {
            return false;
        }
        let mut i: usize = 0;
        while i < self.buffered_output.len()
            invariant
                i <= self.buffered_output.len() == other.buffered_output.len(),
                self.buffered_output@.subrange(0, i as int) == other.buffered_output@.subrange(0, i as int),
            decreases self.buffered_output.len() - i,
        {
            if self.buffered_output[i] != other.buffered_output[i] {
                assert(self@.buffer[i as int] != other@.buffer[i as int]);
                return false;
            }
            assert(self.buffered_output@.subrange(0, i + 1) =~= self.buffered_output@.subrange(0, i as int).push(self.buffered_output[i as int]));
            assert(other.buffered_output@.subrange(0, i + 1) =~= other.buffered_output@.subrange(0, i as int).push(other.buffered_output[i as int]));
            i = i + 1;
        }
        assert(self.buffered_output@ =~= self.buffered_output@.subrange(0, i as int));
        assert(other.buffered_output@ =~= other.buffered_output@.subrange(0, i as int));
        true
    }
}

impl vstd::std_specs::cmp::PartialEqSpecImpl for PT0 {
    open spec fn obeys_eq_spec() -> bool {
        true
    }

    open spec fn eq_spec(&self, other: &PT0) -> bool {
        self@ == other@
    }
}

impl Default for PT0 {
    /// A gain element of gain one, sample time one, no delay.
    fn default() -> (r: Self)
        ensures
            Self::inv(r@),
            r@ == (PT0View { t0_time: 0, sample_time: 1, kp: 1024, buffer: Seq::empty() }),
    {
        PT0 { t0_time: 0, sample_time: 1, kp: 1024, buffered_output: Vec::new() }
    }
}

impl TypeIdentifier for PT0 {
    open spec fn kind_name(&self) -> Seq<char> {
        "PT0"@
    }

    fn short_type_name(&self) -> (r: &'static str) {
        "PT0"
    }
}

impl TransferTimeDomain<i32> for PT0 {
    open spec fn inv(v: PT0View) -> bool {
        &&& v.sample_time > 0
        &&& v.delay() <= MAX_BUFFER_SIZE
        &&& v.buffer.len() == v.delay()
        &&& -KP_BOUND <= v.kp <= KP_BOUND
        &&& forall|i: int|
            0 <= i < v.buffer.len() ==> -PRODUCT_BOUND <= #[trigger] v.buffer[i] <= PRODUCT_BOUND
    }

    /// The new scaled sample joins the tail and the oldest one leaves.
    open spec fn next(v: PT0View, u: i32) -> PT0View {
        PT0View { buffer: v.buffer.push(v.scaled(u as int)).drop_first(), ..v }
    }

    /// The oldest scaled sample, or the new one when there is no delay.
    open spec fn output(v: PT0View, u: i32) -> i32 {
        emitted(v.buffer.push(v.scaled(u as int))[0])
    }

    fn transfer_td(&mut self, u: i32) -> (r: i32) {
        proof {
            lemma_mul_within(u as int, self.kp as int, 0x8000_0000, KP_BOUND as int);
        }
        let scaled: i128 = (u as i128) * (self.kp as i128);
        self.buffered_output.push(scaled);
        let head: i128 = self.buffered_output.remove(0);
        proof {
            let v = old(self)@;
            assert(self.buffered_output@ =~= v.buffer.push(v.scaled(u as int)).drop_first());
        }
        saturate_i32(shift_down(head))
    }
}

/// The scaled samples that `inputs` put on the delay line of `v`.
pub open spec fn scaled_inputs(v: PT0View, inputs: Seq<i32>) -> Seq<i128> {
    inputs.map_values(|u: i32| v.scaled(u as int))
}

/// Transport delay: the outputs are what was on the delay line, followed by
/// the scaled inputs, in order; the k-th output is the k-th of these.
pub proof fn lemma_delay_line(v: PT0View, inputs: Seq<i32>)
    ensures
        outputs_of::<i32, PT0>(v, inputs).len() == inputs.len(),
        forall|k: int|
            0 <= k < inputs.len() ==> #[trigger] outputs_of::<i32, PT0>(v, inputs)[k] == emitted(
                (v.buffer + scaled_inputs(v, inputs))[k],
            ),
    decreases inputs.len(),
{
    if inputs.len() > 0 {
        let u = inputs[0];
        let rest = inputs.drop_first();
        let w = PT0::next(v, u);
        lemma_delay_line(w, rest);
        assert(scaled_inputs(w, rest) =~= scaled_inputs(v, inputs).drop_first());
        assert(w.buffer + scaled_inputs(w, rest) =~= (v.buffer + scaled_inputs(v, inputs)).drop_first());
        assert(v.buffer.push(v.scaled(u as int))[0] == (v.buffer + scaled_inputs(v, inputs))[0]);
        let outs = outputs_of::<i32, PT0>(v, inputs);
        assert forall|k: int| 0 <= k < inputs.len() implies #[trigger] outs[k] == emitted(
            (v.buffer + scaled_inputs(v, inputs))[k],
        ) by {
            if k > 0 {
                assert(outs[k] == outputs_of::<i32, PT0>(w, rest)[k - 1]);
            }
        }
    }
}

/// `n` copies of the input `x`.
pub open spec fn constant_input(x: i32, n: nat) -> Seq<i32> {
    Seq::new(n, |i: int| x)
}

/// A delay line at rest, fed a constant input, gives zero for as many steps
/// as it delays by and the input times the gain from then on.
pub proof fn lemma_constant_input(v: PT0View, x: i32, gain: i32, n: nat)
    requires
        PT0::inv(v),
        v.buffer == zeros(v.delay()),
        v.kp == gain * 1024,
    ensures
        forall|k: int|
            0 <= k < n ==> #[trigger] outputs_of::<i32, PT0>(v, constant_input(x, n))[k] == if k
                < v.delay() {
                0
            } else {
                saturate(x * gain)
            },
{
    let inputs = constant_input(x, n);
    lemma_delay_line(v, inputs);
    lemma_mul_within(x as int, v.kp as int, 0x8000_0000, KP_BOUND as int);
    assert forall|k: int| 0 <= k < n implies #[trigger] outputs_of::<i32, PT0>(v, inputs)[k] == if k
        < v.delay() {
        0
    } else {
        saturate(x * gain)
    } by {
        if k >= v.delay() {
            assert(x * v.kp == x * gain * 1024) by (nonlinear_arith)
                requires
                    v.kp == gain * 1024,
            ;
            assert(scaled_inputs(v, inputs)[k - v.delay()] == v.scaled(x as int));
            assert(v.scaled(x as int) == x * gain * 1024);
            assert((x * gain * 1024) / 1024 == x * gain) by (nonlinear_arith);
        }
    }
}

} // verus!
