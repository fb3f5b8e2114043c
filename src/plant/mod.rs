//! Time-domain plant elements and the handle that holds any one of them.
use vstd::prelude::*;
use vstd::std_specs::cmp::PartialEqSpec;

use crate::hysteresis::Hysteresis;
use crate::plant::pt0::{PT0, PT0View};
use crate::plant::pt1::{PT1, PT1View};
use crate::plant::pt2::{PT2, PT2View};

pub mod pt0;
pub mod pt1;
pub mod pt2;

verus! {

/// Largest gain magnitude, in fixed-point, that an element holds: an `i32`
/// gain scaled by `FIX_KOMMA_SHIFT`.
pub const KP_BOUND: i64 = 0x200_0000_0000;

/// Largest magnitude of an `i32` sample times a gain within `KP_BOUND`.
pub const PRODUCT_BOUND: i128 = 0x1_0000_0000_0000_0000_00;

/// A construction parameter that the element refuses.
#[derive(Debug, Clone, Copy, PartialEq, Eq, Structural)]
pub enum ConfigError {
    /// The sample time is zero.
    InvalidSampleTime,
    /// The time constant does not fit the sample time.
    InvalidTimeConstant,
    /// The gain is out of the accepted range.
    InvalidGain,
    /// The natural frequency is not positive.
    InvalidFrequency,
    /// The damping is negative.
    NegativeDamping,
    /// The delay line would need more samples than it can hold.
    BufferSizeExceeded { requested: u32, maximum: usize },
}

/// A short, stable name for the kind of an element.
pub trait TypeIdentifier {
    /// The name of the element's kind.
    spec fn kind_name(&self) -> Seq<char>;

    /// One word, starting with a capital letter, that names the element's
    /// kind independently of its state.
    fn short_type_name(&self) -> (r: &'static str)
        ensures
            r@ == self.kind_name(),
    ;
}

/// An element that turns one input sample into one output sample per call.
///
/// Inputs outside the range the element can represent give a border-case
/// output, as a physical system would; stepping never fails. The element's
/// behaviour is stated over its view, a model with public fields.
pub trait TransferTimeDomain<N>: TypeIdentifier + View + Sized {
    /// Whether a model describes a consistent element.
    spec fn inv(v: Self::V) -> bool;

    /// The model after feeding `u`.
    spec fn next(v: Self::V, u: N) -> Self::V;

    /// The output for input `u`.
    spec fn output(v: Self::V, u: N) -> N;

    /// Feeds one input sample, advances the state and returns the output.
    fn transfer_td(&mut self, u: N) -> (r: N)
        requires
            Self::inv(old(self)@),
        ensures
            Self::inv(final(self)@),
            final(self)@ == Self::next(old(self)@, u),
            r == Self::output(old(self)@, u),
    ;
}

/// The outputs that an element with model `v` produces for `inputs`, fed one
/// after the other.
pub open spec fn outputs_of<N, E: TransferTimeDomain<N>>(v: E::V, inputs: Seq<N>) -> Seq<N>
    decreases inputs.len(),
{
    if inputs.len() == 0 {
        Seq::empty()
    } else {
        seq![E::output(v, inputs[0])] + outputs_of::<N, E>(E::next(v, inputs[0]), inputs.drop_first())
    }
}

/// The model of an element with model `v` after feeding `inputs`.
pub open spec fn state_after<N, E: TransferTimeDomain<N>>(v: E::V, inputs: Seq<N>) -> E::V
    decreases inputs.len(),
{
    if inputs.len() == 0 {
        v
    } else {
        state_after::<N, E>(E::next(v, inputs[0]), inputs.drop_first())
    }
}

} // verus!

verus! {

/// One element of any kind, owned exclusively, stepped, cloned and compared
/// by value through one type.
#[derive(Debug)]
pub enum DynTransferTimeDomain {
    PT0(PT0),
    PT1(PT1),
    PT2(PT2),
    Hysteresis(Hysteresis),
}

/// The owned handle to an element of any kind.
pub type BoxedTransferTimeDomain = DynTransferTimeDomain;

/// The model of a [`DynTransferTimeDomain`]: the kind and its model.
pub enum ElementView {
    PT0(PT0View),
    PT1(PT1View),
    PT2(PT2View),
    Hysteresis(Hysteresis),
}

impl ElementView {
    /// Whether two models are of the same kind.
    pub open spec fn same_kind(self, other: ElementView) -> bool {
        match (self, other) {
            (ElementView::PT0(_), ElementView::PT0(_)) => true,
            (ElementView::PT1(_), ElementView::PT1(_)) => true,
            (ElementView::PT2(_), ElementView::PT2(_)) => true,
            (ElementView::Hysteresis(_), ElementView::Hysteresis(_)) => true,
            _ => false,
        }
    }
}

impl View for DynTransferTimeDomain {
    type V = ElementView;

    open spec fn view(&self) -> ElementView {
        match self {
            DynTransferTimeDomain::PT0(p) => ElementView::PT0(p@),
            DynTransferTimeDomain::PT1(p) => ElementView::PT1(p@),
            DynTransferTimeDomain::PT2(p) => ElementView::PT2(p@),
            DynTransferTimeDomain::Hysteresis(h) => ElementView::Hysteresis(*h),
        }
    }
}

impl TypeIdentifier for DynTransferTimeDomain {
    open spec fn kind_name(&self) -> Seq<char> {
        match self {
            DynTransferTimeDomain::PT0(p) => p.kind_name(),
            DynTransferTimeDomain::PT1(p) => p.kind_name(),
            DynTransferTimeDomain::PT2(p) => p.kind_name(),
            DynTransferTimeDomain::Hysteresis(h) => h.kind_name(),
        }
    }

    fn short_type_name(&self) -> (r: &'static str) {
        match self {
            DynTransferTimeDomain::PT0(p) => p.short_type_name(),
            DynTransferTimeDomain::PT1(p) => p.short_type_name(),
            DynTransferTimeDomain::PT2(p) => p.short_type_name(),
            DynTransferTimeDomain::Hysteresis(h) => h.short_type_name(),
        }
    }
}

impl TransferTimeDomain<i32> for DynTransferTimeDomain {
    open spec fn inv(v: ElementView) -> bool {
        match v {
            ElementView::PT0(p) => PT0::inv(p),
            ElementView::PT1(p) => PT1::inv(p),
            ElementView::PT2(p) => PT2::inv(p),
            ElementView::Hysteresis(h) => Hysteresis::inv(h),
        }
    }

    open spec fn next(v: ElementView, u: i32) -> ElementView {
        match v {
            ElementView::PT0(p) => ElementView::PT0(PT0::next(p, u)),
            ElementView::PT1(p) => ElementView::PT1(PT1::next(p, u)),
            ElementView::PT2(p) => ElementView::PT2(PT2::next(p, u)),
            ElementView::Hysteresis(h) => ElementView::Hysteresis(Hysteresis::next(h, u)),
        }
    }

    open spec fn output(v: ElementView, u: i32) -> i32 {
        match v {
            ElementView::PT0(p) => PT0::output(p, u),
            ElementView::PT1(p) => PT1::output(p, u),
            ElementView::PT2(p) => PT2::output(p, u),
            ElementView::Hysteresis(h) => Hysteresis::output(h, u),
        }
    }

    fn transfer_td(&mut self, u: i32) -> (r: i32) {
        match self {
            DynTransferTimeDomain::PT0(p) => p.transfer_td(u),
            DynTransferTimeDomain::PT1(p) => p.transfer_td(u),
            DynTransferTimeDomain::PT2(p) => p.transfer_td(u),
            DynTransferTimeDomain::Hysteresis(h) => h.transfer_td(u),
        }
    }
}

impl PartialEq for DynTransferTimeDomain {
    /// Equal parameters and equal state.
    fn eq(&self, other: &DynTransferTimeDomain) -> (r: bool) {
        match (self, other) {
            (DynTransferTimeDomain::PT0(a), DynTransferTimeDomain::PT0(b)) => a == b,
            (DynTransferTimeDomain::PT1(a), DynTransferTimeDomain::PT1(b)) => a == b,
            (DynTransferTimeDomain::PT2(a), DynTransferTimeDomain::PT2(b)) => a == b,
            (DynTransferTimeDomain::Hysteresis(a), DynTransferTimeDomain::Hysteresis(b)) => a == b,
            _ => false,
        }
    }
}

impl vstd::std_specs::cmp::PartialEqSpecImpl for DynTransferTimeDomain {
    open spec fn obeys_eq_spec() -> bool {
        true
    }

    open spec fn eq_spec(&self, other: &DynTransferTimeDomain) -> bool {
        self@ == other@
    }
}

impl Default for DynTransferTimeDomain {
    /// A first-order lag in its default configuration.
    fn default() -> (r: Self)
        ensures
            r@ == ElementView::PT1(PT1View {
                t1_time: 1,
                sample_time: 1,
                kp: 1024,
                previous_output: 0,
            }),
            Self::inv(r@),
    {
        DynTransferTimeDomain::PT1(PT1::default())
    }
}

impl Clone for DynTransferTimeDomain {
    /// An independent copy with the same kind, parameters and state.
    fn clone(&self) -> (r: Self)
        ensures
            r@ == self@,
    {
        match self {
            DynTransferTimeDomain::PT0(p) => DynTransferTimeDomain::PT0(p.clone()),
            DynTransferTimeDomain::PT1(p) => DynTransferTimeDomain::PT1(*p),
            DynTransferTimeDomain::PT2(p) => DynTransferTimeDomain::PT2(*p),
            DynTransferTimeDomain::Hysteresis(h) => DynTransferTimeDomain::Hysteresis(*h),
        }
    }
}

/// Equality of handles is reflexive and symmetric, and handles of different
/// kinds are never equal, whatever their parameters.
pub proof fn lemma_equality(a: DynTransferTimeDomain, b: DynTransferTimeDomain)
    ensures
        a.eq_spec(&a),
        a.eq_spec(&b) == b.eq_spec(&a),
        !a@.same_kind(b@) ==> !a.eq_spec(&b),
{
}

/// A clone, stepped on any inputs, gives the outputs that the handle it was
/// cloned from gives on the same inputs, and ends in the same state.
pub proof fn lemma_clone_replays(
    source: DynTransferTimeDomain,
    copy: DynTransferTimeDomain,
    inputs: Seq<i32>,
)
    requires
        copy@ == source@,
    ensures
        outputs_of::<i32, DynTransferTimeDomain>(copy@, inputs) == outputs_of::<
            i32,
            DynTransferTimeDomain,
        >(source@, inputs),
        state_after::<i32, DynTransferTimeDomain>(copy@, inputs) == state_after::<
            i32,
            DynTransferTimeDomain,
        >(source@, inputs),
{
}

} // verus!
