//! Discrete-time plant elements for control-loop testing: a transport delay
//! (PT0), first and second order lags (PT1, PT2) and a hysteresis switch, all
//! on integer samples with fixed-point parameters, plus a closed handle type
//! that steps, clones and compares any of them by value.
use vstd::prelude::*;

pub mod fixed;
pub mod hysteresis;
pub mod plant;
pub mod pt1;

verus! {

/// An input outside the range on which a transfer function is defined.
///
/// The elements of this crate saturate instead of failing, so none of them
/// produces this value.
#[derive(Debug, Clone, Copy, PartialEq, Eq, Structural)]
pub struct NotDefinedError;

/// A transfer function that may refuse an input.
pub trait TransferFunction<T>: Sized {
    /// The state after feeding `u`.
    spec fn transfer_state(&self, u: T) -> Self;

    /// The result of feeding `u`.
    spec fn transfer_result(&self, u: T) -> Result<T, NotDefinedError>;

    /// Feeds one input sample and advances the state.
    fn transfer(&mut self, u: T) -> (r: Result<T, NotDefinedError>)
        ensures
            *final(self) == old(self).transfer_state(u),
            r == old(self).transfer_result(u),
    ;
}

} // verus!
