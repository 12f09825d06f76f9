//! Raw light curves and their validation.

use vstd::prelude::*;

verus! {

/// One raw sample of a light curve. Each field is the IEEE-754 bit pattern
/// of the corresponding 64-bit floating-point value: observation time `t`,
/// measured magnitude `m`, and measurement error `err` (a standard
/// deviation). The verified pipeline never interprets these numerically; it
/// orders, packages and routes them.
#[derive(Clone, Copy, PartialEq, Eq, Structural, Debug)]
pub struct Observation {
    pub t_bits: u64,
    pub m_bits: u64,
    pub err_bits: u64,
}

/// The smallest light curve the service accepts.
pub const MIN_OBSERVATIONS: usize = 5;

/// Validation: a light curve is long enough exactly when it holds at least
/// five observations.
pub open spec fn spec_long_enough(curve: Seq<Observation>) -> bool {
    curve.len() >= MIN_OBSERVATIONS
}

/// Passes a light curve through unchanged when it has at least five
/// observations; rejects shorter ones. This runs before any sorting or
/// transform.
pub fn validate_curve(curve: &Vec<Observation>) -> (r: Result<(), crate::error::PipelineError>)
    ensures
        r is Ok <==> spec_long_enough(curve@),
        r is Err ==> r->Err_0 is InsufficientData,
{
    if curve.len() < MIN_OBSERVATIONS {
        Err(crate::error::PipelineError::InsufficientData)
    } else {
        Ok(())
    }
}

} // verus!
