//! The per-request pipeline around one version's frozen configuration.
//!
//! A request is validated and normalized here, handed to the feature
//! evaluators of the bound banks, and its outputs are merged here into the
//! final named mapping. The evaluators themselves are the outside feature
//! library; everything before and after them is verified.

use vstd::prelude::*;
use crate::curve::{Observation, spec_long_enough};
use crate::error::PipelineError;
use crate::order::{sort_curve, time_sorted};

verus! {

/// Validate and normalize a raw light curve in place: a curve of fewer than
/// five observations is rejected untouched; a long enough one is stably
/// sorted into its canonical time order.
pub fn prepare_curve(curve: &mut Vec<Observation>) -> (r: Result<(), PipelineError>)
    ensures
        r is Ok <==> spec_long_enough(old(curve)@),
        r matches Err(e) ==> e is InsufficientData && final(curve)@ == old(curve)@,
        r is Ok ==> final(curve)@ == sort_curve(old(curve)@),
        r is Ok ==> time_sorted(final(curve)@) && final(curve)@.to_multiset()
            == old(curve)@.to_multiset(),
{
    match crate::curve::validate_curve(curve) {
        Err(e) => Err(e),
        Ok(_) => {
            crate::order::sort_by_time(curve);
            Ok(())
        },
    }
}

/// Merge a version's bank outputs into the final mapping: the magnitude
/// bank's values, then the flux bank's, zipped positionally against the
/// version's frozen name list. The mapping's keys are exactly that name
/// list; its values are exactly the computed outputs in bank order. The
/// name list being as wide as both banks together is a frozen-configuration
/// invariant, never a per-request condition.
pub fn compute_features(
    names: &Vec<String>,
    mag_values: &Vec<u64>,
    flux_values: &Vec<u64>,
) -> (pairs: Vec<(String, u64)>)
    requires
        names@.len() == mag_values@.len() + flux_values@.len(),
    ensures
        pairs@.len() == names@.len(),
        forall|i: int| 0 <= i < names@.len() ==> (#[trigger] pairs@[i]).0@ == names@[i]@,
        forall|i: int|
            0 <= i < mag_values@.len() ==> (#[trigger] pairs@[i]).1 == mag_values@[i],
        forall|i: int|
            0 <= i < flux_values@.len() ==> (#[trigger] pairs@[mag_values@.len() + i]).1
                == flux_values@[i],
{
    let all = crate::merge::concat_outputs(mag_values, flux_values);
    let pairs = crate::merge::merge_features(names, &all);
    proof {
        assert(forall|i: int|
            0 <= i < mag_values@.len() ==> (mag_values@ + flux_values@)[i] == mag_values@[i]);
        assert(forall|i: int|
            0 <= i < flux_values@.len() ==> (mag_values@ + flux_values@)[mag_values@.len() + i]
                == flux_values@[i]);
    }
    pairs
}

} // verus!
