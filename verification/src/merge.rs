//! Merging per-bank outputs into one flat named mapping.
//!
//! When a version evaluates two banks — one per representation — their name
//! lists are concatenated once at startup, each name decorated with its
//! representation suffix; per request the freshly computed value lists are
//! concatenated in the same bank order and zipped positionally against that
//! frozen name list.

use vstd::prelude::*;
use crate::bank::views_of;

verus! {

/// Decorate and concatenate the name lists of the magnitude-space and
/// flux-space banks, preserving bank order: every magnitude name gets the
/// `_magn` suffix, every flux name the `_flux` suffix.
pub fn decorate_names(mag_names: &Vec<String>, flux_names: &Vec<String>) -> (r: Vec<String>)
    ensures
        r@.len() == mag_names@.len() + flux_names@.len(),
        forall|i: int|
            0 <= i < mag_names@.len() ==> #[trigger] r@[i]@ == mag_names@[i]@ + "_magn"@,
        forall|i: int|
            0 <= i < flux_names@.len() ==> #[trigger] r@[mag_names@.len() + i]@ == flux_names@[i]@
                + "_flux"@,
{
    let mut out: Vec<String> = Vec::new();
    let n_mag = mag_names.len();
    for k in 0..n_mag
        invariant
            n_mag == mag_names@.len(),
            out@.len() == k,
            forall|i: int| 0 <= i < k ==> #[trigger] out@[i]@ == mag_names@[i]@ + "_magn"@,
    {
        let ghost prev = out@;
        let nm = String::from_str(mag_names[k].as_str()).concat("_magn");
        out.push(nm);
        proof {
            assert(out@ == prev.push(nm));
            assert(forall|i: int| 0 <= i < k ==> #[trigger] out@[i]@ == prev[i]@);
        }
    }
    let n_flux = flux_names.len();
    for k in 0..n_flux
        invariant
            n_mag == mag_names@.len(),
            n_flux == flux_names@.len(),
            out@.len() == n_mag + k,
            forall|i: int| 0 <= i < n_mag ==> #[trigger] out@[i]@ == mag_names@[i]@ + "_magn"@,
            forall|i: int|
                0 <= i < k ==> #[trigger] out@[n_mag + i]@ == flux_names@[i]@ + "_flux"@,
    {
        let ghost prev = out@;
        let nm = String::from_str(flux_names[k].as_str()).concat("_flux");
        out.push(nm);
        proof {
            assert(out@ == prev.push(nm));
            assert(forall|i: int| 0 <= i < prev.len() ==> #[trigger] out@[i]@ == prev[i]@);
            assert(out@[n_mag + k as int]@ == flux_names@[k as int]@ + "_flux"@);
        }
    }
    out
}

/// Concatenate the two banks' freshly computed outputs, magnitude bank
/// first, preserving bank order.
pub fn concat_outputs(mag_values: &Vec<u64>, flux_values: &Vec<u64>) -> (r: Vec<u64>)
    ensures
        r@ == mag_values@ + flux_values@,
{
    let mut out: Vec<u64> = Vec::new();
    let n_mag = mag_values.len();
    for k in 0..n_mag
        invariant
            n_mag == mag_values@.len(),
            out@ == mag_values@.subrange(0, k as int),
    {
        out.push(mag_values[k]);
        proof {
            assert(mag_values@.subrange(0, k + 1 as int) =~= mag_values@.subrange(0, k as int).push(
                mag_values@[k as int],
            ));
        }
    }
    proof {
        assert(mag_values@.subrange(0, n_mag as int) =~= mag_values@);
    }
    let n_flux = flux_values.len();
    for k in 0..n_flux
        invariant
            n_flux == flux_values@.len(),
            out@ == mag_values@ + flux_values@.subrange(0, k as int),
    {
        out.push(flux_values[k]);
        proof {
            assert(flux_values@.subrange(0, k + 1 as int) =~= flux_values@.subrange(
                0,
                k as int,
            ).push(flux_values@[k as int]));
            assert(mag_values@ + flux_values@.subrange(0, k + 1 as int) =~= (mag_values@
                + flux_values@.subrange(0, k as int)).push(flux_values@[k as int]));
        }
    }
    proof {
        assert(flux_values@.subrange(0, n_flux as int) =~= flux_values@);
    }
    out
}

/// Zip a frozen name list positionally against freshly computed values. A
/// length mismatch between the two is a programming invariant violation,
/// excluded by contract, never a user-facing error.
pub fn merge_features(names: &Vec<String>, values: &Vec<u64>) -> (pairs: Vec<(String, u64)>)
    requires
        names@.len() == values@.len(),
    ensures
        pairs@.len() == names@.len(),
        forall|i: int|
            0 <= i < names@.len() ==> (#[trigger] pairs@[i]).0@ == names@[i]@ && pairs@[i].1
                == values@[i],
{
    let mut out: Vec<(String, u64)> = Vec::new();
    let n = names.len();
    for k in 0..n
        invariant
            n == names@.len(),
            n == values@.len(),
            out@.len() == k,
            forall|i: int|
                0 <= i < k ==> (#[trigger] out@[i]).0@ == names@[i]@ && out@[i].1 == values@[i],
    {
        let ghost prev = out@;
        let pair = (String::from_str(names[k].as_str()), values[k]);
        out.push(pair);
        proof {
            assert(out@ == prev.push(pair));
            assert(forall|i: int| 0 <= i < k ==> #[trigger] out@[i] == prev[i]);
        }
    }
    out
}

/// The merged mapping names exactly the frozen name list: its key sequence
/// is the name list itself, so its key set is the name list's set, whatever
/// the computed values were.
pub proof fn lemma_merged_keys(pairs: Seq<(String, u64)>, names: Seq<String>)
    requires
        pairs.len() == names.len(),
        forall|i: int| 0 <= i < names.len() ==> (#[trigger] pairs[i]).0@ == names[i]@,
    ensures
        pairs.map(|i: int, p: (String, u64)| p.0@) == views_of(names),
        pairs.map(|i: int, p: (String, u64)| p.0@).to_set() == views_of(names).to_set(),
{
    assert(pairs.map(|i: int, p: (String, u64)| p.0@) =~= views_of(names));
}

} // verus!
