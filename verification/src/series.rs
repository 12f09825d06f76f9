//! Parallel time-series storage.

use vstd::prelude::*;
use crate::curve::Observation;

verus! {

/// Three parallel sequences of equal length: per-observation time, value and
/// weight, each carried as the bit pattern of a 64-bit float. In magnitude
/// space the weight is `1 / err^2`; a flux-space series derived from it keeps
/// the same times with its own values and weights.
pub struct TimeSeries {
    pub time: Vec<u64>,
    pub value: Vec<u64>,
    pub weight: Vec<u64>,
}

impl TimeSeries {
    /// The parallel sequences have equal length.
    pub open spec fn wf(self) -> bool {
        self.time@.len() == self.value@.len() && self.time@.len() == self.weight@.len()
    }

    /// Number of observations in the series.
    pub open spec fn spec_len(self) -> nat {
        self.time@.len()
    }

    pub fn len(&self) -> (n: usize)
        ensures
            n == self.spec_len(),
    {
        self.time.len()
    }
}

/// Package a light curve and its per-observation weights into a time series:
/// `time[i]` and `value[i]` come from the `i`-th observation, `weight[i]`
/// from the weight vector. Returns nothing when the weight vector does not
/// match the curve in length.
pub fn series_from_curve(curve: &Vec<Observation>, weights: &Vec<u64>) -> (r: Option<TimeSeries>)
    ensures
        r is Some <==> curve@.len() == weights@.len(),
        r matches Some(ts) ==> {
            &&& ts.wf()
            &&& ts.spec_len() == curve@.len()
            &&& ts.time@ == curve@.map(|i: int, o: Observation| o.t_bits)
            &&& ts.value@ == curve@.map(|i: int, o: Observation| o.m_bits)
            &&& ts.weight@ == weights@
        },
{
    if curve.len() != weights.len() {
        return None;
    }
    let n = curve.len();
    let mut time: Vec<u64> = Vec::new();
    let mut value: Vec<u64> = Vec::new();
    for k in 0..n
        invariant
            n == curve@.len(),
            time@ == curve@.subrange(0, k as int).map(|i: int, o: Observation| o.t_bits),
            value@ == curve@.subrange(0, k as int).map(|i: int, o: Observation| o.m_bits),
    {
        time.push(curve[k].t_bits);
        value.push(curve[k].m_bits);
        proof {
            assert(curve@.subrange(0, k + 1 as int) =~= curve@.subrange(0, k as int).push(
                curve@[k as int],
            ));
            assert(curve@.subrange(0, k + 1 as int).map(|i: int, o: Observation| o.t_bits)
                =~= curve@.subrange(0, k as int).map(|i: int, o: Observation| o.t_bits).push(
                curve@[k as int].t_bits,
            ));
            assert(curve@.subrange(0, k + 1 as int).map(|i: int, o: Observation| o.m_bits)
                =~= curve@.subrange(0, k as int).map(|i: int, o: Observation| o.m_bits).push(
                curve@[k as int].m_bits,
            ));
        }
    }
    proof {
        assert(curve@.subrange(0, n as int) =~= curve@);
    }
    let weight = copy_bits(weights);
    Some(TimeSeries { time, value, weight })
}

/// Copy of a bit-pattern vector, element for element.
fn copy_bits(v: &Vec<u64>) -> (r: Vec<u64>)
    ensures
        r@ == v@,
{
    let mut out: Vec<u64> = Vec::new();
    let n = v.len();
    for k in 0..n
        invariant
            n == v@.len(),
            out@ == v@.subrange(0, k as int),
    {
        out.push(v[k]);
        proof {
            assert(v@.subrange(0, k + 1 as int) =~= v@.subrange(0, k as int).push(v@[k as int]));
        }
    }
    proof {
        assert(v@.subrange(0, n as int) =~= v@);
    }
    out
}

/// Derive a flux-space series from a magnitude-space one: it reads the same
/// time sequence and owns freshly computed values and weights. Returns
/// nothing when either vector does not match the series in length.
pub fn flux_series(mag: &TimeSeries, flux_values: &Vec<u64>, flux_weights: &Vec<u64>) -> (r: Option<
    TimeSeries,
>)
    ensures
        r is Some <==> (mag.spec_len() == flux_values@.len() && mag.spec_len()
            == flux_weights@.len()),
        r matches Some(ts) ==> {
            &&& ts.wf()
            &&& ts.spec_len() == mag.spec_len()
            &&& ts.time@ == mag.time@
            &&& ts.value@ == flux_values@
            &&& ts.weight@ == flux_weights@
        },
{
    if mag.time.len() != flux_values.len() || mag.time.len() != flux_weights.len() {
        return None;
    }
    Some(
        TimeSeries {
            time: copy_bits(&mag.time),
            value: copy_bits(flux_values),
            weight: copy_bits(flux_weights),
        },
    )
}

} // verus!
