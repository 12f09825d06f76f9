//! The frozen per-version feature-bank blueprints.
//!
//! Each API version binds to an ordered, immutable list of evaluator
//! entries — which evaluator kinds, with which fixed parameters (carried as
//! the bit patterns of the 64-bit floats the evaluators take), wrapped in
//! which value transformers, in which order. The blueprints are plain data
//! with exact contracts; the shell converts each entry one for one into the
//! outside feature library's evaluators. The transformer wiring of every
//! blueprint is validated here against each evaluator's output arity — the
//! construction-time check whose failure is a `ConfigurationError`.

use vstd::prelude::*;
use crate::bank::{lemma_slots_sum_nonneg, spec_slots_sum, spec_transformer_accepts, Transform,
    Transformer};
use crate::error::PipelineError;
use crate::version::{PeriodogramSettings, NyquistPolicy, Version, CAP_300S_BITS, DAILY_24_BITS,
    HOUR_IN_DAYS_BITS, ONE_BITS, TEN_BITS, TWO_BITS};

verus! {

/// Bit pattern of the 64-bit float `0.0`.
pub const ZERO_BITS: u64 = 0;

/// Bit pattern of the 64-bit float `3.0`.
pub const THREE_BITS: u64 = 0x4008_0000_0000_0000;

/// Bit pattern of the 64-bit float `0.02`.
pub const Q02_BITS: u64 = 0x3F94_7AE1_47AE_147B;

/// Bit pattern of the 64-bit float `0.05`.
pub const Q05_BITS: u64 = 0x3FA9_9999_9999_999A;

/// Bit pattern of the 64-bit float `0.1`.
pub const Q10_BITS: u64 = 0x3FB9_9999_9999_999A;

/// Bit pattern of the 64-bit float `0.2`.
pub const Q20_BITS: u64 = 0x3FC9_9999_9999_999A;

/// Bit pattern of the 64-bit float `0.25`.
pub const Q25_BITS: u64 = 0x3FD0_0000_0000_0000;

/// Bit pattern of the 64-bit float `0.4`.
pub const Q40_BITS: u64 = 0x3FD9_9999_9999_999A;

/// A single feature evaluator, with its fixed parameters as float bit
/// patterns.
#[derive(Clone, Copy, PartialEq, Eq, Structural, Debug)]
pub enum LeafKind {
    Amplitude,
    AndersonDarlingNormal,
    BazinFit,
    BeyondNStd { n_bits: u64 },
    Cusum,
    Eta,
    EtaE,
    ExcessVariance,
    InterPercentileRange { q_bits: u64 },
    Kurtosis,
    LinearFit,
    LinearTrend,
    MagnitudePercentageRatio { q_bits: u64, q_low_bits: u64 },
    MaximumSlope,
    Mean,
    MeanVariance,
    MedianAbsoluteDeviation,
    MedianBufferRangePercentage { q_bits: u64 },
    OtsuSplit,
    PercentAmplitude,
    PercentDifferenceMagnitudePercentile { q_bits: u64 },
    ReducedChi2,
    Skew,
    StandardDeviation,
    StetsonK,
    WeightedMean,
}

/// A member of a composite sub-pipeline: one single evaluator, possibly
/// wrapped in a value transformer.
#[derive(Debug)]
pub struct LeafSpec {
    pub kind: LeafKind,
    pub transformer: Option<Transformer>,
}

/// One entry of a bank: a single evaluator, a time-binning sub-pipeline
/// over member evaluators, or a periodogram sub-pipeline aggregating member
/// evaluators over the frequency domain.
#[derive(Debug)]
pub enum EvaluatorKind {
    Leaf(LeafKind),
    Bins { window_bits: u64, offset_bits: u64, members: Vec<LeafSpec> },
    Periodogram { settings: PeriodogramSettings, members: Vec<LeafSpec> },
}

/// One entry of a bank, possibly wrapped in a value transformer.
#[derive(Debug)]
pub struct EvaluatorSpec {
    pub kind: EvaluatorKind,
    pub transformer: Option<Transformer>,
}

/// Output arity of a single evaluator: how many scalars it yields.
pub open spec fn spec_leaf_arity(k: LeafKind) -> nat {
    match k {
        LeafKind::LinearFit => 3,
        LeafKind::LinearTrend => 3,
        LeafKind::OtsuSplit => 4,
        LeafKind::BazinFit => 6,
        _ => 1,
    }
}

/// A member's transformer, if any, fits the member's arity.
pub open spec fn leaf_wiring_valid(m: LeafSpec) -> bool {
    match m.transformer {
        Option::None => true,
        Option::Some(tr) => spec_transformer_accepts(tr, spec_leaf_arity(m.kind)),
    }
}

/// An entry's transformer wiring is sound: a single evaluator's transformer
/// fits its arity, and a sub-pipeline carries no transformer of its own
/// while each of its members' transformers fits that member.
pub open spec fn wiring_valid(e: EvaluatorSpec) -> bool {
    match e.kind {
        EvaluatorKind::Leaf(l) => match e.transformer {
            Option::None => true,
            Option::Some(tr) => spec_transformer_accepts(tr, spec_leaf_arity(l)),
        },
        EvaluatorKind::Bins { members, .. } => e.transformer is None && forall|i: int|
            0 <= i < members@.len() ==> leaf_wiring_valid(#[trigger] members@[i]),
        EvaluatorKind::Periodogram { members, .. } => e.transformer is None && forall|i: int|
            0 <= i < members@.len() ==> leaf_wiring_valid(#[trigger] members@[i]),
    }
}

pub fn leaf_arity(k: LeafKind) -> (n: usize)
    ensures
        n == spec_leaf_arity(k),
{
    match k {
        LeafKind::LinearFit => 3,
        LeafKind::LinearTrend => 3,
        LeafKind::OtsuSplit => 4,
        LeafKind::BazinFit => 6,
        _ => 1,
    }
}

/// Whether a transformer fits an evaluator of the given arity, as
/// `transform_evaluator` decides it.
pub fn transformer_fits(tr: &Transformer, arity: usize) -> (b: bool)
    ensures
        b == spec_transformer_accepts(*tr, arity as nat),
{
    match tr {
        Transformer::Uniform(_) => true,
        Transformer::BazinFit => arity == 6,
        Transformer::Composed(slots) => {
            let n_slots = slots.len();
            let mut remaining = arity;
            proof {
                assert(slots@.skip(0) =~= slots@);
            }
            for si in 0..n_slots
                invariant
                    *tr is Composed,
                    (*tr)->Composed_0 == *slots,
                    n_slots == slots@.len(),
                    0 <= remaining <= arity,
                    arity - remaining + spec_slots_sum(slots@.skip(si as int)) == spec_slots_sum(
                        slots@,
                    ),
            {
                proof {
                    assert(slots@.skip(si as int)[0] == slots@[si as int]);
                    assert(slots@.skip(si as int).drop_first() =~= slots@.skip(si + 1 as int));
                }
                let c = slots[si].1;
                if c > remaining {
                    proof {
                        lemma_slots_sum_nonneg(slots@.skip(si + 1 as int));
                        assert(spec_slots_sum(slots@) > arity);
                    }
                    return false;
                }
                remaining -= c;
            }
            proof {
                assert(slots@.skip(n_slots as int) =~= Seq::<(Transform, usize)>::empty());
            }
            remaining == 0
        },
    }
}

fn leaf_ok(m: &LeafSpec) -> (b: bool)
    ensures
        b == leaf_wiring_valid(*m),
{
    match &m.transformer {
        Option::None => true,
        Option::Some(tr) => transformer_fits(tr, leaf_arity(m.kind)),
    }
}

fn members_ok(members: &Vec<LeafSpec>) -> (b: bool)
    ensures
        b == forall|i: int| 0 <= i < members@.len() ==> leaf_wiring_valid(#[trigger] members@[i]),
{
    let n = members.len();
    for k in 0..n
        invariant
            n == members@.len(),
            forall|i: int| 0 <= i < k ==> leaf_wiring_valid(#[trigger] members@[i]),
    {
        if !leaf_ok(&members[k]) {
            return false;
        }
    }
    true
}

fn entry_ok(e: &EvaluatorSpec) -> (b: bool)
    ensures
        b == wiring_valid(*e),
{
    match &e.kind {
        EvaluatorKind::Leaf(l) => match &e.transformer {
            Option::None => true,
            Option::Some(tr) => transformer_fits(tr, leaf_arity(*l)),
        },
        EvaluatorKind::Bins { members, .. } => e.transformer.is_none() && members_ok(members),
        EvaluatorKind::Periodogram { members, .. } => e.transformer.is_none() && members_ok(
            members,
        ),
    }
}

/// Validate a bank blueprint's transformer wiring: succeeds exactly when
/// every entry's wiring is sound, and reports a `ConfigurationError`
/// otherwise. This is the construction-time check of a frozen
/// configuration; a failure is fatal at startup, never per-request.
pub fn validate_bank(entries: &Vec<EvaluatorSpec>) -> (r: Result<(), PipelineError>)
    ensures
        r is Ok <==> forall|i: int| 0 <= i < entries@.len() ==> wiring_valid(
            #[trigger] entries@[i],
        ),
        r matches Err(e) ==> e is ConfigurationError,
{
    let n = entries.len();
    for k in 0..n
        invariant
            n == entries@.len(),
            forall|i: int| 0 <= i < k ==> wiring_valid(#[trigger] entries@[i]),
    {
        if !entry_ok(&entries[k]) {
            return Err(PipelineError::ConfigurationError);
        }
    }
    Ok(())
}


/// The entry is a bare single evaluator.
pub open spec fn plain_leaf(e: EvaluatorSpec, k: LeafKind) -> bool {
    e.kind == EvaluatorKind::Leaf(k) && e.transformer is None
}

/// The entry is a single evaluator under one uniform transform.
pub open spec fn uniform_leaf(e: EvaluatorSpec, k: LeafKind, t: Transform) -> bool {
    &&& e.kind == EvaluatorKind::Leaf(k)
    &&& e.transformer matches Some(tr) && tr == Transformer::Uniform(t)
}

/// The entry is a single evaluator under a composed transformer with the
/// given slots.
pub open spec fn composed_leaf(e: EvaluatorSpec, k: LeafKind, slots: Seq<(Transform, usize)>) -> bool {
    &&& e.kind == EvaluatorKind::Leaf(k)
    &&& e.transformer matches Some(tr) && tr matches Transformer::Composed(v) && v@ == slots
}

/// The entry is the Bazin-function fit under its own transformer.
pub open spec fn bazin_entry(e: EvaluatorSpec) -> bool {
    &&& e.kind == EvaluatorKind::Leaf(LeafKind::BazinFit)
    &&& e.transformer matches Some(tr) && tr is BazinFit
}

/// The member is a bare single evaluator.
pub open spec fn plain_member(m: LeafSpec, k: LeafKind) -> bool {
    m.kind == k && m.transformer is None
}

/// The member is a single evaluator under one uniform transform.
pub open spec fn uniform_member(m: LeafSpec, k: LeafKind, t: Transform) -> bool {
    m.kind == k && (m.transformer matches Some(tr) && tr == Transformer::Uniform(t))
}

/// The member is a single evaluator under a composed transformer with the
/// given slots.
pub open spec fn composed_member(m: LeafSpec, k: LeafKind, slots: Seq<(Transform, usize)>) -> bool {
    m.kind == k && (m.transformer matches Some(tr) && tr matches Transformer::Composed(v) && v@
        == slots)
}

/// The oldest version's periodogram aggregates eight sub-evaluators.
pub open spec fn v0_1_periodogram_members(m: Seq<LeafSpec>) -> bool {
    &&& m.len() == 8
    &&& plain_member(m[0], LeafKind::Amplitude)
    &&& plain_member(m[1], (LeafKind::BeyondNStd { n_bits: ONE_BITS }))
    &&& plain_member(m[2], (LeafKind::BeyondNStd { n_bits: TWO_BITS }))
    &&& plain_member(m[3], LeafKind::Cusum)
    &&& plain_member(m[4], LeafKind::Eta)
    &&& plain_member(m[5], (LeafKind::InterPercentileRange { q_bits: Q25_BITS }))
    &&& plain_member(m[6], LeafKind::StandardDeviation)
    &&& plain_member(m[7], LeafKind::PercentAmplitude)
}

/// The middle versions' periodogram aggregates four sub-evaluators.
pub open spec fn middle_periodogram_members(m: Seq<LeafSpec>) -> bool {
    &&& m.len() == 4
    &&& plain_member(m[0], LeafKind::Amplitude)
    &&& plain_member(m[1], (LeafKind::BeyondNStd { n_bits: TWO_BITS }))
    &&& plain_member(m[2], (LeafKind::BeyondNStd { n_bits: THREE_BITS }))
    &&& plain_member(m[3], LeafKind::StandardDeviation)
}

/// The newest version's binning sub-pipeline: five members, four of them
/// value-transformed.
pub open spec fn v0_5_bins_members(m: Seq<LeafSpec>) -> bool {
    &&& m.len() == 5
    &&& plain_member(m[0], LeafKind::Cusum)
    &&& uniform_member(m[1], LeafKind::EtaE, Transform::Ln1p)
    &&& composed_member(m[2], LeafKind::LinearFit, seq![(Transform::Arcsinh, 1usize), (Transform::Lg, 1usize), (Transform::Ln1p, 1usize)])
    &&& composed_member(m[3], LeafKind::LinearTrend, seq![(Transform::Arcsinh, 1usize), (Transform::Lg, 1usize), (Transform::Lg, 1usize)])
    &&& uniform_member(m[4], LeafKind::MaximumSlope, Transform::Lg)
}

/// The magnitude bank the oldest version froze.
pub open spec fn v0_1_magnitude_blueprint(r: Seq<EvaluatorSpec>) -> bool {
    &&& r.len() == 26
    &&& plain_leaf(r[0], LeafKind::Amplitude)
    &&& plain_leaf(r[1], (LeafKind::BeyondNStd { n_bits: ONE_BITS }))
    &&& plain_leaf(r[2], (LeafKind::BeyondNStd { n_bits: TWO_BITS }))
    &&& plain_leaf(r[3], LeafKind::Cusum)
    &&& plain_leaf(r[4], LeafKind::Eta)
    &&& plain_leaf(r[5], LeafKind::EtaE)
    &&& plain_leaf(r[6], (LeafKind::InterPercentileRange { q_bits: Q25_BITS }))
    &&& plain_leaf(r[7], (LeafKind::InterPercentileRange { q_bits: Q10_BITS }))
    &&& plain_leaf(r[8], LeafKind::Kurtosis)
    &&& plain_leaf(r[9], LeafKind::LinearFit)
    &&& plain_leaf(r[10], LeafKind::LinearTrend)
    &&& plain_leaf(r[11], (LeafKind::MagnitudePercentageRatio { q_bits: Q40_BITS, q_low_bits: Q05_BITS }))
    &&& plain_leaf(r[12], (LeafKind::MagnitudePercentageRatio { q_bits: Q20_BITS, q_low_bits: Q10_BITS }))
    &&& plain_leaf(r[13], LeafKind::MaximumSlope)
    &&& plain_leaf(r[14], LeafKind::Mean)
    &&& plain_leaf(r[15], LeafKind::MedianAbsoluteDeviation)
    &&& plain_leaf(r[16], (LeafKind::MedianBufferRangePercentage { q_bits: Q05_BITS }))
    &&& plain_leaf(r[17], LeafKind::PercentAmplitude)
    &&& plain_leaf(r[18], (LeafKind::PercentDifferenceMagnitudePercentile { q_bits: Q05_BITS }))
    &&& plain_leaf(r[19], (LeafKind::PercentDifferenceMagnitudePercentile { q_bits: Q20_BITS }))
    &&& r[20].transformer is None
    &&& r[20].kind matches EvaluatorKind::Periodogram { settings, members } && settings == (PeriodogramSettings { peaks: 3, freq_resolution_bits: None, max_freq_factor_bits: TWO_BITS, nyquist: NyquistPolicy::TruncatedMedian { max_freq_bits: CAP_300S_BITS } }) && v0_1_periodogram_members(members@)
    &&& plain_leaf(r[21], LeafKind::ReducedChi2)
    &&& plain_leaf(r[22], LeafKind::Skew)
    &&& plain_leaf(r[23], LeafKind::StandardDeviation)
    &&& plain_leaf(r[24], LeafKind::StetsonK)
    &&& plain_leaf(r[25], LeafKind::WeightedMean)
}

/// The magnitude bank the first two-bank version froze.
pub open spec fn v0_2_magnitude_blueprint(r: Seq<EvaluatorSpec>) -> bool {
    &&& r.len() == 28
    &&& plain_leaf(r[0], LeafKind::Amplitude)
    &&& plain_leaf(r[1], LeafKind::AndersonDarlingNormal)
    &&& plain_leaf(r[2], (LeafKind::BeyondNStd { n_bits: ONE_BITS }))
    &&& plain_leaf(r[3], (LeafKind::BeyondNStd { n_bits: TWO_BITS }))
    &&& plain_leaf(r[4], LeafKind::Cusum)
    &&& plain_leaf(r[5], LeafKind::EtaE)
    &&& plain_leaf(r[6], (LeafKind::InterPercentileRange { q_bits: Q02_BITS }))
    &&& plain_leaf(r[7], (LeafKind::InterPercentileRange { q_bits: Q10_BITS }))
    &&& plain_leaf(r[8], (LeafKind::InterPercentileRange { q_bits: Q25_BITS }))
    &&& plain_leaf(r[9], LeafKind::Kurtosis)
    &&& plain_leaf(r[10], LeafKind::LinearFit)
    &&& plain_leaf(r[11], LeafKind::LinearTrend)
    &&& plain_leaf(r[12], (LeafKind::MagnitudePercentageRatio { q_bits: Q40_BITS, q_low_bits: Q05_BITS }))
    &&& plain_leaf(r[13], (LeafKind::MagnitudePercentageRatio { q_bits: Q20_BITS, q_low_bits: Q05_BITS }))
    &&& plain_leaf(r[14], LeafKind::MaximumSlope)
    &&& plain_leaf(r[15], LeafKind::Mean)
    &&& plain_leaf(r[16], LeafKind::MedianAbsoluteDeviation)
    &&& plain_leaf(r[17], (LeafKind::MedianBufferRangePercentage { q_bits: Q10_BITS }))
    &&& plain_leaf(r[18], (LeafKind::MedianBufferRangePercentage { q_bits: Q20_BITS }))
    &&& plain_leaf(r[19], LeafKind::PercentAmplitude)
    &&& plain_leaf(r[20], (LeafKind::PercentDifferenceMagnitudePercentile { q_bits: Q05_BITS }))
    &&& plain_leaf(r[21], (LeafKind::PercentDifferenceMagnitudePercentile { q_bits: Q10_BITS }))
    &&& r[22].transformer is None
    &&& r[22].kind matches EvaluatorKind::Periodogram { settings, members } && settings == (PeriodogramSettings { peaks: 5, freq_resolution_bits: Some(TEN_BITS), max_freq_factor_bits: TWO_BITS, nyquist: NyquistPolicy::Average }) && middle_periodogram_members(members@)
    &&& plain_leaf(r[23], LeafKind::ReducedChi2)
    &&& plain_leaf(r[24], LeafKind::Skew)
    &&& plain_leaf(r[25], LeafKind::StandardDeviation)
    &&& plain_leaf(r[26], LeafKind::StetsonK)
    &&& plain_leaf(r[27], LeafKind::WeightedMean)
}

/// The flux bank the first two-bank version froze.
pub open spec fn v0_2_flux_blueprint(r: Seq<EvaluatorSpec>) -> bool {
    &&& r.len() == 9
    &&& plain_leaf(r[0], LeafKind::AndersonDarlingNormal)
    &&& plain_leaf(r[1], LeafKind::Cusum)
    &&& plain_leaf(r[2], LeafKind::EtaE)
    &&& plain_leaf(r[3], LeafKind::ExcessVariance)
    &&& plain_leaf(r[4], LeafKind::Kurtosis)
    &&& plain_leaf(r[5], LeafKind::MeanVariance)
    &&& plain_leaf(r[6], LeafKind::ReducedChi2)
    &&& plain_leaf(r[7], LeafKind::Skew)
    &&& plain_leaf(r[8], LeafKind::StetsonK)
}

/// The magnitude bank the middle version froze.
pub open spec fn v0_4_magnitude_blueprint(r: Seq<EvaluatorSpec>) -> bool {
    &&& r.len() == 26
    &&& plain_leaf(r[0], LeafKind::Amplitude)
    &&& plain_leaf(r[1], LeafKind::AndersonDarlingNormal)
    &&& plain_leaf(r[2], (LeafKind::BeyondNStd { n_bits: ONE_BITS }))
    &&& plain_leaf(r[3], (LeafKind::BeyondNStd { n_bits: TWO_BITS }))
    &&& plain_leaf(r[4], LeafKind::Cusum)
    &&& plain_leaf(r[5], (LeafKind::InterPercentileRange { q_bits: Q02_BITS }))
    &&& plain_leaf(r[6], (LeafKind::InterPercentileRange { q_bits: Q10_BITS }))
    &&& plain_leaf(r[7], (LeafKind::InterPercentileRange { q_bits: Q25_BITS }))
    &&& plain_leaf(r[8], LeafKind::Kurtosis)
    &&& plain_leaf(r[9], LeafKind::LinearFit)
    &&& plain_leaf(r[10], LeafKind::LinearTrend)
    &&& plain_leaf(r[11], (LeafKind::MagnitudePercentageRatio { q_bits: Q40_BITS, q_low_bits: Q05_BITS }))
    &&& plain_leaf(r[12], (LeafKind::MagnitudePercentageRatio { q_bits: Q20_BITS, q_low_bits: Q05_BITS }))
    &&& plain_leaf(r[13], LeafKind::Mean)
    &&& plain_leaf(r[14], LeafKind::MedianAbsoluteDeviation)
    &&& plain_leaf(r[15], (LeafKind::MedianBufferRangePercentage { q_bits: Q10_BITS }))
    &&& plain_leaf(r[16], (LeafKind::MedianBufferRangePercentage { q_bits: Q20_BITS }))
    &&& plain_leaf(r[17], LeafKind::PercentAmplitude)
    &&& plain_leaf(r[18], (LeafKind::PercentDifferenceMagnitudePercentile { q_bits: Q05_BITS }))
    &&& plain_leaf(r[19], (LeafKind::PercentDifferenceMagnitudePercentile { q_bits: Q10_BITS }))
    &&& r[20].transformer is None
    &&& r[20].kind matches EvaluatorKind::Periodogram { settings, members } && settings == (PeriodogramSettings { peaks: 5, freq_resolution_bits: Some(TEN_BITS), max_freq_factor_bits: ONE_BITS, nyquist: NyquistPolicy::FixedFromInterval { dt_bits: HOUR_IN_DAYS_BITS } }) && middle_periodogram_members(members@)
    &&& plain_leaf(r[21], LeafKind::ReducedChi2)
    &&& plain_leaf(r[22], LeafKind::Skew)
    &&& plain_leaf(r[23], LeafKind::StandardDeviation)
    &&& plain_leaf(r[24], LeafKind::StetsonK)
    &&& plain_leaf(r[25], LeafKind::WeightedMean)
}

/// The flux bank the middle version froze.
pub open spec fn v0_4_flux_blueprint(r: Seq<EvaluatorSpec>) -> bool {
    &&& r.len() == 8
    &&& plain_leaf(r[0], LeafKind::AndersonDarlingNormal)
    &&& plain_leaf(r[1], LeafKind::Cusum)
    &&& plain_leaf(r[2], LeafKind::ExcessVariance)
    &&& plain_leaf(r[3], LeafKind::Kurtosis)
    &&& plain_leaf(r[4], LeafKind::MeanVariance)
    &&& plain_leaf(r[5], LeafKind::ReducedChi2)
    &&& plain_leaf(r[6], LeafKind::Skew)
    &&& plain_leaf(r[7], LeafKind::StetsonK)
}

/// The magnitude bank the newest version froze.
pub open spec fn v0_5_magnitude_blueprint(r: Seq<EvaluatorSpec>) -> bool {
    &&& r.len() == 13
    &&& plain_leaf(r[0], (LeafKind::BeyondNStd { n_bits: ONE_BITS }))
    &&& plain_leaf(r[1], (LeafKind::BeyondNStd { n_bits: TWO_BITS }))
    &&& r[2].transformer is None
    &&& r[2].kind matches EvaluatorKind::Bins { window_bits, offset_bits, members } && window_bits == ONE_BITS && offset_bits == ZERO_BITS && v0_5_bins_members(members@)
    &&& uniform_leaf(r[3], (LeafKind::InterPercentileRange { q_bits: Q02_BITS }), Transform::Lg)
    &&& uniform_leaf(r[4], (LeafKind::InterPercentileRange { q_bits: Q25_BITS }), Transform::Lg)
    &&& uniform_leaf(r[5], (LeafKind::InterPercentileRange { q_bits: Q10_BITS }), Transform::Lg)
    &&& plain_leaf(r[6], LeafKind::Kurtosis)
    &&& composed_leaf(r[7], LeafKind::OtsuSplit, seq![(Transform::Lg, 1usize), (Transform::Identity, 1usize), (Transform::Identity, 1usize), (Transform::Identity, 1usize)])
    &&& r[8].transformer is None
    &&& r[8].kind matches EvaluatorKind::Periodogram { settings, members } && settings == (PeriodogramSettings { peaks: 5, freq_resolution_bits: Some(TEN_BITS), max_freq_factor_bits: TWO_BITS, nyquist: NyquistPolicy::Fixed { freq_bits: DAILY_24_BITS } }) && members@.len() == 0
    &&& uniform_leaf(r[9], LeafKind::ReducedChi2, Transform::Ln1p)
    &&& uniform_leaf(r[10], LeafKind::Skew, Transform::Arcsinh)
    &&& plain_leaf(r[11], LeafKind::StetsonK)
    &&& plain_leaf(r[12], LeafKind::WeightedMean)
}

/// The flux bank the newest version froze.
pub open spec fn v0_5_flux_blueprint(r: Seq<EvaluatorSpec>) -> bool {
    &&& r.len() == 3
    &&& uniform_leaf(r[0], LeafKind::AndersonDarlingNormal, Transform::Ln1p)
    &&& bazin_entry(r[1])
    &&& plain_leaf(r[2], LeafKind::ExcessVariance)
}


fn leaf(k: LeafKind) -> (e: EvaluatorSpec)
    ensures
        plain_leaf(e, k),
{
    EvaluatorSpec { kind: EvaluatorKind::Leaf(k), transformer: None }
}

fn leaf_with(k: LeafKind, t: Transformer) -> (e: EvaluatorSpec)
    ensures
        e.kind == EvaluatorKind::Leaf(k),
        e.transformer matches Some(tr) && tr == t,
{
    EvaluatorSpec { kind: EvaluatorKind::Leaf(k), transformer: Some(t) }
}

fn member(k: LeafKind) -> (m: LeafSpec)
    ensures
        plain_member(m, k),
{
    LeafSpec { kind: k, transformer: None }
}

fn member_with(k: LeafKind, t: Transformer) -> (m: LeafSpec)
    ensures
        m.kind == k,
        m.transformer matches Some(tr) && tr == t,
{
    LeafSpec { kind: k, transformer: Some(t) }
}

/// A composed transformer of three single-slot members.
fn composed3(a: Transform, b: Transform, c: Transform) -> (tr: Transformer)
    ensures
        tr matches Transformer::Composed(v) && v@ == seq![(a, 1usize), (b, 1usize), (c, 1usize)],
{
    let mut slots: Vec<(Transform, usize)> = Vec::new();
    slots.push((a, 1));
    slots.push((b, 1));
    slots.push((c, 1));
    proof {
        assert(slots@ =~= seq![(a, 1usize), (b, 1usize), (c, 1usize)]);
    }
    Transformer::Composed(slots)
}

/// A composed transformer of four single-slot members.
fn composed4(a: Transform, b: Transform, c: Transform, d: Transform) -> (tr: Transformer)
    ensures
        tr matches Transformer::Composed(v) && v@ == seq![
            (a, 1usize),
            (b, 1usize),
            (c, 1usize),
            (d, 1usize),
        ],
{
    let mut slots: Vec<(Transform, usize)> = Vec::new();
    slots.push((a, 1));
    slots.push((b, 1));
    slots.push((c, 1));
    slots.push((d, 1));
    proof {
        assert(slots@ =~= seq![(a, 1usize), (b, 1usize), (c, 1usize), (d, 1usize)]);
    }
    Transformer::Composed(slots)
}

fn v0_1_periodogram_entry() -> (e: EvaluatorSpec)
    ensures
        e.transformer is None,
        e.kind matches EvaluatorKind::Periodogram { settings, members } && settings
            == (PeriodogramSettings {
            peaks: 3,
            freq_resolution_bits: None,
            max_freq_factor_bits: TWO_BITS,
            nyquist: NyquistPolicy::TruncatedMedian { max_freq_bits: CAP_300S_BITS },
        }) && v0_1_periodogram_members(members@),
{
    let mut m: Vec<LeafSpec> = Vec::new();
    m.push(member(LeafKind::Amplitude));
    m.push(member(LeafKind::BeyondNStd { n_bits: ONE_BITS }));
    m.push(member(LeafKind::BeyondNStd { n_bits: TWO_BITS }));
    m.push(member(LeafKind::Cusum));
    m.push(member(LeafKind::Eta));
    m.push(member(LeafKind::InterPercentileRange { q_bits: Q25_BITS }));
    m.push(member(LeafKind::StandardDeviation));
    m.push(member(LeafKind::PercentAmplitude));
    EvaluatorSpec {
        kind: EvaluatorKind::Periodogram {
            settings: crate::version::periodogram_settings(Version::V0_1),
            members: m,
        },
        transformer: None,
    }
}

fn middle_periodogram_entry(v: Version) -> (e: EvaluatorSpec)
    requires
        v is V0_2 || v is V0_4,
    ensures
        e.transformer is None,
        v is V0_2 ==> (e.kind matches EvaluatorKind::Periodogram { settings, members } && settings
            == (PeriodogramSettings {
            peaks: 5,
            freq_resolution_bits: Some(TEN_BITS),
            max_freq_factor_bits: TWO_BITS,
            nyquist: NyquistPolicy::Average,
        }) && middle_periodogram_members(members@)),
        v is V0_4 ==> (e.kind matches EvaluatorKind::Periodogram { settings, members } && settings
            == (PeriodogramSettings {
            peaks: 5,
            freq_resolution_bits: Some(TEN_BITS),
            max_freq_factor_bits: ONE_BITS,
            nyquist: NyquistPolicy::FixedFromInterval { dt_bits: HOUR_IN_DAYS_BITS },
        }) && middle_periodogram_members(members@)),
{
    let mut m: Vec<LeafSpec> = Vec::new();
    m.push(member(LeafKind::Amplitude));
    m.push(member(LeafKind::BeyondNStd { n_bits: TWO_BITS }));
    m.push(member(LeafKind::BeyondNStd { n_bits: THREE_BITS }));
    m.push(member(LeafKind::StandardDeviation));
    EvaluatorSpec {
        kind: EvaluatorKind::Periodogram {
            settings: crate::version::periodogram_settings(v),
            members: m,
        },
        transformer: None,
    }
}

#[verifier::rlimit(60)]
fn v0_1_magnitude() -> (r: Vec<EvaluatorSpec>)
    ensures
        v0_1_magnitude_blueprint(r@),
{
    let mut r: Vec<EvaluatorSpec> = Vec::new();
    r.push(leaf(LeafKind::Amplitude));
    r.push(leaf(LeafKind::BeyondNStd { n_bits: ONE_BITS }));
    r.push(leaf(LeafKind::BeyondNStd { n_bits: TWO_BITS }));
    r.push(leaf(LeafKind::Cusum));
    r.push(leaf(LeafKind::Eta));
    r.push(leaf(LeafKind::EtaE));
    r.push(leaf(LeafKind::InterPercentileRange { q_bits: Q25_BITS }));
    r.push(leaf(LeafKind::InterPercentileRange { q_bits: Q10_BITS }));
    r.push(leaf(LeafKind::Kurtosis));
    r.push(leaf(LeafKind::LinearFit));
    r.push(leaf(LeafKind::LinearTrend));
    r.push(leaf(LeafKind::MagnitudePercentageRatio { q_bits: Q40_BITS, q_low_bits: Q05_BITS }));
    r.push(leaf(LeafKind::MagnitudePercentageRatio { q_bits: Q20_BITS, q_low_bits: Q10_BITS }));
    r.push(leaf(LeafKind::MaximumSlope));
    r.push(leaf(LeafKind::Mean));
    r.push(leaf(LeafKind::MedianAbsoluteDeviation));
    r.push(leaf(LeafKind::MedianBufferRangePercentage { q_bits: Q05_BITS }));
    r.push(leaf(LeafKind::PercentAmplitude));
    r.push(leaf(LeafKind::PercentDifferenceMagnitudePercentile { q_bits: Q05_BITS }));
    r.push(leaf(LeafKind::PercentDifferenceMagnitudePercentile { q_bits: Q20_BITS }));
    r.push(v0_1_periodogram_entry());
    r.push(leaf(LeafKind::ReducedChi2));
    r.push(leaf(LeafKind::Skew));
    r.push(leaf(LeafKind::StandardDeviation));
    r.push(leaf(LeafKind::StetsonK));
    r.push(leaf(LeafKind::WeightedMean));
    r
}

#[verifier::rlimit(60)]
fn v0_2_magnitude() -> (r: Vec<EvaluatorSpec>)
    ensures
        v0_2_magnitude_blueprint(r@),
{
    let mut r: Vec<EvaluatorSpec> = Vec::new();
    r.push(leaf(LeafKind::Amplitude));
    r.push(leaf(LeafKind::AndersonDarlingNormal));
    r.push(leaf(LeafKind::BeyondNStd { n_bits: ONE_BITS }));
    r.push(leaf(LeafKind::BeyondNStd { n_bits: TWO_BITS }));
    r.push(leaf(LeafKind::Cusum));
    r.push(leaf(LeafKind::EtaE));
    r.push(leaf(LeafKind::InterPercentileRange { q_bits: Q02_BITS }));
    r.push(leaf(LeafKind::InterPercentileRange { q_bits: Q10_BITS }));
    r.push(leaf(LeafKind::InterPercentileRange { q_bits: Q25_BITS }));
    r.push(leaf(LeafKind::Kurtosis));
    r.push(leaf(LeafKind::LinearFit));
    r.push(leaf(LeafKind::LinearTrend));
    r.push(leaf(LeafKind::MagnitudePercentageRatio { q_bits: Q40_BITS, q_low_bits: Q05_BITS }));
    r.push(leaf(LeafKind::MagnitudePercentageRatio { q_bits: Q20_BITS, q_low_bits: Q05_BITS }));
    r.push(leaf(LeafKind::MaximumSlope));
    r.push(leaf(LeafKind::Mean));
    r.push(leaf(LeafKind::MedianAbsoluteDeviation));
    r.push(leaf(LeafKind::MedianBufferRangePercentage { q_bits: Q10_BITS }));
    r.push(leaf(LeafKind::MedianBufferRangePercentage { q_bits: Q20_BITS }));
    r.push(leaf(LeafKind::PercentAmplitude));
    r.push(leaf(LeafKind::PercentDifferenceMagnitudePercentile { q_bits: Q05_BITS }));
    r.push(leaf(LeafKind::PercentDifferenceMagnitudePercentile { q_bits: Q10_BITS }));
    r.push(middle_periodogram_entry(Version::V0_2));
    r.push(leaf(LeafKind::ReducedChi2));
    r.push(leaf(LeafKind::Skew));
    r.push(leaf(LeafKind::StandardDeviation));
    r.push(leaf(LeafKind::StetsonK));
    r.push(leaf(LeafKind::WeightedMean));
    r
}

fn v0_2_flux() -> (r: Vec<EvaluatorSpec>)
    ensures
        v0_2_flux_blueprint(r@),
{
    let mut r: Vec<EvaluatorSpec> = Vec::new();
    r.push(leaf(LeafKind::AndersonDarlingNormal));
    r.push(leaf(LeafKind::Cusum));
    r.push(leaf(LeafKind::EtaE));
    r.push(leaf(LeafKind::ExcessVariance));
    r.push(leaf(LeafKind::Kurtosis));
    r.push(leaf(LeafKind::MeanVariance));
    r.push(leaf(LeafKind::ReducedChi2));
    r.push(leaf(LeafKind::Skew));
    r.push(leaf(LeafKind::StetsonK));
    r
}

#[verifier::rlimit(60)]
fn v0_4_magnitude() -> (r: Vec<EvaluatorSpec>)
    ensures
        v0_4_magnitude_blueprint(r@),
{
    let mut r: Vec<EvaluatorSpec> = Vec::new();
    r.push(leaf(LeafKind::Amplitude));
    r.push(leaf(LeafKind::AndersonDarlingNormal));
    r.push(leaf(LeafKind::BeyondNStd { n_bits: ONE_BITS }));
    r.push(leaf(LeafKind::BeyondNStd { n_bits: TWO_BITS }));
    r.push(leaf(LeafKind::Cusum));
    r.push(leaf(LeafKind::InterPercentileRange { q_bits: Q02_BITS }));
    r.push(leaf(LeafKind::InterPercentileRange { q_bits: Q10_BITS }));
    r.push(leaf(LeafKind::InterPercentileRange { q_bits: Q25_BITS }));
    r.push(leaf(LeafKind::Kurtosis));
    r.push(leaf(LeafKind::LinearFit));
    r.push(leaf(LeafKind::LinearTrend));
    r.push(leaf(LeafKind::MagnitudePercentageRatio { q_bits: Q40_BITS, q_low_bits: Q05_BITS }));
    r.push(leaf(LeafKind::MagnitudePercentageRatio { q_bits: Q20_BITS, q_low_bits: Q05_BITS }));
    r.push(leaf(LeafKind::Mean));
    r.push(leaf(LeafKind::MedianAbsoluteDeviation));
    r.push(leaf(LeafKind::MedianBufferRangePercentage { q_bits: Q10_BITS }));
    r.push(leaf(LeafKind::MedianBufferRangePercentage { q_bits: Q20_BITS }));
    r.push(leaf(LeafKind::PercentAmplitude));
    r.push(leaf(LeafKind::PercentDifferenceMagnitudePercentile { q_bits: Q05_BITS }));
    r.push(leaf(LeafKind::PercentDifferenceMagnitudePercentile { q_bits: Q10_BITS }));
    r.push(middle_periodogram_entry(Version::V0_4));
    r.push(leaf(LeafKind::ReducedChi2));
    r.push(leaf(LeafKind::Skew));
    r.push(leaf(LeafKind::StandardDeviation));
    r.push(leaf(LeafKind::StetsonK));
    r.push(leaf(LeafKind::WeightedMean));
    r
}

fn v0_4_flux() -> (r: Vec<EvaluatorSpec>)
    ensures
        v0_4_flux_blueprint(r@),
{
    let mut r: Vec<EvaluatorSpec> = Vec::new();
    r.push(leaf(LeafKind::AndersonDarlingNormal));
    r.push(leaf(LeafKind::Cusum));
    r.push(leaf(LeafKind::ExcessVariance));
    r.push(leaf(LeafKind::Kurtosis));
    r.push(leaf(LeafKind::MeanVariance));
    r.push(leaf(LeafKind::ReducedChi2));
    r.push(leaf(LeafKind::Skew));
    r.push(leaf(LeafKind::StetsonK));
    r
}

fn v0_5_bins_entry() -> (e: EvaluatorSpec)
    ensures
        e.transformer is None,
        e.kind matches EvaluatorKind::Bins { window_bits, offset_bits, members } && window_bits
            == ONE_BITS && offset_bits == ZERO_BITS && v0_5_bins_members(members@),
{
    let mut m: Vec<LeafSpec> = Vec::new();
    m.push(member(LeafKind::Cusum));
    m.push(member_with(LeafKind::EtaE, Transformer::Uniform(Transform::Ln1p)));
    m.push(
        member_with(
            LeafKind::LinearFit,
            composed3(Transform::Arcsinh, Transform::Lg, Transform::Ln1p),
        ),
    );
    m.push(
        member_with(
            LeafKind::LinearTrend,
            composed3(Transform::Arcsinh, Transform::Lg, Transform::Lg),
        ),
    );
    m.push(member_with(LeafKind::MaximumSlope, Transformer::Uniform(Transform::Lg)));
    EvaluatorSpec {
        kind: EvaluatorKind::Bins { window_bits: ONE_BITS, offset_bits: ZERO_BITS, members: m },
        transformer: None,
    }
}

#[verifier::rlimit(60)]
fn v0_5_magnitude() -> (r: Vec<EvaluatorSpec>)
    ensures
        v0_5_magnitude_blueprint(r@),
{
    let mut r: Vec<EvaluatorSpec> = Vec::new();
    r.push(leaf(LeafKind::BeyondNStd { n_bits: ONE_BITS }));
    r.push(leaf(LeafKind::BeyondNStd { n_bits: TWO_BITS }));
    r.push(v0_5_bins_entry());
    r.push(
        leaf_with(
            LeafKind::InterPercentileRange { q_bits: Q02_BITS },
            Transformer::Uniform(Transform::Lg),
        ),
    );
    r.push(
        leaf_with(
            LeafKind::InterPercentileRange { q_bits: Q25_BITS },
            Transformer::Uniform(Transform::Lg),
        ),
    );
    r.push(
        leaf_with(
            LeafKind::InterPercentileRange { q_bits: Q10_BITS },
            Transformer::Uniform(Transform::Lg),
        ),
    );
    r.push(leaf(LeafKind::Kurtosis));
    r.push(
        leaf_with(
            LeafKind::OtsuSplit,
            composed4(Transform::Lg, Transform::Identity, Transform::Identity, Transform::Identity),
        ),
    );
    let pgram = EvaluatorSpec {
        kind: EvaluatorKind::Periodogram {
            settings: crate::version::periodogram_settings(Version::V0_5),
            members: Vec::new(),
        },
        transformer: None,
    };
    r.push(pgram);
    r.push(leaf_with(LeafKind::ReducedChi2, Transformer::Uniform(Transform::Ln1p)));
    r.push(leaf_with(LeafKind::Skew, Transformer::Uniform(Transform::Arcsinh)));
    r.push(leaf(LeafKind::StetsonK));
    r.push(leaf(LeafKind::WeightedMean));
    r
}

fn v0_5_flux() -> (r: Vec<EvaluatorSpec>)
    ensures
        v0_5_flux_blueprint(r@),
{
    let mut r: Vec<EvaluatorSpec> = Vec::new();
    r.push(leaf_with(LeafKind::AndersonDarlingNormal, Transformer::Uniform(Transform::Ln1p)));
    r.push(leaf_with(LeafKind::BazinFit, Transformer::BazinFit));
    r.push(leaf(LeafKind::ExcessVariance));
    r
}

/// The frozen bank pair a version binds to: its magnitude bank, and its
/// flux bank where the version has one. Construction is pure and
/// deterministic; the blueprints are never rebuilt per request.
pub fn bank_blueprint(v: Version) -> (r: (Vec<EvaluatorSpec>, Option<Vec<EvaluatorSpec>>))
    ensures
        v is V0_1 ==> v0_1_magnitude_blueprint(r.0@) && r.1 is None,
        v is V0_2 ==> v0_2_magnitude_blueprint(r.0@) && (r.1 matches Some(f)
            && v0_2_flux_blueprint(f@)),
        v is V0_4 ==> v0_4_magnitude_blueprint(r.0@) && (r.1 matches Some(f)
            && v0_4_flux_blueprint(f@)),
        v is V0_5 ==> v0_5_magnitude_blueprint(r.0@) && (r.1 matches Some(f)
            && v0_5_flux_blueprint(f@)),
{
    match v {
        Version::V0_1 => (v0_1_magnitude(), None),
        Version::V0_2 => (v0_2_magnitude(), Some(v0_2_flux())),
        Version::V0_4 => (v0_4_magnitude(), Some(v0_4_flux())),
        Version::V0_5 => (v0_5_magnitude(), Some(v0_5_flux())),
    }
}


/// Slot counts of one each sum to the member count.
proof fn lemma_single_slots_sum(s: Seq<(Transform, usize)>)
    requires
        forall|i: int| 0 <= i < s.len() ==> (#[trigger] s[i]).1 == 1,
    ensures
        spec_slots_sum(s) == s.len(),
    decreases s.len(),
{
    if s.len() > 0 {
        assert(forall|i: int|
            0 <= i < s.drop_first().len() ==> (#[trigger] s.drop_first()[i]).1 == 1);
        lemma_single_slots_sum(s.drop_first());
    }
}

/// Every bank the versions froze has sound transformer wiring: each value
/// transformer fits the arity of the evaluator it wraps, so constructing
/// the frozen configurations can never raise a `ConfigurationError`.
pub proof fn lemma_frozen_wiring_sound(bank: Seq<EvaluatorSpec>)
    requires
        v0_1_magnitude_blueprint(bank) || v0_2_magnitude_blueprint(bank)
            || v0_2_flux_blueprint(bank) || v0_4_magnitude_blueprint(bank)
            || v0_4_flux_blueprint(bank) || v0_5_magnitude_blueprint(bank)
            || v0_5_flux_blueprint(bank),
    ensures
        forall|i: int| 0 <= i < bank.len() ==> wiring_valid(#[trigger] bank[i]),
{
    assert forall|i: int| 0 <= i < bank.len() implies wiring_valid(#[trigger] bank[i]) by {
        if v0_5_magnitude_blueprint(bank) {
            if i == 2 {
                let members = bank[2].kind->Bins_members;
                assert forall|j: int|
                    0 <= j < members@.len() implies leaf_wiring_valid(
                    #[trigger] members@[j],
                ) by {
                    if j == 2 {
                        let slots = seq![
                            (Transform::Arcsinh, 1usize),
                            (Transform::Lg, 1usize),
                            (Transform::Ln1p, 1usize),
                        ];
                        lemma_single_slots_sum(slots);
                    }
                    if j == 3 {
                        let slots = seq![
                            (Transform::Arcsinh, 1usize),
                            (Transform::Lg, 1usize),
                            (Transform::Lg, 1usize),
                        ];
                        lemma_single_slots_sum(slots);
                    }
                }
            }
            if i == 7 {
                let slots = seq![
                    (Transform::Lg, 1usize),
                    (Transform::Identity, 1usize),
                    (Transform::Identity, 1usize),
                    (Transform::Identity, 1usize),
                ];
                lemma_single_slots_sum(slots);
            }
        }
    }
}

} // verus!
