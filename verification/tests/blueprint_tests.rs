use light_curve_features::bank::{
    transform_evaluator, Bank, Evaluator, Transform as TransformSpec,
    Transformer as TransformerSpec,
};
use light_curve_features::blueprint::{
    bank_blueprint, validate_bank, EvaluatorKind, EvaluatorSpec, LeafKind, LeafSpec,
};
use light_curve_features::pipeline::compute_features;
use light_curve_features::version::{NyquistPolicy, Version, MAG_ZP_BITS};

use light_curve_feature::transformers::arcsinh::ArcsinhTransformer;
use light_curve_feature::transformers::bazin_fit::BazinFitTransformer;
use light_curve_feature::transformers::composed::ComposedTransformer;
use light_curve_feature::transformers::identity::IdentityTransformer;
use light_curve_feature::transformers::lg::LgTransformer;
use light_curve_feature::transformers::ln1p::Ln1pTransformer;
use light_curve_feature::{
    Amplitude, AndersonDarlingNormal, BazinFit, BazinInitsBounds, BeyondNStd, Bins, Cusum, Eta,
    EtaE, ExcessVariance, Feature, FeatureEvaluator, FeatureExtractor,
    FeatureNamesDescriptionsTrait, InterPercentileRange, Kurtosis, LinearFit, LinearTrend,
    LnPrior, MagnitudePercentageRatio, MaximumSlope, McmcCurveFit, Mean, MeanVariance,
    MedianAbsoluteDeviation, MedianBufferRangePercentage, NyquistFreq, OtsuSplit,
    PercentAmplitude, PercentDifferenceMagnitudePercentile, Periodogram, ReducedChi2, Skew,
    StandardDeviation, StetsonK, TimeSeries, Transformed, Transformer as LibTransformer,
    WeightedMean,
};

fn simple_transformer(t: TransformSpec) -> LibTransformer<f64> {
    match t {
        TransformSpec::Identity => IdentityTransformer {}.into(),
        TransformSpec::Arcsinh => ArcsinhTransformer {}.into(),
        TransformSpec::Ln1p => Ln1pTransformer {}.into(),
        TransformSpec::Lg => LgTransformer {}.into(),
    }
}

fn lib_transformer(tr: &TransformerSpec) -> LibTransformer<f64> {
    match tr {
        TransformerSpec::Uniform(t) => simple_transformer(*t),
        TransformerSpec::Composed(slots) => {
            let members: Vec<(LibTransformer<f64>, usize)> = slots
                .iter()
                .map(|(t, n)| (simple_transformer(*t), *n))
                .collect();
            ComposedTransformer::new(members).unwrap().into()
        }
        TransformerSpec::BazinFit => {
            LibTransformer::BazinFit(BazinFitTransformer::new(f64::from_bits(MAG_ZP_BITS)))
        }
    }
}

fn leaf_feature(k: &LeafKind) -> Feature<f64> {
    match k {
        LeafKind::Amplitude => Amplitude::default().into(),
        LeafKind::AndersonDarlingNormal => AndersonDarlingNormal::default().into(),
        LeafKind::BazinFit => {
            let zp = f64::from_bits(MAG_ZP_BITS);
            let inits_bounds = BazinInitsBounds::option_arrays(
                [None; 5],
                [
                    Some(f64::powf(10.0, -0.4 * (30.0 - zp))),
                    None,
                    None,
                    Some(1e-4),
                    Some(1e-4),
                ],
                [
                    Some(f64::powf(10.0, -0.4 * (0.0 - zp))),
                    None,
                    None,
                    Some(3e4),
                    Some(3e4),
                ],
            );
            BazinFit::new(McmcCurveFit::default().into(), LnPrior::none(), inits_bounds).into()
        }
        LeafKind::BeyondNStd { n_bits } => BeyondNStd::new(f64::from_bits(*n_bits)).into(),
        LeafKind::Cusum => Cusum::default().into(),
        LeafKind::Eta => Eta::default().into(),
        LeafKind::EtaE => EtaE::default().into(),
        LeafKind::ExcessVariance => ExcessVariance::default().into(),
        LeafKind::InterPercentileRange { q_bits } => {
            InterPercentileRange::new(f64::from_bits(*q_bits) as f32).into()
        }
        LeafKind::Kurtosis => Kurtosis::default().into(),
        LeafKind::LinearFit => LinearFit::default().into(),
        LeafKind::LinearTrend => LinearTrend::default().into(),
        LeafKind::MagnitudePercentageRatio { q_bits, q_low_bits } => MagnitudePercentageRatio::new(
            f64::from_bits(*q_bits) as f32,
            f64::from_bits(*q_low_bits) as f32,
        )
        .into(),
        LeafKind::MaximumSlope => MaximumSlope::default().into(),
        LeafKind::Mean => Mean::default().into(),
        LeafKind::MeanVariance => MeanVariance::default().into(),
        LeafKind::MedianAbsoluteDeviation => MedianAbsoluteDeviation::default().into(),
        LeafKind::MedianBufferRangePercentage { q_bits } => {
            MedianBufferRangePercentage::new(f64::from_bits(*q_bits)).into()
        }
        LeafKind::OtsuSplit => OtsuSplit::default().into(),
        LeafKind::PercentAmplitude => PercentAmplitude::default().into(),
        LeafKind::PercentDifferenceMagnitudePercentile { q_bits } => {
            PercentDifferenceMagnitudePercentile::new(f64::from_bits(*q_bits) as f32).into()
        }
        LeafKind::ReducedChi2 => ReducedChi2::default().into(),
        LeafKind::Skew => Skew::default().into(),
        LeafKind::StandardDeviation => StandardDeviation::default().into(),
        LeafKind::StetsonK => StetsonK::default().into(),
        LeafKind::WeightedMean => WeightedMean::default().into(),
    }
}

fn member_feature(m: &LeafSpec) -> Feature<f64> {
    let base = leaf_feature(&m.kind);
    match &m.transformer {
        None => base,
        Some(tr) => Transformed::new(base, lib_transformer(tr)).unwrap().into(),
    }
}

fn base_feature(kind: &EvaluatorKind) -> Feature<f64> {
    match kind {
        EvaluatorKind::Leaf(l) => leaf_feature(l),
        EvaluatorKind::Bins { window_bits, offset_bits, members } => {
            let mut bins = Bins::new(f64::from_bits(*window_bits), f64::from_bits(*offset_bits));
            for m in members {
                bins.add_feature(member_feature(m));
            }
            bins.into()
        }
        EvaluatorKind::Periodogram { settings, members } => {
            let mut periodogram = Periodogram::new(settings.peaks as usize);
            match settings.nyquist {
                NyquistPolicy::Fixed { freq_bits } => {
                    periodogram.set_nyquist(NyquistFreq::fixed(f64::from_bits(freq_bits) as f32))
                }
                NyquistPolicy::Median | NyquistPolicy::TruncatedMedian { .. } => {
                    periodogram.set_nyquist(NyquistFreq::median())
                }
                NyquistPolicy::Average => periodogram.set_nyquist(NyquistFreq::average()),
                NyquistPolicy::FixedFromInterval { dt_bits } => periodogram.set_nyquist(
                    NyquistFreq::fixed((std::f64::consts::PI / f64::from_bits(dt_bits)) as f32),
                ),
            };
            if let Some(bits) = settings.freq_resolution_bits {
                periodogram.set_freq_resolution(f64::from_bits(bits) as f32);
            }
            periodogram.set_max_freq_factor(f64::from_bits(settings.max_freq_factor_bits) as f32);
            for m in members {
                periodogram.add_feature(member_feature(m));
            }
            periodogram.into()
        }
    }
}

fn build_bank(entries: &Vec<EvaluatorSpec>) -> (FeatureExtractor<f64, Feature<f64>>, Vec<String>) {
    validate_bank(entries).unwrap();
    let mut features: Vec<Feature<f64>> = Vec::new();
    let mut evaluators: Vec<Evaluator> = Vec::new();
    for entry in entries {
        let base = base_feature(&entry.kind);
        let base_names: Vec<String> = base.get_names().iter().map(|s| s.to_string()).collect();
        match &entry.transformer {
            None => {
                features.push(base);
                evaluators.push(Evaluator::new(base_names));
            }
            Some(tr) => {
                evaluators.push(transform_evaluator(&Evaluator::new(base_names), tr).unwrap());
                features.push(Transformed::new(base, lib_transformer(tr)).unwrap().into());
            }
        }
    }
    let names = Bank::new(evaluators).names();
    let extractor = FeatureExtractor::from_features(features);
    (extractor, names)
}

#[test]
fn every_blueprint_has_sound_wiring() {
    for v in [Version::V0_1, Version::V0_2, Version::V0_4, Version::V0_5] {
        let (mag, flux) = bank_blueprint(v);
        assert!(validate_bank(&mag).is_ok(), "{:?} magnitude", v);
        if let Some(fb) = &flux {
            assert!(validate_bank(fb).is_ok(), "{:?} flux", v);
        }
    }
}

#[test]
fn blueprint_shapes_follow_the_versions() {
    let (m1, f1) = bank_blueprint(Version::V0_1);
    assert_eq!(m1.len(), 26);
    assert!(f1.is_none());
    let (m2, f2) = bank_blueprint(Version::V0_2);
    assert_eq!(m2.len(), 28);
    assert_eq!(f2.unwrap().len(), 9);
    let (m4, f4) = bank_blueprint(Version::V0_4);
    assert_eq!(m4.len(), 26);
    assert_eq!(f4.unwrap().len(), 8);
    let (m5, f5) = bank_blueprint(Version::V0_5);
    assert_eq!(m5.len(), 13);
    assert_eq!(f5.unwrap().len(), 3);
}

/// The verified naming model agrees with the feature library's own naming
/// for every version's banks, transformed entries included.
#[test]
fn blueprint_names_match_the_feature_library() {
    for v in [Version::V0_1, Version::V0_2, Version::V0_4, Version::V0_5] {
        let (mag, flux) = bank_blueprint(v);
        let (mag_extractor, mag_names) = build_bank(&mag);
        let lib_names: Vec<String> =
            mag_extractor.get_names().iter().map(|s| s.to_string()).collect();
        assert_eq!(mag_names, lib_names, "{:?} magnitude", v);
        if let Some(fb) = &flux {
            let (flux_extractor, flux_names) = build_bank(fb);
            let lib_flux: Vec<String> =
                flux_extractor.get_names().iter().map(|s| s.to_string()).collect();
            assert_eq!(flux_names, lib_flux, "{:?} flux", v);
        }
    }
}

/// The five-point scenario, evaluated with the oldest version's own frozen
/// bank: the mapping's keys are exactly the bank's bare name list, among
/// them the amplitude, the standard deviation and the periodogram peaks,
/// and those values are finite.
#[test]
fn five_point_scenario_on_the_bound_bank() {
    let (mag_blueprint, flux_blueprint) = bank_blueprint(Version::V0_1);
    assert!(flux_blueprint.is_none());
    let (bank, names) = build_bank(&mag_blueprint);

    let t = [0.0, 1.0, 2.0, 3.0, 4.0];
    let m = [15.0, 15.2, 14.9, 15.1, 15.05];
    let err = [0.1, 0.12, 0.09, 0.11, 0.1];
    let w: Vec<f64> = err.iter().map(|e: &f64| e.powi(-2)).collect();
    let mut ts = TimeSeries::new(&t[..], &m[..], &w[..]);
    let values = bank.eval(&mut ts).unwrap();
    let bits: Vec<u64> = values.iter().map(|v| v.to_bits()).collect();

    let no_flux: Vec<u64> = Vec::new();
    let pairs = compute_features(&names, &bits, &no_flux);
    let keys: Vec<&str> = pairs.iter().map(|p| p.0.as_str()).collect();
    assert_eq!(keys, names.iter().map(|s| s.as_str()).collect::<Vec<_>>());
    for key in ["amplitude", "standard_deviation", "period_0", "period_s_to_n_0"] {
        let pair = pairs
            .iter()
            .find(|p| p.0 == key)
            .unwrap_or_else(|| panic!("{} missing from the mapping", key));
        assert!(f64::from_bits(pair.1).is_finite(), "{} is not finite", key);
    }
}
