use light_curve_features::curve::Observation;
use light_curve_features::pipeline::{compute_features, prepare_curve};
use light_curve_features::series::{flux_series, series_from_curve};
use light_curve_features::version::MAG_ZP_BITS;

use light_curve_feature::{
    Amplitude, Feature, FeatureEvaluator, FeatureExtractor, FeatureNamesDescriptionsTrait,
    NyquistFreq, Periodogram, StandardDeviation, StetsonK, TimeSeries,
};
use light_curve_features::error::PipelineError;

fn obs(t: f64, m: f64, err: f64) -> Observation {
    Observation { t_bits: t.to_bits(), m_bits: m.to_bits(), err_bits: err.to_bits() }
}

fn sample_curve() -> Vec<Observation> {
    vec![
        obs(0.0, 15.0, 0.1),
        obs(1.0, 15.2, 0.12),
        obs(2.0, 14.9, 0.09),
        obs(3.0, 15.1, 0.11),
        obs(4.0, 15.05, 0.1),
    ]
}

fn magnitude_bank() -> FeatureExtractor<f64, Feature<f64>> {
    let mut periodogram = Periodogram::new(5);
    periodogram.set_nyquist(NyquistFreq::fixed(24.0));
    periodogram.set_freq_resolution(10.0);
    periodogram.set_max_freq_factor(2.0);
    FeatureExtractor::from_features(vec![
        Amplitude::default().into(),
        StandardDeviation::default().into(),
        periodogram.into(),
    ])
}

fn eval_sample(bank: &FeatureExtractor<f64, Feature<f64>>) -> (Vec<String>, Vec<u64>) {
    let mut curve = sample_curve();
    prepare_curve(&mut curve).unwrap();
    let t: Vec<f64> = curve.iter().map(|o| f64::from_bits(o.t_bits)).collect();
    let m: Vec<f64> = curve.iter().map(|o| f64::from_bits(o.m_bits)).collect();
    let w: Vec<f64> = curve.iter().map(|o| f64::from_bits(o.err_bits).powi(-2)).collect();
    let mut ts = TimeSeries::new(&t[..], &m[..], &w[..]);
    let names: Vec<String> = bank.get_names().iter().map(|s| s.to_string()).collect();
    let values = bank.eval(&mut ts).unwrap();
    (names, values.iter().map(|v| v.to_bits()).collect())
}

/// Evaluating the same frozen bank on the same series twice is
/// bit-identical, and so is the merged mapping.
#[test]
fn frozen_bank_evaluation_is_deterministic() {
    let bank = magnitude_bank();
    let (names, first) = eval_sample(&bank);
    let (names_again, second) = eval_sample(&bank);
    assert_eq!(names, names_again);
    assert_eq!(first, second);
    let no_flux: Vec<u64> = Vec::new();
    let pairs_first = compute_features(&names, &first, &no_flux);
    let pairs_second = compute_features(&names, &second, &no_flux);
    assert_eq!(pairs_first, pairs_second);
}

/// Flux-space weight propagation from a magnitude-space weight agrees with
/// the closed form in the magnitude itself, to within 1e-12 relative.
#[test]
fn flux_weight_round_trip() {
    let zp = f64::from_bits(MAG_ZP_BITS);
    for (m, w_m) in [(15.0, 100.0), (20.5, 69.4), (8.9, 1e4), (30.0, 0.5), (0.0, 123.0)] {
        let flux = 10f64.powf(-0.4 * (m - zp));
        let w_f = w_m / (0.4 * 10f64.ln() * flux).powi(2);
        let direct = w_m / (0.4 * 10f64.ln() * 10f64.powf(-0.4 * (m - zp))).powi(2);
        assert!(
            ((w_f - direct) / direct).abs() < 1e-12,
            "m={} w_m={}: {} vs {}",
            m,
            w_m,
            w_f,
            direct
        );
    }
}

/// A degenerate series stops the request with an evaluation error whose
/// message names the cause after the standard prefix.
#[test]
fn degenerate_series_gives_an_evaluation_error() {
    let bank: FeatureExtractor<f64, Feature<f64>> =
        FeatureExtractor::from_features(vec![StetsonK::default().into()]);
    let t = [0.0, 1.0, 2.0, 3.0, 4.0];
    let m = [15.0, 15.0, 15.0, 15.0, 15.0];
    let w = [1.0, 1.0, 1.0, 1.0, 1.0];
    let mut ts = TimeSeries::new(&t[..], &m[..], &w[..]);
    let cause = bank.eval(&mut ts).unwrap_err();
    let msg = PipelineError::EvaluationError(format!("{:?}", cause)).message();
    assert!(msg.starts_with("Bad request: "), "message was: {}", msg);
    assert!(msg.contains("Flat"), "message was: {}", msg);
}

#[test]
fn error_messages_are_exact() {
    let err = PipelineError::EvaluationError(String::from("all values are equal"));
    assert_eq!(err.message(), "Bad request: all values are equal");
    assert_eq!(
        PipelineError::ConfigurationError.message(),
        "Feature bank misconfigured"
    );
}

#[test]
fn series_packaging_is_parallel() {
    let mut curve = sample_curve();
    prepare_curve(&mut curve).unwrap();
    let weights: Vec<u64> = curve
        .iter()
        .map(|o| f64::from_bits(o.err_bits).powi(-2).to_bits())
        .collect();
    let ts = series_from_curve(&curve, &weights).unwrap();
    assert_eq!(ts.time.len(), 5);
    assert_eq!(ts.value.len(), 5);
    assert_eq!(ts.weight.len(), 5);
    assert_eq!(f64::from_bits(ts.time[2]), 2.0);
    assert_eq!(f64::from_bits(ts.value[2]), 14.9);
    assert!((f64::from_bits(ts.weight[2]) - 0.09f64.powi(-2)).abs() < 1e-9);

    let short_weights = vec![0u64; 3];
    assert!(series_from_curve(&curve, &short_weights).is_none());
}

#[test]
fn flux_series_shares_time_owns_values() {
    let mut curve = sample_curve();
    prepare_curve(&mut curve).unwrap();
    let weights: Vec<u64> = curve.iter().map(|_| 1.0f64.to_bits()).collect();
    let mag = series_from_curve(&curve, &weights).unwrap();
    let zp = f64::from_bits(MAG_ZP_BITS);
    let flux_values: Vec<u64> = mag
        .value
        .iter()
        .map(|&b| 10f64.powf(-0.4 * (f64::from_bits(b) - zp)).to_bits())
        .collect();
    let flux_weights: Vec<u64> = flux_values
        .iter()
        .zip(mag.weight.iter())
        .map(|(&f, &w)| {
            (f64::from_bits(w) / (0.4 * 10f64.ln() * f64::from_bits(f)).powi(2)).to_bits()
        })
        .collect();
    let flux = flux_series(&mag, &flux_values, &flux_weights).unwrap();
    assert_eq!(flux.time, mag.time);
    assert_eq!(flux.value, flux_values);
    assert_eq!(flux.weight, flux_weights);

    let wrong: Vec<u64> = vec![0; 2];
    assert!(flux_series(&mag, &wrong, &flux_weights).is_none());
}
