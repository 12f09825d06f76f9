use light_curve_features::bank::{transform_evaluator, Bank, Evaluator, Transform, Transformer};
use light_curve_features::error::PipelineError;
use light_curve_features::merge::{concat_outputs, decorate_names, merge_features};
use light_curve_features::pipeline::compute_features;

use light_curve_feature::transformers::arcsinh::ArcsinhTransformer;
use light_curve_feature::transformers::bazin_fit::BazinFitTransformer;
use light_curve_feature::transformers::composed::ComposedTransformer;
use light_curve_feature::transformers::lg::LgTransformer;
use light_curve_feature::transformers::ln1p::Ln1pTransformer;
use light_curve_feature::transformers::transformer::TransformerPropsTrait;
use light_curve_feature::FeatureNamesDescriptionsTrait;
use light_curve_feature::{Feature, LinearFit, Transformed};

fn names(items: &[&str]) -> Vec<String> {
    items.iter().map(|s| s.to_string()).collect()
}

fn name_strings(ev: &Evaluator) -> Vec<String> {
    ev.names.clone()
}

#[test]
fn uniform_transform_prefixes_every_name() {
    let base = Evaluator::new(names(&["inter_percentile_range_2"]));
    let ev = transform_evaluator(&base, &Transformer::Uniform(Transform::Lg)).unwrap();
    assert_eq!(name_strings(&ev), vec!["lg_inter_percentile_range_2"]);

    let base = Evaluator::new(names(&["eta_e"]));
    let ev = transform_evaluator(&base, &Transformer::Uniform(Transform::Ln1p)).unwrap();
    assert_eq!(name_strings(&ev), vec!["ln1p_eta_e"]);

    let base = Evaluator::new(names(&["skew"]));
    let ev = transform_evaluator(&base, &Transformer::Uniform(Transform::Arcsinh)).unwrap();
    assert_eq!(name_strings(&ev), vec!["arcsinh_skew"]);

    let base = Evaluator::new(names(&["cusum", "kurtosis"]));
    let ev = transform_evaluator(&base, &Transformer::Uniform(Transform::Identity)).unwrap();
    assert_eq!(name_strings(&ev), vec!["cusum", "kurtosis"]);
}

#[test]
fn composed_transform_renames_positionally() {
    let base = Evaluator::new(names(&[
        "linear_fit_slope",
        "linear_fit_slope_sigma",
        "linear_fit_reduced_chi2",
    ]));
    let tr = Transformer::Composed(vec![
        (Transform::Arcsinh, 1),
        (Transform::Lg, 1),
        (Transform::Ln1p, 1),
    ]);
    let ev = transform_evaluator(&base, &tr).unwrap();
    assert_eq!(
        name_strings(&ev),
        vec![
            "arcsinh_linear_fit_slope",
            "lg_linear_fit_slope_sigma",
            "ln1p_linear_fit_reduced_chi2",
        ]
    );
}

#[test]
fn composed_arity_mismatch_is_a_configuration_error() {
    let base = Evaluator::new(names(&["a", "b"]));
    let tr = Transformer::Composed(vec![
        (Transform::Arcsinh, 1),
        (Transform::Lg, 1),
        (Transform::Ln1p, 1),
    ]);
    match transform_evaluator(&base, &tr) {
        Err(PipelineError::ConfigurationError) => {}
        other => panic!("unexpected {:?}", other),
    }
    let tr_short = Transformer::Composed(vec![(Transform::Lg, 1)]);
    match transform_evaluator(&base, &tr_short) {
        Err(PipelineError::ConfigurationError) => {}
        other => panic!("unexpected {:?}", other),
    }
}

#[test]
fn bazin_transformer_arity_is_fixed() {
    let base = Evaluator::new(names(&["a", "b", "c", "d", "e"]));
    match transform_evaluator(&base, &Transformer::BazinFit) {
        Err(PipelineError::ConfigurationError) => {}
        other => panic!("unexpected {:?}", other),
    }
}

#[test]
fn composed_names_match_the_feature_library() {
    let feature: Feature<f64> = LinearFit::default().into();
    let lib_base: Vec<String> = feature.get_names().iter().map(|s| s.to_string()).collect();
    let lib_transformer: light_curve_feature::Transformer<f64> = ComposedTransformer::new(vec![
        (ArcsinhTransformer {}.into(), 1),
        (LgTransformer {}.into(), 1),
        (Ln1pTransformer {}.into(), 1),
    ])
    .unwrap()
    .into();
    let transformed = Transformed::new(feature, lib_transformer).unwrap();
    let lib_names: Vec<String> = transformed.get_names().iter().map(|s| s.to_string()).collect();

    let base = Evaluator::new(lib_base);
    let tr = Transformer::Composed(vec![
        (Transform::Arcsinh, 1),
        (Transform::Lg, 1),
        (Transform::Ln1p, 1),
    ]);
    let ev = transform_evaluator(&base, &tr).unwrap();
    assert_eq!(name_strings(&ev), lib_names);
}

#[test]
fn uniform_names_match_the_feature_library() {
    let lg = LgTransformer {};
    let lib_names = lg.names(&["inter_percentile_range_10"]);
    let base = Evaluator::new(names(&["inter_percentile_range_10"]));
    let ev = transform_evaluator(&base, &Transformer::Uniform(Transform::Lg)).unwrap();
    assert_eq!(name_strings(&ev), lib_names);
}

#[test]
fn bazin_names_match_the_feature_library() {
    let lib = BazinFitTransformer::<f64>::new(23.9);
    let lib_names = lib.names(&["a", "b", "c", "d", "e", "f"]);
    let base = Evaluator::new(names(&["a", "b", "c", "d", "e", "f"]));
    let ev = transform_evaluator(&base, &Transformer::BazinFit).unwrap();
    assert_eq!(name_strings(&ev), lib_names);
}

#[test]
fn bank_names_concatenate_in_order() {
    let bank = Bank::new(vec![
        Evaluator::new(names(&["amplitude"])),
        Evaluator::new(names(&["period_0", "period_s_to_n_0"])),
        Evaluator::new(names(&["standard_deviation"])),
    ]);
    assert_eq!(
        bank.names(),
        vec!["amplitude", "period_0", "period_s_to_n_0", "standard_deviation"]
    );
}

#[test]
fn decoration_suffixes_by_representation() {
    let mag = names(&["amplitude", "kurtosis"]);
    let flux = names(&["excess_variance"]);
    assert_eq!(
        decorate_names(&mag, &flux),
        vec!["amplitude_magn", "kurtosis_magn", "excess_variance_flux"]
    );
}

#[test]
fn outputs_concatenate_bank_order() {
    let mag = vec![1u64, 2, 3];
    let flux = vec![9u64];
    assert_eq!(concat_outputs(&mag, &flux), vec![1, 2, 3, 9]);
}

#[test]
fn merged_mapping_keys_equal_the_frozen_name_list() {
    let mag_names = names(&["amplitude", "kurtosis"]);
    let flux_names = names(&["excess_variance"]);
    let frozen = decorate_names(&mag_names, &flux_names);
    let mag_values: Vec<u64> = [1.5f64, -2.25].iter().map(|v| v.to_bits()).collect();
    let flux_values: Vec<u64> = [0.5f64].iter().map(|v| v.to_bits()).collect();
    let pairs = compute_features(&frozen, &mag_values, &flux_values);
    let keys: Vec<&str> = pairs.iter().map(|p| p.0.as_str()).collect();
    assert_eq!(keys, vec!["amplitude_magn", "kurtosis_magn", "excess_variance_flux"]);
    let values: Vec<f64> = pairs.iter().map(|p| f64::from_bits(p.1)).collect();
    assert_eq!(values, vec![1.5, -2.25, 0.5]);
}

#[test]
fn merge_zips_positionally() {
    let keys = names(&["a", "b"]);
    let values = vec![7u64, 8u64];
    let pairs = merge_features(&keys, &values);
    assert_eq!(pairs.len(), 2);
    assert_eq!(pairs[0].0, "a");
    assert_eq!(pairs[0].1, 7);
    assert_eq!(pairs[1].0, "b");
    assert_eq!(pairs[1].1, 8);
}
