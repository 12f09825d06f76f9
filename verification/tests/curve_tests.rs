use light_curve_features::curve::{validate_curve, Observation, MIN_OBSERVATIONS};
use light_curve_features::error::PipelineError;
use light_curve_features::pipeline::prepare_curve;

fn obs(t: f64, m: f64, err: f64) -> Observation {
    Observation { t_bits: t.to_bits(), m_bits: m.to_bits(), err_bits: err.to_bits() }
}

fn times(curve: &[Observation]) -> Vec<f64> {
    curve.iter().map(|o| f64::from_bits(o.t_bits)).collect()
}

#[test]
fn short_curves_are_rejected() {
    for n in 0..MIN_OBSERVATIONS {
        let curve: Vec<Observation> = (0..n).map(|i| obs(i as f64, 15.0, 0.1)).collect();
        match validate_curve(&curve) {
            Err(PipelineError::InsufficientData) => {}
            other => panic!("curve of {} observations gave {:?}", n, other),
        }
    }
}

#[test]
fn rejection_message_names_the_minimum() {
    let curve: Vec<Observation> = (0..4).map(|i| obs(i as f64, 15.0, 0.1)).collect();
    let err = validate_curve(&curve).unwrap_err();
    let msg = err.message();
    assert!(msg.contains("at least five observations"), "message was: {}", msg);
    assert_eq!(msg, "Bad request: Light curve must have at least five observations");
}

#[test]
fn five_observations_pass_validation() {
    let curve: Vec<Observation> = (0..5).map(|i| obs(i as f64, 15.0, 0.1)).collect();
    assert!(validate_curve(&curve).is_ok());
}

#[test]
fn prepare_sorts_by_time() {
    let mut curve = vec![
        obs(3.0, 15.1, 0.11),
        obs(0.0, 15.0, 0.1),
        obs(4.0, 15.05, 0.1),
        obs(1.0, 15.2, 0.12),
        obs(2.0, 14.9, 0.09),
    ];
    prepare_curve(&mut curve).unwrap();
    assert_eq!(times(&curve), vec![0.0, 1.0, 2.0, 3.0, 4.0]);
}

#[test]
fn prepare_orders_negative_times_and_zeros() {
    let mut curve = vec![
        obs(0.0, 1.0, 0.1),
        obs(-1.5, 2.0, 0.1),
        obs(2.25, 3.0, 0.1),
        obs(-0.0, 4.0, 0.1),
        obs(1e-300, 5.0, 0.1),
        obs(-3e5, 6.0, 0.1),
    ];
    prepare_curve(&mut curve).unwrap();
    let t = times(&curve);
    for w in t.windows(2) {
        assert!(w[0] <= w[1], "out of order: {:?}", t);
    }
    assert_eq!(t, vec![-3e5, -1.5, -0.0, 0.0, 1e-300, 2.25]);
}

#[test]
fn prepare_rejects_short_curve_unchanged() {
    let mut curve = vec![obs(2.0, 15.0, 0.1), obs(1.0, 15.1, 0.1)];
    let before = curve.clone();
    match prepare_curve(&mut curve) {
        Err(PipelineError::InsufficientData) => {}
        other => panic!("unexpected {:?}", other),
    }
    assert_eq!(curve, before);
}

#[test]
fn sorting_is_idempotent_and_order_insensitive() {
    let sorted = vec![
        obs(0.0, 15.0, 0.1),
        obs(1.0, 15.2, 0.12),
        obs(2.0, 14.9, 0.09),
        obs(3.0, 15.1, 0.11),
        obs(4.0, 15.05, 0.1),
    ];
    let mut from_sorted = sorted.clone();
    prepare_curve(&mut from_sorted).unwrap();
    assert_eq!(from_sorted, sorted);

    let mut permuted = vec![
        sorted[4], sorted[1], sorted[3], sorted[0], sorted[2],
    ];
    prepare_curve(&mut permuted).unwrap();
    assert_eq!(permuted, sorted);

    let mut twice = from_sorted.clone();
    prepare_curve(&mut twice).unwrap();
    assert_eq!(twice, from_sorted);
}

#[test]
fn duplicate_timestamps_are_accepted_in_input_order() {
    let mut curve = vec![
        obs(1.0, 10.0, 0.1),
        obs(0.0, 11.0, 0.1),
        obs(1.0, 12.0, 0.1),
        obs(1.0, 13.0, 0.1),
        obs(2.0, 14.0, 0.1),
    ];
    prepare_curve(&mut curve).unwrap();
    let m: Vec<f64> = curve.iter().map(|o| f64::from_bits(o.m_bits)).collect();
    assert_eq!(times(&curve), vec![0.0, 1.0, 1.0, 1.0, 2.0]);
    assert_eq!(m, vec![11.0, 10.0, 12.0, 13.0, 14.0]);
}
