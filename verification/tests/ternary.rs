use ternary_optimizer::ternary::count_zeros;
use ternary_optimizer::ternary::ternary_level;

#[test]
fn test_sign_function() {
    // The sign of a value selects its level from the comparisons with zero.
    let sign = |v: f64| ternary_level(v > 0.0, v < 0.0);
    assert_eq!(sign(5.0), 1);
    assert_eq!(sign(-5.0), -1);
    assert_eq!(sign(0.0), 0);
    assert_eq!(sign(0.001), 1);
    assert_eq!(sign(-0.001), -1);
}

#[test]
fn test_ternary_gradient() {
    let grad = vec![-3.0, 0.0, 5.0, -0.001, 100.0];
    let tgrad: Vec<i8> = grad.iter().map(|&v: &f64| ternary_level(v > 0.0, v < 0.0)).collect();
    assert_eq!(tgrad, vec![-1, 0, 1, -1, 1]);
}

#[test]
fn test_ternarization_preserves_distribution() {
    let weights: Vec<f64> = (0..300)
        .map(|i| match i % 3 {
            0 => 0.9,
            1 => -0.9,
            _ => 0.1,
        })
        .collect();
    let threshold = 0.5;
    let ternary: Vec<i8> = weights
        .iter()
        .map(|&w: &f64| ternary_level(w > threshold, w < -threshold))
        .collect();
    let n_pos = ternary.iter().filter(|&&v| v == 1).count();
    let n_neg = ternary.iter().filter(|&&v| v == -1).count();
    let n_zero = ternary.iter().filter(|&&v| v == 0).count();
    assert_eq!(n_pos, 100);
    assert_eq!(n_neg, 100);
    assert_eq!(n_zero, 100);
}

#[test]
fn test_sparsity() {
    let ternary = vec![1.0, -1.0, 0.0, 0.0, 1.0];
    let flags: Vec<bool> = ternary.iter().map(|&v: &f64| v == 0.0).collect();
    let zeros = count_zeros(&flags);
    assert_eq!(zeros, 2);
    assert!((zeros as f64 / ternary.len() as f64 - 0.4).abs() < 1e-10);
}

#[test]
fn ternary_level_at_threshold_is_zero() {
    // A value equal to the threshold is not strictly above it.
    let threshold = 1.0;
    for (w, expected) in [(10.0, 1), (-10.0, -1), (1.0, 0), (-1.0, 0), (0.0, 0)] {
        let w: f64 = w;
        assert_eq!(ternary_level(w > threshold, w < -threshold), expected);
    }
}

#[test]
fn ternary_level_prefers_above() {
    // With a negative threshold a value can lie both above and below.
    assert_eq!(ternary_level(true, true), 1);
    assert_eq!(ternary_level(true, false), 1);
    assert_eq!(ternary_level(false, true), -1);
    assert_eq!(ternary_level(false, false), 0);
}

#[test]
fn count_zeros_edge_cases() {
    assert_eq!(count_zeros(&[]), 0);
    assert_eq!(count_zeros(&[true, true, true]), 3);
    assert_eq!(count_zeros(&[false, false]), 0);
    assert_eq!(count_zeros(&[false, true, false, true, true, false]), 3);
}
