use hexapod_motion::{bernstein_coefficients, binomial_coefficient};

#[test]
fn binomial_edges_are_one() {
    assert_eq!(binomial_coefficient(0, 0), 1);
    assert_eq!(binomial_coefficient(7, 0), 1);
    assert_eq!(binomial_coefficient(7, 7), 1);
}

#[test]
fn binomial_values() {
    assert_eq!(binomial_coefficient(4, 2), 6);
    assert_eq!(binomial_coefficient(5, 2), 10);
    assert_eq!(binomial_coefficient(5, 3), 10);
    assert_eq!(binomial_coefficient(10, 3), 120);
    assert_eq!(binomial_coefficient(20, 10), 184756);
    assert_eq!(binomial_coefficient(30, 2), 435);
}

#[test]
fn binomial_is_symmetric() {
    for n in 0..16 {
        for k in 0..=n {
            assert_eq!(binomial_coefficient(n, k), binomial_coefficient(n, n - k));
        }
    }
}

#[test]
fn single_point_curve_weighs_its_point_by_one() {
    assert_eq!(bernstein_coefficients(1), vec![1]);
}

#[test]
fn two_point_curve_weighs_like_lerp() {
    assert_eq!(bernstein_coefficients(2), vec![1, 1]);
}

#[test]
fn quadratic_and_cubic_weights() {
    assert_eq!(bernstein_coefficients(3), vec![1, 2, 1]);
    assert_eq!(bernstein_coefficients(4), vec![1, 3, 3, 1]);
}

#[test]
fn quadratic_midpoint_from_weights() {
    // control points (0,0), (1,2), (2,0) at t = 0.5
    let w = bernstein_coefficients(3);
    let pts = [(0.0f32, 0.0f32), (1.0, 2.0), (2.0, 0.0)];
    let t = 0.5f32;
    let mut x = 0.0f32;
    let mut y = 0.0f32;
    for i in 0..3 {
        let b = w[i] as f32 * t.powi(i as i32) * (1.0 - t).powi(2 - i as i32);
        x += pts[i].0 * b;
        y += pts[i].1 * b;
    }
    assert_eq!((x, y), (1.0, 1.0));
}

#[test]
fn largest_curve_weights() {
    let w = bernstein_coefficients(16);
    assert_eq!(w.len(), 16);
    assert_eq!(w[0], 1);
    assert_eq!(w[7], 6435);
    assert_eq!(w[15], 1);
}
