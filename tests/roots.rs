use fourier_fit::error::AnalysisError;
use fourier_fit::roots::{companion_matrix, effective_degree};

fn nonzero(c: &[f64]) -> Vec<bool> {
    c.iter().map(|&x| x != 0.0).collect()
}

#[test]
fn empty_polynomial_is_refused() {
    assert_eq!(effective_degree(&nonzero(&[])), Err(AnalysisError::EmptyInput));
}

#[test]
fn zero_polynomial_is_refused() {
    assert_eq!(effective_degree(&nonzero(&[0.0, 0.0, 0.0])), Err(AnalysisError::ZeroPolynomial));
}

#[test]
fn constant_polynomial_has_degree_zero() {
    assert_eq!(effective_degree(&nonzero(&[5.0, 0.0, 0.0])), Ok(0));
}

#[test]
fn quadratic_has_degree_two() {
    assert_eq!(effective_degree(&nonzero(&[2.0, -3.0, 1.0])), Ok(2));
}

#[test]
fn trailing_zeros_are_trimmed_but_inner_zeros_kept() {
    assert_eq!(effective_degree(&nonzero(&[1.0, 0.0, 4.0, 0.0, 0.0])), Ok(2));
    assert_eq!(effective_degree(&nonzero(&[0.0, 0.0, 0.0, 3.0])), Ok(3));
    assert_eq!(effective_degree(&nonzero(&[-0.0, 2.5])), Ok(1));
}

#[test]
fn companion_of_quadratic() {
    // 2 - 3w + w^2 is monic; its negated lower coefficients are [-2, 3].
    let m = companion_matrix(&[-2.0, 3.0], 1.0, 0.0);
    assert_eq!(m, vec![vec![3.0, -2.0], vec![1.0, 0.0]]);
}

#[test]
fn companion_of_cubic() {
    let m = companion_matrix(&[10i64, 20, 30], 1, 0);
    assert_eq!(m, vec![vec![30, 20, 10], vec![1, 0, 0], vec![0, 1, 0]]);
}

#[test]
fn companion_of_linear_and_empty() {
    assert_eq!(companion_matrix(&[-0.5], 1.0, 0.0), vec![vec![-0.5]]);
    let empty: [i64; 0] = [];
    assert_eq!(companion_matrix(&empty, 1, 0), Vec::<Vec<i64>>::new());
}
