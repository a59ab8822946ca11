use psi_core::poly::{lagrange_basis, recover_pri_poly, Poly};
use psi_core::Error;

// Helper function to create Scalar from a u64 value (for easier test writing)
fn scalar_from_u64(n: u64) -> psi_core::scalar::Scalar {
    psi_core::scalar::scalar_from_u64(n)
}

#[test]
fn test_add_polynomials() {
    let p1 = Poly {
        coeffs: vec![scalar_from_u64(1), scalar_from_u64(2)],
    };
    let p2 = Poly {
        coeffs: vec![scalar_from_u64(3), scalar_from_u64(4)],
    };

    let result = p1.add(&p2);

    assert_eq!(result.coeffs.len(), 2);
    assert_eq!(result.coeffs[0], scalar_from_u64(4));
    assert_eq!(result.coeffs[1], scalar_from_u64(6));
}

#[test]
fn test_multiply_polynomials() {
    let p1 = Poly {
        coeffs: vec![scalar_from_u64(1), scalar_from_u64(2)],
    };
    let p2 = Poly {
        coeffs: vec![scalar_from_u64(1), scalar_from_u64(3)],
    };

    let result = p1.mul(&p2);

    assert_eq!(result.coeffs.len(), 3);
    assert_eq!(result.coeffs[0], scalar_from_u64(1));
    assert_eq!(result.coeffs[1], scalar_from_u64(5));
    assert_eq!(result.coeffs[2], scalar_from_u64(6));
}

#[test]
fn test_polynomial_evaluation() {
    let p = Poly {
        coeffs: vec![scalar_from_u64(1), scalar_from_u64(2), scalar_from_u64(3)],
    };

    let x = scalar_from_u64(2);
    let result = p.evaluate(x);

    // coefficients are lowest degree first, so
    // p(x) = 1 + 2 * x + 3 * x^2 = 1 + 4 + 12 = 17
    assert_eq!(result, scalar_from_u64(17));
}

#[test]
fn test_lagrange_basis() {
    let xs = vec![scalar_from_u64(1), scalar_from_u64(2), scalar_from_u64(3)];
    let basis_poly = lagrange_basis(2, &xs);

    // Expected coefficients for L_2(x) for points (1, 2, 3):
    // L_2(x) = ((x - 1)(x - 2)) / ((3 - 1)(3 - 2)) = (x^2 - 3x + 2) / 2
    let b = scalar_from_u64(2).invert();

    assert_eq!(basis_poly.coeffs.len(), 3);
    assert_eq!(basis_poly.coeffs[0], scalar_from_u64(1)); // 1
    assert_eq!(basis_poly.coeffs[1], scalar_from_u64(3).neg().mul(&b)); // -3/2
    assert_eq!(basis_poly.coeffs[2], scalar_from_u64(1).mul(&b)); // 1/2
}

#[test]
fn test_recover_pri_poly() {
    let xs = vec![scalar_from_u64(1), scalar_from_u64(2), scalar_from_u64(3)];
    let ys = vec![scalar_from_u64(2), scalar_from_u64(4), scalar_from_u64(6)];

    let recovered_poly = recover_pri_poly(xs, ys).unwrap();

    // The recovered polynomial should be y = 2x, so the coefficients should be [0, 2]
    assert_eq!(recovered_poly.coeffs.len(), 2);
    assert_eq!(recovered_poly.coeffs[0], scalar_from_u64(0));
    assert_eq!(recovered_poly.coeffs[1], scalar_from_u64(2));
}

#[test]
fn test_recover_pri_poly_empty_input() {
    let xs: Vec<psi_core::scalar::Scalar> = vec![];
    let ys: Vec<psi_core::scalar::Scalar> = vec![];

    let result = recover_pri_poly(xs, ys);

    assert!(result.is_err()); // Expect an error due to empty input
}

#[test]
fn test_recover_pri_poly_single_point() {
    let xs = vec![scalar_from_u64(1)];
    let ys = vec![scalar_from_u64(2)];

    let recovered_poly = recover_pri_poly(xs, ys).unwrap();

    // Single point should directly return the constant polynomial
    assert_eq!(recovered_poly.coeffs.len(), 1);
    assert_eq!(recovered_poly.coeffs[0], scalar_from_u64(2));
}

#[test]
fn test_recover_pri_poly_inconsistent_lengths() {
    let xs = vec![scalar_from_u64(1), scalar_from_u64(2)];
    let ys = vec![scalar_from_u64(2)];

    let result = recover_pri_poly(xs, ys);

    assert!(result.is_err()); // Expect an error due to inconsistent lengths
}

#[test]
fn test_recover_pri_poly_error_variants() {
    // each abort condition reports its own error
    let empty: Vec<psi_core::scalar::Scalar> = vec![];
    assert_eq!(
        recover_pri_poly(empty.clone(), empty).unwrap_err(),
        Error::EmptyInput
    );
    assert_eq!(
        recover_pri_poly(vec![scalar_from_u64(1)], vec![]).unwrap_err(),
        Error::LengthMismatch
    );
    assert_eq!(
        recover_pri_poly(
            vec![scalar_from_u64(7), scalar_from_u64(7)],
            vec![scalar_from_u64(1), scalar_from_u64(2)]
        )
        .unwrap_err(),
        Error::DuplicateAbscissa
    );
}

#[test]
fn test_interpolation_exactness() {
    // interpolate(xs, ys).evaluate(x_i) == y_i for every i
    let xs: Vec<_> = [5u64, 11, 17, 23, 40].iter().map(|&v| scalar_from_u64(v)).collect();
    let ys: Vec<_> = [9u64, 1, 4, 16, 25].iter().map(|&v| scalar_from_u64(v)).collect();
    let p = recover_pri_poly(xs.clone(), ys.clone()).unwrap();
    for i in 0..xs.len() {
        assert_eq!(p.evaluate(xs[i]), ys[i]);
    }
}

#[test]
fn test_degree() {
    let p = Poly {
        coeffs: vec![scalar_from_u64(1), scalar_from_u64(2), scalar_from_u64(3)],
    };
    assert_eq!(p.degree(), 2);
}

#[test]
fn test_add_trims_trailing_zeros() {
    // the sum of x+1 and -1 is the monomial x; the sum of 1 and -1 is the
    // empty (normalized) polynomial
    let minus_one = scalar_from_u64(1).neg();
    let p1 = Poly {
        coeffs: vec![scalar_from_u64(1), scalar_from_u64(1)],
    };
    let p2 = Poly {
        coeffs: vec![minus_one],
    };
    let r = p1.add(&p2);
    assert_eq!(r.coeffs.len(), 2);
    assert_eq!(r.coeffs[0], scalar_from_u64(0));
    assert_eq!(r.coeffs[1], scalar_from_u64(1));

    let q1 = Poly {
        coeffs: vec![scalar_from_u64(1)],
    };
    let q2 = Poly {
        coeffs: vec![minus_one],
    };
    assert_eq!(q1.add(&q2).coeffs.len(), 0);
}

#[test]
fn test_recover_pri_poly_single_zero_point() {
    // the degree-0 constant is kept even when it is zero
    let p = recover_pri_poly(vec![scalar_from_u64(5)], vec![scalar_from_u64(0)]).unwrap();
    assert_eq!(p.coeffs.len(), 1);
    assert_eq!(p.coeffs[0], scalar_from_u64(0));
}
