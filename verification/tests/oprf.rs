use psi_core::elligator::{inverse_map, key_from_rng};
use psi_core::permutation::{inverse_permute, permute};
use psi_core::scalar::{string_to_scalar, to_scalar};
use psi_core::poly::recover_pri_poly;

#[test]
fn key_agreement_is_symmetric() {
    let (a, ta) = key_from_rng().unwrap();
    let (b, tb) = key_from_rng().unwrap();
    let ma = inverse_map(a, ta).unwrap();
    let mb = inverse_map(b, tb).unwrap();
    let s1 = psi_core::elligator::map(mb).unwrap().mul_clamped(&a).compress();
    let s2 = psi_core::elligator::map(ma).unwrap().mul_clamped(&b).compress();
    assert_eq!(s1, s2, "cross Diffie-Hellman mismatch");
}

#[test]
fn sender_reconstructs_receiver_representative() {
    let (b1, t1) = key_from_rng().unwrap();
    let (b2, t2) = key_from_rng().unwrap();
    let m1 = inverse_map(b1, t1).unwrap();
    let m2 = inverse_map(b2, t2).unwrap();
    let f1o = inverse_permute(m1);
    let f2o = inverse_permute(m2);
    let e1 = f1o[31];
    let e2 = f2o[31];
    let mut f1 = f1o;
    f1[31] = 0;
    let mut f2 = f2o;
    f2[31] = 0;
    let labels = vec!["a".to_string(), "b".to_string()];
    let xs = string_to_scalar(&labels);
    let ys = to_scalar(vec![f1, f2]);
    let extras = to_scalar(vec![{
        let mut x = [0u8; 32];
        x[0] = e1;
        x
    }, {
        let mut x = [0u8; 32];
        x[0] = e2;
        x
    }]);
    let p1 = recover_pri_poly(xs.clone(), ys.clone()).unwrap();
    let p2 = recover_pri_poly(ys, extras).unwrap();
    let fx = p1.evaluate(xs[0]);
    let mut fi = fx.to_bytes();
    assert_eq!(fi, f1, "body reconstruction differs");
    let fxx = p2.evaluate(fx);
    fi[31] = fxx.to_bytes()[0];
    assert_eq!(fi, f1o, "extra byte reconstruction differs");
    assert_eq!(permute(fi), m1, "representative reconstruction differs");
}
