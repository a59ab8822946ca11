use psi_core::elligator::{inverse_map, key_from_rng, mul_base_clamped};

#[test]
fn test_map() {
    let key = key_from_rng().unwrap();
    let rep = inverse_map(key.0, key.1).unwrap();
    let point = psi_core::elligator::map(rep).unwrap();
    let point_byte1 = point.compress();
    let point_byte2 = mul_base_clamped(&key.0).compress();
    assert_eq!(point_byte1, point_byte2);
}

#[test]
fn test_representative_deterministic() {
    let key = key_from_rng().unwrap();
    let rep1 = inverse_map(key.0, key.1).unwrap();
    let rep2 = inverse_map(key.0, key.1).unwrap();
    assert_eq!(rep1, rep2);
}
