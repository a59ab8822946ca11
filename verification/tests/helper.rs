use psi_core::scalar::{hash, scalar_from_u64, to_byte_array, to_scalar};

// Test to check if `to_scalar` and `to_byte_array` are inverse functions
#[test]
fn test_to_scalar_and_to_byte_array_inverse() {
    // Step 1: Define a vector of 32-byte arrays (input)
    let input: Vec<[u8; 32]> = vec![
        [
            187, 180, 56, 208, 215, 198, 166, 114, 114, 197, 120, 218, 30, 30, 124, 213, 238,
            136, 18, 31, 227, 68, 200, 96, 20, 157, 79, 28, 192, 86, 6, 15,
        ],
        [
            241, 223, 178, 205, 173, 213, 90, 61, 250, 2, 16, 12, 197, 69, 52, 150, 13, 237,
            218, 149, 56, 91, 182, 98, 254, 36, 179, 155, 89, 41, 168, 15,
        ],
        [
            173, 69, 140, 100, 94, 114, 135, 30, 150, 212, 171, 83, 89, 55, 82, 108, 143, 223,
            199, 103, 188, 182, 114, 201, 71, 206, 213, 183, 105, 85, 174, 15,
        ],
        [
            137, 219, 49, 179, 24, 10, 177, 24, 50, 100, 22, 111, 86, 197, 215, 27, 114, 110,
            228, 63, 207, 240, 52, 245, 195, 194, 111, 23, 242, 7, 145, 15,
        ],
    ];

    // Step 2: Convert the byte arrays to Scalars using `to_scalar`
    let scalars = to_scalar(input.clone());

    // Step 3: Convert the Scalars back to byte arrays using `to_byte_array`
    let byte_arrays = to_byte_array(scalars);

    // Step 4: Verify that the byte arrays match the original input
    assert_eq!(
        input, byte_arrays,
        "The byte arrays should be the same after converting to scalars and back."
    );
}

#[test]
fn test_to_scalar() {
    // Example input with two 32-byte arrays
    let input: Vec<[u8; 32]> = vec![[0u8; 32], [1u8; 32]];

    // Convert to scalars
    let result = to_scalar(input);

    // Check if the length of the result is as expected
    assert_eq!(result.len(), 2);

    let input1 = result[0].to_bytes();
    let input2 = result[1].to_bytes();

    // Check if the scalars are correct (for zero input, we expect the scalar to be 0)
    assert_eq!(input1, [0u8; 32]);
    assert_eq!(input2, [1u8; 32]); // As we used an array of 1's
}

#[test]
fn test_hash_matches_sha256_test_vector() {
    // SHA-256("abc"), the classic test vector; fails if the wrapper were to
    // hand back its input or hash something else
    let digest = hash(vec![b"abc"]);
    let expected: [u8; 32] = [
        0xba, 0x78, 0x16, 0xbf, 0x8f, 0x01, 0xcf, 0xea, 0x41, 0x41, 0x40, 0xde, 0x5d, 0xae,
        0x22, 0x23, 0xb0, 0x03, 0x61, 0xa3, 0x96, 0x17, 0x7a, 0x9c, 0xb4, 0x10, 0xff, 0x61,
        0xf2, 0x00, 0x15, 0xad,
    ];
    assert_eq!(digest, expected);
}

#[test]
fn test_hash_concatenates_parts() {
    // H2's domain separation: hashing in two parts equals hashing the whole
    let joined = hash(vec![b"abcdef"]);
    let split = hash(vec![b"abc", b"def"]);
    assert_eq!(joined, split);
    assert_ne!(hash(vec![b"abc"]), hash(vec![b"abd"]));
}

#[test]
fn test_scalar_arithmetic_round_trip() {
    let a = scalar_from_u64(21);
    let b = scalar_from_u64(2);
    assert_eq!(a.add(&b), scalar_from_u64(23));
    assert_eq!(a.sub(&b), scalar_from_u64(19));
    assert_eq!(a.mul(&b), scalar_from_u64(42));
    assert_eq!(a.neg().add(&a), scalar_from_u64(0));
    assert_eq!(b.invert().mul(&b), scalar_from_u64(1));
    assert!(a.equals(&scalar_from_u64(21)));
    assert!(!a.equals(&b));
}
