use psi_core::permutation::{inverse_permute, permute, sub_bytes, Words};
use rand::RngCore;

#[test]
fn test_first_round_key() {
    let blocks = [0_u8; 32];
    let encrypted_blocks = inverse_permute(blocks);
    let decrypted_blocks = permute(encrypted_blocks);
    assert_eq!(
        blocks, decrypted_blocks,
        "First round key mismatch: expected, got {:?}",
        decrypted_blocks
    );
}

#[test]
fn test_permute() {
    let blocks = [
        8, 92, 171, 248, 211, 32, 99, 66, 143, 219, 210, 186, 31, 199, 94, 242, 244, 64, 217,
        138, 209, 138, 165, 115, 87, 17, 196, 2, 170, 117, 224, 249,
    ];
    let inverse = inverse_permute(blocks);
    let permute_ = permute(inverse);

    assert_eq!(blocks, permute_,);
}

#[test]
fn test_permutation_bijective_on_random_sample() {
    let mut rng = rand::thread_rng();
    let mut outputs: Vec<[u8; 32]> = Vec::new();
    for _ in 0..200 {
        let mut x = [0u8; 32];
        rng.fill_bytes(&mut x);
        let forward = permute(x);
        assert_eq!(inverse_permute(forward), x);
        assert_eq!(permute(inverse_permute(x)), x);
        outputs.push(forward);
    }
    // a bijection cannot collide over the sample
    for i in 0..outputs.len() {
        for j in (i + 1)..outputs.len() {
            assert_ne!(outputs[i], outputs[j]);
        }
    }
}

#[test]
fn test_permutation_changes_its_input() {
    // the permutation is not the identity and actually mixes bytes
    let x = [0u8; 32];
    assert_ne!(permute(x), x);
    assert_ne!(inverse_permute(x), x);
    assert_ne!(permute(x), inverse_permute(x));
}

// The AES S-box of FIPS-197, used as the reference for the bit-sliced circuit.
const AES_SBOX: [u8; 256] = [
    0x63, 0x7c, 0x77, 0x7b, 0xf2, 0x6b, 0x6f, 0xc5, 0x30, 0x01, 0x67, 0x2b, 0xfe, 0xd7, 0xab, 0x76,
    0xca, 0x82, 0xc9, 0x7d, 0xfa, 0x59, 0x47, 0xf0, 0xad, 0xd4, 0xa2, 0xaf, 0x9c, 0xa4, 0x72, 0xc0,
    0xb7, 0xfd, 0x93, 0x26, 0x36, 0x3f, 0xf7, 0xcc, 0x34, 0xa5, 0xe5, 0xf1, 0x71, 0xd8, 0x31, 0x15,
    0x04, 0xc7, 0x23, 0xc3, 0x18, 0x96, 0x05, 0x9a, 0x07, 0x12, 0x80, 0xe2, 0xeb, 0x27, 0xb2, 0x75,
    0x09, 0x83, 0x2c, 0x1a, 0x1b, 0x6e, 0x5a, 0xa0, 0x52, 0x3b, 0xd6, 0xb3, 0x29, 0xe3, 0x2f, 0x84,
    0x53, 0xd1, 0x00, 0xed, 0x20, 0xfc, 0xb1, 0x5b, 0x6a, 0xcb, 0xbe, 0x39, 0x4a, 0x4c, 0x58, 0xcf,
    0xd0, 0xef, 0xaa, 0xfb, 0x43, 0x4d, 0x33, 0x85, 0x45, 0xf9, 0x02, 0x7f, 0x50, 0x3c, 0x9f, 0xa8,
    0x51, 0xa3, 0x40, 0x8f, 0x92, 0x9d, 0x38, 0xf5, 0xbc, 0xb6, 0xda, 0x21, 0x10, 0xff, 0xf3, 0xd2,
    0xcd, 0x0c, 0x13, 0xec, 0x5f, 0x97, 0x44, 0x17, 0xc4, 0xa7, 0x7e, 0x3d, 0x64, 0x5d, 0x19, 0x73,
    0x60, 0x81, 0x4f, 0xdc, 0x22, 0x2a, 0x90, 0x88, 0x46, 0xee, 0xb8, 0x14, 0xde, 0x5e, 0x0b, 0xdb,
    0xe0, 0x32, 0x3a, 0x0a, 0x49, 0x06, 0x24, 0x5c, 0xc2, 0xd3, 0xac, 0x62, 0x91, 0x95, 0xe4, 0x79,
    0xe7, 0xc8, 0x37, 0x6d, 0x8d, 0xd5, 0x4e, 0xa9, 0x6c, 0x56, 0xf4, 0xea, 0x65, 0x7a, 0xae, 0x08,
    0xba, 0x78, 0x25, 0x2e, 0x1c, 0xa6, 0xb4, 0xc6, 0xe8, 0xdd, 0x74, 0x1f, 0x4b, 0xbd, 0x8b, 0x8a,
    0x70, 0x3e, 0xb5, 0x66, 0x48, 0x03, 0xf6, 0x0e, 0x61, 0x35, 0x57, 0xb9, 0x86, 0xc1, 0x1d, 0x9e,
    0xe1, 0xf8, 0x98, 0x11, 0x69, 0xd9, 0x8e, 0x94, 0x9b, 0x1e, 0x87, 0xe9, 0xce, 0x55, 0x28, 0xdf,
    0x8c, 0xa1, 0x89, 0x0d, 0xbf, 0xe6, 0x42, 0x68, 0x41, 0x99, 0x2d, 0x0f, 0xb0, 0x54, 0xbb, 0x16,
];

#[test]
fn test_sub_bytes_matches_aes_sbox() {
    // the circuit substitutes every byte value as the reference S-box does,
    // up to the constant 0x63 whose inverter gates live in the round keys
    for b in 0u32..256 {
        let mut w = [0u32; 8];
        for (i, slot) in w.iter_mut().enumerate() {
            if (b >> i) & 1 == 1 {
                *slot = 0xffff_ffff;
            }
        }
        let s = Words { w0: w[0], w1: w[1], w2: w[2], w3: w[3], w4: w[4], w5: w[5], w6: w[6], w7: w[7] };
        let r = sub_bytes(s);
        let out = [r.w0, r.w1, r.w2, r.w3, r.w4, r.w5, r.w6, r.w7];
        for p in [0u32, 13, 31] {
            let mut ob: u32 = 0;
            for i in 0..8 {
                ob |= ((out[i] >> p) & 1) << i;
            }
            assert_eq!(ob as u8, AES_SBOX[b as usize] ^ 0x63, "byte {b} slot {p}");
        }
    }
}
