//! A fixed, public permutation on 32-byte strings and its inverse.
//!
//! The permutation is one evaluation of a bit-sliced AES-256 block cipher
//! over two 128-bit halves, run with a hard-coded round-key schedule: the
//! schedule is part of the permutation's definition, not a secret, so both
//! parties can evaluate the map without any key exchange.  The bit-sliced
//! circuits avoid data-dependent branches and table lookups, so evaluation
//! time does not depend on the input value.
//!
//! Every transformation has a specification mirror, and the central theorem
//! [`lemma_permutation_bijective`] shows that `permute` and
//! `inverse_permute` are exact inverses on the whole 256-bit space.

use vstd::prelude::*;

verus! {

/// The 256-bit cipher state: eight 32-bit words in bit-sliced order.
#[derive(Clone, Copy, PartialEq, Eq, Structural, Debug)]
#[verifier::ext_equal]
pub struct Words {
    pub w0: u32,
    pub w1: u32,
    pub w2: u32,
    pub w3: u32,
    pub w4: u32,
    pub w5: u32,
    pub w6: u32,
    pub w7: u32,
}

// ---------------------------------------------------------------------------
// Word rotations
// ---------------------------------------------------------------------------

pub open spec fn spec_ror(x: u32, y: u32) -> u32 {
    (x >> y) | (x << ((32 - y) as u32))
}

/// Rotates a word right by `y` bit positions.
pub fn ror(x: u32, y: u32) -> (r: u32)
    requires
        0 < y < 32,
    ensures
        r == spec_ror(x, y),
{
    (x >> y) | (x << (32 - y))
}

pub open spec fn spec_ror_distance(rows: u32, cols: u32) -> u32 {
    ((rows << 3) + (cols << 1)) as u32
}

/// The rotation distance that moves a value `rows` rows and `cols` columns
/// in the bit-sliced layout.
pub fn ror_distance(rows: u32, cols: u32) -> (r: u32)
    requires
        rows < 4,
        cols < 4,
    ensures
        r == spec_ror_distance(rows, cols),
{
    assert((rows << 3) + (cols << 1) < 32) by (bit_vector)
        requires
            rows < 4 && cols < 4,
    ;
    (rows << 3) + (cols << 1)
}

pub open spec fn spec_rotate_rows_1(x: u32) -> u32 {
    spec_ror(x, 8)
}

/// Rotates each bit-sliced row by one position.
pub fn rotate_rows_1(x: u32) -> (r: u32)
    ensures
        r == spec_rotate_rows_1(x),
{
    assert(spec_ror_distance(1, 0) == 8) by (bit_vector);
    ror(x, ror_distance(1, 0))
}

pub open spec fn spec_rotate_rows_2(x: u32) -> u32 {
    spec_ror(x, 16)
}

/// Rotates each bit-sliced row by two positions.
pub fn rotate_rows_2(x: u32) -> (r: u32)
    ensures
        r == spec_rotate_rows_2(x),
{
    assert(spec_ror_distance(2, 0) == 16) by (bit_vector);
    ror(x, ror_distance(2, 0))
}

pub open spec fn spec_rotate_rows_and_columns_1_1(x: u32) -> u32 {
    (spec_ror(x, 10) & 0x3f3f3f3f) | (spec_ror(x, 2) & 0xc0c0c0c0)
}

/// Rotates rows by one position and columns by one position.
pub fn rotate_rows_and_columns_1_1(x: u32) -> (r: u32)
    ensures
        r == spec_rotate_rows_and_columns_1_1(x),
{
    assert(spec_ror_distance(1, 1) == 10 && spec_ror_distance(0, 1) == 2) by (bit_vector);
    (ror(x, ror_distance(1, 1)) & 0x3f3f3f3f) | (ror(x, ror_distance(0, 1)) & 0xc0c0c0c0)
}

pub open spec fn spec_rotate_rows_and_columns_1_2(x: u32) -> u32 {
    (spec_ror(x, 12) & 0x0f0f0f0f) | (spec_ror(x, 4) & 0xf0f0f0f0)
}

/// Rotates rows by one position and columns by two positions.
pub fn rotate_rows_and_columns_1_2(x: u32) -> (r: u32)
    ensures
        r == spec_rotate_rows_and_columns_1_2(x),
{
    assert(spec_ror_distance(1, 2) == 12 && spec_ror_distance(0, 2) == 4) by (bit_vector);
    (ror(x, ror_distance(1, 2)) & 0x0f0f0f0f) | (ror(x, ror_distance(0, 2)) & 0xf0f0f0f0)
}

pub open spec fn spec_rotate_rows_and_columns_1_3(x: u32) -> u32 {
    (spec_ror(x, 14) & 0x03030303) | (spec_ror(x, 6) & 0xfcfcfcfc)
}

/// Rotates rows by one position and columns by three positions.
pub fn rotate_rows_and_columns_1_3(x: u32) -> (r: u32)
    ensures
        r == spec_rotate_rows_and_columns_1_3(x),
{
    assert(spec_ror_distance(1, 3) == 14 && spec_ror_distance(0, 3) == 6) by (bit_vector);
    (ror(x, ror_distance(1, 3)) & 0x03030303) | (ror(x, ror_distance(0, 3)) & 0xfcfcfcfc)
}

pub open spec fn spec_rotate_rows_and_columns_2_2(x: u32) -> u32 {
    (spec_ror(x, 20) & 0x0f0f0f0f) | (spec_ror(x, 12) & 0xf0f0f0f0)
}

/// Rotates rows by two positions and columns by two positions.
pub fn rotate_rows_and_columns_2_2(x: u32) -> (r: u32)
    ensures
        r == spec_rotate_rows_and_columns_2_2(x),
{
    assert(spec_ror_distance(2, 2) == 20 && spec_ror_distance(1, 2) == 12) by (bit_vector);
    (ror(x, ror_distance(2, 2)) & 0x0f0f0f0f) | (ror(x, ror_distance(1, 2)) & 0xf0f0f0f0)
}

// ---------------------------------------------------------------------------
// Delta swaps and ShiftRows
// ---------------------------------------------------------------------------

pub open spec fn spec_delta_swap_1(a: u32, shift: u32, mask: u32) -> u32 {
    let t: u32 = (a ^ (a >> shift)) & mask;
    a ^ t ^ (t << shift)
}

/// Swaps the bits selected by `mask` with the bits `shift` places above them.
pub fn delta_swap_1(a: u32, shift: u32, mask: u32) -> (r: u32)
    requires
        0 < shift < 32,
    ensures
        r == spec_delta_swap_1(a, shift, mask),
{
    let t: u32 = (a ^ (a >> shift)) & mask;
    a ^ t ^ (t << shift)
}

/// The first word of a two-word delta swap.
pub open spec fn spec_delta_swap_2_a(a: u32, b: u32, shift: u32, mask: u32) -> u32 {
    a ^ ((a ^ (b >> shift)) & mask)
}

/// The second word of a two-word delta swap.
pub open spec fn spec_delta_swap_2_b(a: u32, b: u32, shift: u32, mask: u32) -> u32 {
    b ^ (((a ^ (b >> shift)) & mask) << shift)
}

/// Swaps the bits of `a` selected by `mask` with the bits of `b` `shift`
/// places above them.
pub fn delta_swap_2(a: u32, b: u32, shift: u32, mask: u32) -> (r: (u32, u32))
    requires
        0 < shift < 32,
    ensures
        r.0 == spec_delta_swap_2_a(a, b, shift, mask),
        r.1 == spec_delta_swap_2_b(a, b, shift, mask),
{
    let t: u32 = (a ^ (b >> shift)) & mask;
    (a ^ t, b ^ (t << shift))
}

proof fn lemma_delta_swap_1_involution(a: u32)
    ensures
        spec_delta_swap_1(spec_delta_swap_1(a, 4, 0x0f000f00), 4, 0x0f000f00) == a,
{
    assert(spec_delta_swap_1(spec_delta_swap_1(a, 4, 0x0f000f00), 4, 0x0f000f00) == a)
        by (bit_vector);
}

pub open spec fn spec_shift_rows_2(s: Words) -> Words {
    Words {
        w0: spec_delta_swap_1(s.w0, 4, 0x0f000f00),
        w1: spec_delta_swap_1(s.w1, 4, 0x0f000f00),
        w2: spec_delta_swap_1(s.w2, 4, 0x0f000f00),
        w3: spec_delta_swap_1(s.w3, 4, 0x0f000f00),
        w4: spec_delta_swap_1(s.w4, 4, 0x0f000f00),
        w5: spec_delta_swap_1(s.w5, 4, 0x0f000f00),
        w6: spec_delta_swap_1(s.w6, 4, 0x0f000f00),
        w7: spec_delta_swap_1(s.w7, 4, 0x0f000f00),
    }
}

/// Applies ShiftRows twice to the bit-sliced state.
pub fn shift_rows_2(s: Words) -> (r: Words)
    ensures
        r == spec_shift_rows_2(s),
{
    Words {
        w0: delta_swap_1(s.w0, 4, 0x0f000f00),
        w1: delta_swap_1(s.w1, 4, 0x0f000f00),
        w2: delta_swap_1(s.w2, 4, 0x0f000f00),
        w3: delta_swap_1(s.w3, 4, 0x0f000f00),
        w4: delta_swap_1(s.w4, 4, 0x0f000f00),
        w5: delta_swap_1(s.w5, 4, 0x0f000f00),
        w6: delta_swap_1(s.w6, 4, 0x0f000f00),
        w7: delta_swap_1(s.w7, 4, 0x0f000f00),
    }
}

/// The double ShiftRows is its own inverse.
pub fn inv_shift_rows_2(s: Words) -> (r: Words)
    ensures
        r == spec_shift_rows_2(s),
{
    shift_rows_2(s)
}

/// Applying the double ShiftRows twice restores the state.
proof fn lemma_shift_rows_2_involution(s: Words)
    ensures
        spec_shift_rows_2(spec_shift_rows_2(s)) == s,
{
    lemma_delta_swap_1_involution(s.w0);
    lemma_delta_swap_1_involution(s.w1);
    lemma_delta_swap_1_involution(s.w2);
    lemma_delta_swap_1_involution(s.w3);
    lemma_delta_swap_1_involution(s.w4);
    lemma_delta_swap_1_involution(s.w5);
    lemma_delta_swap_1_involution(s.w6);
    lemma_delta_swap_1_involution(s.w7);
}

// ---------------------------------------------------------------------------
// Round-key addition
// ---------------------------------------------------------------------------

pub open spec fn spec_add_round_key(s: Words, k: Words) -> Words {
    Words {
        w0: s.w0 ^ k.w0,
        w1: s.w1 ^ k.w1,
        w2: s.w2 ^ k.w2,
        w3: s.w3 ^ k.w3,
        w4: s.w4 ^ k.w4,
        w5: s.w5 ^ k.w5,
        w6: s.w6 ^ k.w6,
        w7: s.w7 ^ k.w7,
    }
}

/// Adds (xors) one bit-sliced round key into the state.
pub fn add_round_key(s: Words, k: Words) -> (r: Words)
    ensures
        r == spec_add_round_key(s, k),
{
    Words {
        w0: s.w0 ^ k.w0,
        w1: s.w1 ^ k.w1,
        w2: s.w2 ^ k.w2,
        w3: s.w3 ^ k.w3,
        w4: s.w4 ^ k.w4,
        w5: s.w5 ^ k.w5,
        w6: s.w6 ^ k.w6,
        w7: s.w7 ^ k.w7,
    }
}

proof fn lemma_xor_cancel(x: u32, k: u32)
    ensures
        (x ^ k) ^ k == x,
{
    assert((x ^ k) ^ k == x) by (bit_vector);
}

/// Adding the same round key twice restores the state.
proof fn lemma_add_round_key_involution(s: Words, k: Words)
    ensures
        spec_add_round_key(spec_add_round_key(s, k), k) == s,
{
    lemma_xor_cancel(s.w0, k.w0);
    lemma_xor_cancel(s.w1, k.w1);
    lemma_xor_cancel(s.w2, k.w2);
    lemma_xor_cancel(s.w3, k.w3);
    lemma_xor_cancel(s.w4, k.w4);
    lemma_xor_cancel(s.w5, k.w5);
    lemma_xor_cancel(s.w6, k.w6);
    lemma_xor_cancel(s.w7, k.w7);
}

// ---------------------------------------------------------------------------
// The bit-sliced AES S-box and its inverse (Boyar-Peralta circuits)
// ---------------------------------------------------------------------------

pub open spec fn spec_sub_bytes(s: Words) -> Words {
    let u7: u32 = s.w0;
    let u6: u32 = s.w1;
    let u5: u32 = s.w2;
    let u4: u32 = s.w3;
    let u3: u32 = s.w4;
    let u2: u32 = s.w5;
    let u1: u32 = s.w6;
    let u0: u32 = s.w7;
    let y14: u32 = u3 ^ u5;
    let y13: u32 = u0 ^ u6;
    let y12: u32 = y13 ^ y14;
    let t1: u32 = u4 ^ y12;
    let y15: u32 = t1 ^ u5;
    let t2: u32 = y12 & y15;
    let y6: u32 = y15 ^ u7;
    let y20: u32 = t1 ^ u1;
    let y9: u32 = u0 ^ u3;
    let y11: u32 = y20 ^ y9;
    let t12: u32 = y9 & y11;
    let y7: u32 = u7 ^ y11;
    let y8: u32 = u0 ^ u5;
    let t0: u32 = u1 ^ u2;
    let y10: u32 = y15 ^ t0;
    let y17: u32 = y10 ^ y11;
    let t13: u32 = y14 & y17;
    let t14: u32 = t13 ^ t12;
    let y19: u32 = y10 ^ y8;
    let t15: u32 = y8 & y10;
    let t16: u32 = t15 ^ t12;
    let y16: u32 = t0 ^ y11;
    let y21: u32 = y13 ^ y16;
    let t7: u32 = y13 & y16;
    let y18: u32 = u0 ^ y16;
    let y1: u32 = t0 ^ u7;
    let y4: u32 = y1 ^ u3;
    let t5: u32 = y4 & u7;
    let t6: u32 = t5 ^ t2;
    let t18: u32 = t6 ^ t16;
    let t22: u32 = t18 ^ y19;
    let y2: u32 = y1 ^ u0;
    let t10: u32 = y2 & y7;
    let t11: u32 = t10 ^ t7;
    let t20: u32 = t11 ^ t16;
    let t24: u32 = t20 ^ y18;
    let y5: u32 = y1 ^ u6;
    let t8: u32 = y5 & y1;
    let t9: u32 = t8 ^ t7;
    let t19: u32 = t9 ^ t14;
    let t23: u32 = t19 ^ y21;
    let y3: u32 = y5 ^ y8;
    let t3: u32 = y3 & y6;
    let t4: u32 = t3 ^ t2;
    let t17: u32 = t4 ^ y20;
    let t21: u32 = t17 ^ t14;
    let t26: u32 = t21 & t23;
    let t27: u32 = t24 ^ t26;
    let t31: u32 = t22 ^ t26;
    let t25: u32 = t21 ^ t22;
    let t28: u32 = t25 & t27;
    let t29: u32 = t28 ^ t22;
    let z14: u32 = t29 & y2;
    let z5: u32 = t29 & y7;
    let t30: u32 = t23 ^ t24;
    let t32: u32 = t31 & t30;
    let t33: u32 = t32 ^ t24;
    let t35: u32 = t27 ^ t33;
    let t36: u32 = t24 & t35;
    let t38: u32 = t27 ^ t36;
    let t39: u32 = t29 & t38;
    let t40: u32 = t25 ^ t39;
    let t43: u32 = t29 ^ t40;
    let z3: u32 = t43 & y16;
    let tc12: u32 = z3 ^ z5;
    let z12: u32 = t43 & y13;
    let z13: u32 = t40 & y5;
    let z4: u32 = t40 & y1;
    let tc6: u32 = z3 ^ z4;
    let t34: u32 = t23 ^ t33;
    let t37: u32 = t36 ^ t34;
    let t41: u32 = t40 ^ t37;
    let z8: u32 = t41 & y10;
    let z17: u32 = t41 & y8;
    let t44: u32 = t33 ^ t37;
    let z0: u32 = t44 & y15;
    let z9: u32 = t44 & y12;
    let z10: u32 = t37 & y3;
    let z1: u32 = t37 & y6;
    let tc5: u32 = z1 ^ z0;
    let tc11: u32 = tc6 ^ tc5;
    let z11: u32 = t33 & y4;
    let t42: u32 = t29 ^ t33;
    let t45: u32 = t42 ^ t41;
    let z7: u32 = t45 & y17;
    let tc8: u32 = z7 ^ tc6;
    let z16: u32 = t45 & y14;
    let z6: u32 = t42 & y11;
    let tc16: u32 = z6 ^ tc8;
    let z15: u32 = t42 & y9;
    let tc20: u32 = z15 ^ tc16;
    let tc1: u32 = z15 ^ z16;
    let tc2: u32 = z10 ^ tc1;
    let tc21: u32 = tc2 ^ z11;
    let tc3: u32 = z9 ^ tc2;
    let s0: u32 = tc3 ^ tc16;
    let s3: u32 = tc3 ^ tc11;
    let s1: u32 = s3 ^ tc16;
    let tc13: u32 = z13 ^ tc1;
    let z2: u32 = t33 & u7;
    let tc4: u32 = z0 ^ z2;
    let tc7: u32 = z12 ^ tc4;
    let tc9: u32 = z8 ^ tc7;
    let tc10: u32 = tc8 ^ tc9;
    let tc17: u32 = z14 ^ tc10;
    let s5: u32 = tc21 ^ tc17;
    let tc26: u32 = tc17 ^ tc20;
    let s2: u32 = tc26 ^ z17;
    let tc14: u32 = tc4 ^ tc12;
    let tc18: u32 = tc13 ^ tc14;
    let s6: u32 = tc10 ^ tc18;
    let s7: u32 = z12 ^ tc18;
    let s4: u32 = tc14 ^ s3;
    Words {
        w0: s7,
        w1: s6,
        w2: s5,
        w3: s4,
        w4: s3,
        w5: s2,
        w6: s1,
        w7: s0,
    }
}

/// Applies the AES S-box to all 32 bit-sliced byte slots at once.
pub fn sub_bytes(s: Words) -> (r: Words)
    ensures
        r == spec_sub_bytes(s),
{
    let u7: u32 = s.w0;
    let u6: u32 = s.w1;
    let u5: u32 = s.w2;
    let u4: u32 = s.w3;
    let u3: u32 = s.w4;
    let u2: u32 = s.w5;
    let u1: u32 = s.w6;
    let u0: u32 = s.w7;
    let y14: u32 = u3 ^ u5;
    let y13: u32 = u0 ^ u6;
    let y12: u32 = y13 ^ y14;
    let t1: u32 = u4 ^ y12;
    let y15: u32 = t1 ^ u5;
    let t2: u32 = y12 & y15;
    let y6: u32 = y15 ^ u7;
    let y20: u32 = t1 ^ u1;
    let y9: u32 = u0 ^ u3;
    let y11: u32 = y20 ^ y9;
    let t12: u32 = y9 & y11;
    let y7: u32 = u7 ^ y11;
    let y8: u32 = u0 ^ u5;
    let t0: u32 = u1 ^ u2;
    let y10: u32 = y15 ^ t0;
    let y17: u32 = y10 ^ y11;
    let t13: u32 = y14 & y17;
    let t14: u32 = t13 ^ t12;
    let y19: u32 = y10 ^ y8;
    let t15: u32 = y8 & y10;
    let t16: u32 = t15 ^ t12;
    let y16: u32 = t0 ^ y11;
    let y21: u32 = y13 ^ y16;
    let t7: u32 = y13 & y16;
    let y18: u32 = u0 ^ y16;
    let y1: u32 = t0 ^ u7;
    let y4: u32 = y1 ^ u3;
    let t5: u32 = y4 & u7;
    let t6: u32 = t5 ^ t2;
    let t18: u32 = t6 ^ t16;
    let t22: u32 = t18 ^ y19;
    let y2: u32 = y1 ^ u0;
    let t10: u32 = y2 & y7;
    let t11: u32 = t10 ^ t7;
    let t20: u32 = t11 ^ t16;
    let t24: u32 = t20 ^ y18;
    let y5: u32 = y1 ^ u6;
    let t8: u32 = y5 & y1;
    let t9: u32 = t8 ^ t7;
    let t19: u32 = t9 ^ t14;
    let t23: u32 = t19 ^ y21;
    let y3: u32 = y5 ^ y8;
    let t3: u32 = y3 & y6;
    let t4: u32 = t3 ^ t2;
    let t17: u32 = t4 ^ y20;
    let t21: u32 = t17 ^ t14;
    let t26: u32 = t21 & t23;
    let t27: u32 = t24 ^ t26;
    let t31: u32 = t22 ^ t26;
    let t25: u32 = t21 ^ t22;
    let t28: u32 = t25 & t27;
    let t29: u32 = t28 ^ t22;
    let z14: u32 = t29 & y2;
    let z5: u32 = t29 & y7;
    let t30: u32 = t23 ^ t24;
    let t32: u32 = t31 & t30;
    let t33: u32 = t32 ^ t24;
    let t35: u32 = t27 ^ t33;
    let t36: u32 = t24 & t35;
    let t38: u32 = t27 ^ t36;
    let t39: u32 = t29 & t38;
    let t40: u32 = t25 ^ t39;
    let t43: u32 = t29 ^ t40;
    let z3: u32 = t43 & y16;
    let tc12: u32 = z3 ^ z5;
    let z12: u32 = t43 & y13;
    let z13: u32 = t40 & y5;
    let z4: u32 = t40 & y1;
    let tc6: u32 = z3 ^ z4;
    let t34: u32 = t23 ^ t33;
    let t37: u32 = t36 ^ t34;
    let t41: u32 = t40 ^ t37;
    let z8: u32 = t41 & y10;
    let z17: u32 = t41 & y8;
    let t44: u32 = t33 ^ t37;
    let z0: u32 = t44 & y15;
    let z9: u32 = t44 & y12;
    let z10: u32 = t37 & y3;
    let z1: u32 = t37 & y6;
    let tc5: u32 = z1 ^ z0;
    let tc11: u32 = tc6 ^ tc5;
    let z11: u32 = t33 & y4;
    let t42: u32 = t29 ^ t33;
    let t45: u32 = t42 ^ t41;
    let z7: u32 = t45 & y17;
    let tc8: u32 = z7 ^ tc6;
    let z16: u32 = t45 & y14;
    let z6: u32 = t42 & y11;
    let tc16: u32 = z6 ^ tc8;
    let z15: u32 = t42 & y9;
    let tc20: u32 = z15 ^ tc16;
    let tc1: u32 = z15 ^ z16;
    let tc2: u32 = z10 ^ tc1;
    let tc21: u32 = tc2 ^ z11;
    let tc3: u32 = z9 ^ tc2;
    let s0: u32 = tc3 ^ tc16;
    let s3: u32 = tc3 ^ tc11;
    let s1: u32 = s3 ^ tc16;
    let tc13: u32 = z13 ^ tc1;
    let z2: u32 = t33 & u7;
    let tc4: u32 = z0 ^ z2;
    let tc7: u32 = z12 ^ tc4;
    let tc9: u32 = z8 ^ tc7;
    let tc10: u32 = tc8 ^ tc9;
    let tc17: u32 = z14 ^ tc10;
    let s5: u32 = tc21 ^ tc17;
    let tc26: u32 = tc17 ^ tc20;
    let s2: u32 = tc26 ^ z17;
    let tc14: u32 = tc4 ^ tc12;
    let tc18: u32 = tc13 ^ tc14;
    let s6: u32 = tc10 ^ tc18;
    let s7: u32 = z12 ^ tc18;
    let s4: u32 = tc14 ^ s3;
    Words {
        w0: s7,
        w1: s6,
        w2: s5,
        w3: s4,
        w4: s3,
        w5: s2,
        w6: s1,
        w7: s0,
    }
}

pub open spec fn spec_inv_sub_bytes(s: Words) -> Words {
    let u7: u32 = s.w0;
    let u6: u32 = s.w1;
    let u5: u32 = s.w2;
    let u4: u32 = s.w3;
    let u3: u32 = s.w4;
    let u2: u32 = s.w5;
    let u1: u32 = s.w6;
    let u0: u32 = s.w7;
    let t23: u32 = u0 ^ u3;
    let t8: u32 = u1 ^ t23;
    let m2: u32 = t23 & t8;
    let t4: u32 = u4 ^ t8;
    let t22: u32 = u1 ^ u3;
    let t2: u32 = u0 ^ u1;
    let t1: u32 = u3 ^ u4;
    let t9: u32 = u7 ^ t1;
    let m7: u32 = t22 & t9;
    let t24: u32 = u4 ^ u7;
    let t10: u32 = t2 ^ t24;
    let m14: u32 = t2 & t10;
    let r5: u32 = u6 ^ u7;
    let t3: u32 = t1 ^ r5;
    let t13: u32 = t2 ^ r5;
    let t19: u32 = t22 ^ r5;
    let t17: u32 = u2 ^ t19;
    let t25: u32 = u2 ^ t1;
    let r13: u32 = u1 ^ u6;
    let t20: u32 = t24 ^ r13;
    let m9: u32 = t20 & t17;
    let r17: u32 = u2 ^ u5;
    let t6: u32 = t22 ^ r17;
    let m1: u32 = t13 & t6;
    let y5: u32 = u0 ^ r17;
    let m4: u32 = t19 & y5;
    let m5: u32 = m4 ^ m1;
    let m17: u32 = m5 ^ t24;
    let r18: u32 = u5 ^ u6;
    let t27: u32 = t1 ^ r18;
    let t15: u32 = t10 ^ t27;
    let m11: u32 = t1 & t15;
    let m15: u32 = m14 ^ m11;
    let m21: u32 = m17 ^ m15;
    let m12: u32 = t4 & t27;
    let m13: u32 = m12 ^ m11;
    let t14: u32 = t10 ^ r18;
    let m3: u32 = t14 ^ m1;
    let m16: u32 = m3 ^ m2;
    let m20: u32 = m16 ^ m13;
    let r19: u32 = u2 ^ u4;
    let t16: u32 = r13 ^ r19;
    let t26: u32 = t3 ^ t16;
    let m6: u32 = t3 & t16;
    let m8: u32 = t26 ^ m6;
    let m18: u32 = m8 ^ m7;
    let m22: u32 = m18 ^ m13;
    let m25: u32 = m22 & m20;
    let m26: u32 = m21 ^ m25;
    let m10: u32 = m9 ^ m6;
    let m19: u32 = m10 ^ m15;
    let m23: u32 = m19 ^ t25;
    let m28: u32 = m23 ^ m25;
    let m24: u32 = m22 ^ m23;
    let m30: u32 = m26 & m24;
    let m39: u32 = m23 ^ m30;
    let m48: u32 = m39 & y5;
    let m57: u32 = m39 & t19;
    let m36: u32 = m24 ^ m25;
    let m31: u32 = m20 & m23;
    let m27: u32 = m20 ^ m21;
    let m32: u32 = m27 & m31;
    let m29: u32 = m28 & m27;
    let m37: u32 = m21 ^ m29;
    let m42: u32 = m37 ^ m39;
    let m52: u32 = m42 & t15;
    let m61: u32 = m42 & t1;
    let p0: u32 = m52 ^ m61;
    let p16: u32 = m57 ^ m61;
    let m60: u32 = m37 & t20;
    let m51: u32 = m37 & t17;
    let m33: u32 = m27 ^ m25;
    let m38: u32 = m32 ^ m33;
    let m43: u32 = m37 ^ m38;
    let m49: u32 = m43 & t16;
    let p6: u32 = m49 ^ m60;
    let p13: u32 = m49 ^ m51;
    let m58: u32 = m43 & t3;
    let m50: u32 = m38 & t9;
    let m59: u32 = m38 & t22;
    let p1: u32 = m58 ^ m59;
    let p7: u32 = p0 ^ p1;
    let m34: u32 = m21 & m22;
    let m35: u32 = m24 & m34;
    let m40: u32 = m35 ^ m36;
    let m41: u32 = m38 ^ m40;
    let m45: u32 = m42 ^ m41;
    let m53: u32 = m45 & t27;
    let p8: u32 = m50 ^ m53;
    let p23: u32 = p7 ^ p8;
    let m62: u32 = m45 & t4;
    let p14: u32 = m49 ^ m62;
    let s6: u32 = p14 ^ p23;
    let m54: u32 = m41 & t10;
    let p2: u32 = m54 ^ m62;
    let p22: u32 = p2 ^ p7;
    let s0: u32 = p13 ^ p22;
    let p17: u32 = m58 ^ p2;
    let p15: u32 = m54 ^ m59;
    let m63: u32 = m41 & t2;
    let m44: u32 = m39 ^ m40;
    let m46: u32 = m44 & t6;
    let p5: u32 = m46 ^ m51;
    let p18: u32 = m63 ^ p5;
    let p24: u32 = p5 ^ p7;
    let p12: u32 = m46 ^ m48;
    let s3: u32 = p12 ^ p22;
    let m55: u32 = m44 & t13;
    let p9: u32 = m55 ^ m63;
    let s7: u32 = p9 ^ p16;
    let m47: u32 = m40 & t8;
    let p3: u32 = m47 ^ m50;
    let p19: u32 = p2 ^ p3;
    let s5: u32 = p19 ^ p24;
    let p11: u32 = p0 ^ p3;
    let p26: u32 = p9 ^ p11;
    let m56: u32 = m40 & t23;
    let p4: u32 = m48 ^ m56;
    let p20: u32 = p4 ^ p6;
    let p29: u32 = p15 ^ p20;
    let s1: u32 = p26 ^ p29;
    let p10: u32 = m57 ^ p4;
    let p27: u32 = p10 ^ p18;
    let s4: u32 = p23 ^ p27;
    let p25: u32 = p6 ^ p10;
    let p28: u32 = p11 ^ p25;
    let s2: u32 = p17 ^ p28;
    Words {
        w0: s7,
        w1: s6,
        w2: s5,
        w3: s4,
        w4: s3,
        w5: s2,
        w6: s1,
        w7: s0,
    }
}

/// Applies the inverse AES S-box to all 32 bit-sliced byte slots at once.
pub fn inv_sub_bytes(s: Words) -> (r: Words)
    ensures
        r == spec_inv_sub_bytes(s),
{
    let u7: u32 = s.w0;
    let u6: u32 = s.w1;
    let u5: u32 = s.w2;
    let u4: u32 = s.w3;
    let u3: u32 = s.w4;
    let u2: u32 = s.w5;
    let u1: u32 = s.w6;
    let u0: u32 = s.w7;
    let t23: u32 = u0 ^ u3;
    let t8: u32 = u1 ^ t23;
    let m2: u32 = t23 & t8;
    let t4: u32 = u4 ^ t8;
    let t22: u32 = u1 ^ u3;
    let t2: u32 = u0 ^ u1;
    let t1: u32 = u3 ^ u4;
    let t9: u32 = u7 ^ t1;
    let m7: u32 = t22 & t9;
    let t24: u32 = u4 ^ u7;
    let t10: u32 = t2 ^ t24;
    let m14: u32 = t2 & t10;
    let r5: u32 = u6 ^ u7;
    let t3: u32 = t1 ^ r5;
    let t13: u32 = t2 ^ r5;
    let t19: u32 = t22 ^ r5;
    let t17: u32 = u2 ^ t19;
    let t25: u32 = u2 ^ t1;
    let r13: u32 = u1 ^ u6;
    let t20: u32 = t24 ^ r13;
    let m9: u32 = t20 & t17;
    let r17: u32 = u2 ^ u5;
    let t6: u32 = t22 ^ r17;
    let m1: u32 = t13 & t6;
    let y5: u32 = u0 ^ r17;
    let m4: u32 = t19 & y5;
    let m5: u32 = m4 ^ m1;
    let m17: u32 = m5 ^ t24;
    let r18: u32 = u5 ^ u6;
    let t27: u32 = t1 ^ r18;
    let t15: u32 = t10 ^ t27;
    let m11: u32 = t1 & t15;
    let m15: u32 = m14 ^ m11;
    let m21: u32 = m17 ^ m15;
    let m12: u32 = t4 & t27;
    let m13: u32 = m12 ^ m11;
    let t14: u32 = t10 ^ r18;
    let m3: u32 = t14 ^ m1;
    let m16: u32 = m3 ^ m2;
    let m20: u32 = m16 ^ m13;
    let r19: u32 = u2 ^ u4;
    let t16: u32 = r13 ^ r19;
    let t26: u32 = t3 ^ t16;
    let m6: u32 = t3 & t16;
    let m8: u32 = t26 ^ m6;
    let m18: u32 = m8 ^ m7;
    let m22: u32 = m18 ^ m13;
    let m25: u32 = m22 & m20;
    let m26: u32 = m21 ^ m25;
    let m10: u32 = m9 ^ m6;
    let m19: u32 = m10 ^ m15;
    let m23: u32 = m19 ^ t25;
    let m28: u32 = m23 ^ m25;
    let m24: u32 = m22 ^ m23;
    let m30: u32 = m26 & m24;
    let m39: u32 = m23 ^ m30;
    let m48: u32 = m39 & y5;
    let m57: u32 = m39 & t19;
    let m36: u32 = m24 ^ m25;
    let m31: u32 = m20 & m23;
    let m27: u32 = m20 ^ m21;
    let m32: u32 = m27 & m31;
    let m29: u32 = m28 & m27;
    let m37: u32 = m21 ^ m29;
    let m42: u32 = m37 ^ m39;
    let m52: u32 = m42 & t15;
    let m61: u32 = m42 & t1;
    let p0: u32 = m52 ^ m61;
    let p16: u32 = m57 ^ m61;
    let m60: u32 = m37 & t20;
    let m51: u32 = m37 & t17;
    let m33: u32 = m27 ^ m25;
    let m38: u32 = m32 ^ m33;
    let m43: u32 = m37 ^ m38;
    let m49: u32 = m43 & t16;
    let p6: u32 = m49 ^ m60;
    let p13: u32 = m49 ^ m51;
    let m58: u32 = m43 & t3;
    let m50: u32 = m38 & t9;
    let m59: u32 = m38 & t22;
    let p1: u32 = m58 ^ m59;
    let p7: u32 = p0 ^ p1;
    let m34: u32 = m21 & m22;
    let m35: u32 = m24 & m34;
    let m40: u32 = m35 ^ m36;
    let m41: u32 = m38 ^ m40;
    let m45: u32 = m42 ^ m41;
    let m53: u32 = m45 & t27;
    let p8: u32 = m50 ^ m53;
    let p23: u32 = p7 ^ p8;
    let m62: u32 = m45 & t4;
    let p14: u32 = m49 ^ m62;
    let s6: u32 = p14 ^ p23;
    let m54: u32 = m41 & t10;
    let p2: u32 = m54 ^ m62;
    let p22: u32 = p2 ^ p7;
    let s0: u32 = p13 ^ p22;
    let p17: u32 = m58 ^ p2;
    let p15: u32 = m54 ^ m59;
    let m63: u32 = m41 & t2;
    let m44: u32 = m39 ^ m40;
    let m46: u32 = m44 & t6;
    let p5: u32 = m46 ^ m51;
    let p18: u32 = m63 ^ p5;
    let p24: u32 = p5 ^ p7;
    let p12: u32 = m46 ^ m48;
    let s3: u32 = p12 ^ p22;
    let m55: u32 = m44 & t13;
    let p9: u32 = m55 ^ m63;
    let s7: u32 = p9 ^ p16;
    let m47: u32 = m40 & t8;
    let p3: u32 = m47 ^ m50;
    let p19: u32 = p2 ^ p3;
    let s5: u32 = p19 ^ p24;
    let p11: u32 = p0 ^ p3;
    let p26: u32 = p9 ^ p11;
    let m56: u32 = m40 & t23;
    let p4: u32 = m48 ^ m56;
    let p20: u32 = p4 ^ p6;
    let p29: u32 = p15 ^ p20;
    let s1: u32 = p26 ^ p29;
    let p10: u32 = m57 ^ p4;
    let p27: u32 = p10 ^ p18;
    let s4: u32 = p23 ^ p27;
    let p25: u32 = p6 ^ p10;
    let p28: u32 = p11 ^ p25;
    let s2: u32 = p17 ^ p28;
    Words {
        w0: s7,
        w1: s6,
        w2: s5,
        w3: s4,
        w4: s3,
        w5: s2,
        w6: s1,
        w7: s0,
    }
}

/// The inverse S-box circuit undoes the S-box circuit.
#[verifier::rlimit(100)]
proof fn lemma_inv_sub_bytes_of_sub_bytes(s: Words)
    ensures
        spec_inv_sub_bytes(spec_sub_bytes(s)) == s,
{
    let a_u7: u32 = s.w0;
    let a_u6: u32 = s.w1;
    let a_u5: u32 = s.w2;
    let a_u4: u32 = s.w3;
    let a_u3: u32 = s.w4;
    let a_u2: u32 = s.w5;
    let a_u1: u32 = s.w6;
    let a_u0: u32 = s.w7;
    let a_y14: u32 = a_u3 ^ a_u5;
    let a_y13: u32 = a_u0 ^ a_u6;
    let a_y12: u32 = a_y13 ^ a_y14;
    let a_t1: u32 = a_u4 ^ a_y12;
    let a_y15: u32 = a_t1 ^ a_u5;
    let a_t2: u32 = a_y12 & a_y15;
    let a_y6: u32 = a_y15 ^ a_u7;
    let a_y20: u32 = a_t1 ^ a_u1;
    let a_y9: u32 = a_u0 ^ a_u3;
    let a_y11: u32 = a_y20 ^ a_y9;
    let a_t12: u32 = a_y9 & a_y11;
    let a_y7: u32 = a_u7 ^ a_y11;
    let a_y8: u32 = a_u0 ^ a_u5;
    let a_t0: u32 = a_u1 ^ a_u2;
    let a_y10: u32 = a_y15 ^ a_t0;
    let a_y17: u32 = a_y10 ^ a_y11;
    let a_t13: u32 = a_y14 & a_y17;
    let a_t14: u32 = a_t13 ^ a_t12;
    let a_y19: u32 = a_y10 ^ a_y8;
    let a_t15: u32 = a_y8 & a_y10;
    let a_t16: u32 = a_t15 ^ a_t12;
    let a_y16: u32 = a_t0 ^ a_y11;
    let a_y21: u32 = a_y13 ^ a_y16;
    let a_t7: u32 = a_y13 & a_y16;
    let a_y18: u32 = a_u0 ^ a_y16;
    let a_y1: u32 = a_t0 ^ a_u7;
    let a_y4: u32 = a_y1 ^ a_u3;
    let a_t5: u32 = a_y4 & a_u7;
    let a_t6: u32 = a_t5 ^ a_t2;
    let a_t18: u32 = a_t6 ^ a_t16;
    let a_t22: u32 = a_t18 ^ a_y19;
    let a_y2: u32 = a_y1 ^ a_u0;
    let a_t10: u32 = a_y2 & a_y7;
    let a_t11: u32 = a_t10 ^ a_t7;
    let a_t20: u32 = a_t11 ^ a_t16;
    let a_t24: u32 = a_t20 ^ a_y18;
    let a_y5: u32 = a_y1 ^ a_u6;
    let a_t8: u32 = a_y5 & a_y1;
    let a_t9: u32 = a_t8 ^ a_t7;
    let a_t19: u32 = a_t9 ^ a_t14;
    let a_t23: u32 = a_t19 ^ a_y21;
    let a_y3: u32 = a_y5 ^ a_y8;
    let a_t3: u32 = a_y3 & a_y6;
    let a_t4: u32 = a_t3 ^ a_t2;
    let a_t17: u32 = a_t4 ^ a_y20;
    let a_t21: u32 = a_t17 ^ a_t14;
    let a_t26: u32 = a_t21 & a_t23;
    let a_t27: u32 = a_t24 ^ a_t26;
    let a_t31: u32 = a_t22 ^ a_t26;
    let a_t25: u32 = a_t21 ^ a_t22;
    let a_t28: u32 = a_t25 & a_t27;
    let a_t29: u32 = a_t28 ^ a_t22;
    let a_z14: u32 = a_t29 & a_y2;
    let a_z5: u32 = a_t29 & a_y7;
    let a_t30: u32 = a_t23 ^ a_t24;
    let a_t32: u32 = a_t31 & a_t30;
    let a_t33: u32 = a_t32 ^ a_t24;
    let a_t35: u32 = a_t27 ^ a_t33;
    let a_t36: u32 = a_t24 & a_t35;
    let a_t38: u32 = a_t27 ^ a_t36;
    let a_t39: u32 = a_t29 & a_t38;
    let a_t40: u32 = a_t25 ^ a_t39;
    let a_t43: u32 = a_t29 ^ a_t40;
    let a_z3: u32 = a_t43 & a_y16;
    let a_tc12: u32 = a_z3 ^ a_z5;
    let a_z12: u32 = a_t43 & a_y13;
    let a_z13: u32 = a_t40 & a_y5;
    let a_z4: u32 = a_t40 & a_y1;
    let a_tc6: u32 = a_z3 ^ a_z4;
    let a_t34: u32 = a_t23 ^ a_t33;
    let a_t37: u32 = a_t36 ^ a_t34;
    let a_t41: u32 = a_t40 ^ a_t37;
    let a_z8: u32 = a_t41 & a_y10;
    let a_z17: u32 = a_t41 & a_y8;
    let a_t44: u32 = a_t33 ^ a_t37;
    let a_z0: u32 = a_t44 & a_y15;
    let a_z9: u32 = a_t44 & a_y12;
    let a_z10: u32 = a_t37 & a_y3;
    let a_z1: u32 = a_t37 & a_y6;
    let a_tc5: u32 = a_z1 ^ a_z0;
    let a_tc11: u32 = a_tc6 ^ a_tc5;
    let a_z11: u32 = a_t33 & a_y4;
    let a_t42: u32 = a_t29 ^ a_t33;
    let a_t45: u32 = a_t42 ^ a_t41;
    let a_z7: u32 = a_t45 & a_y17;
    let a_tc8: u32 = a_z7 ^ a_tc6;
    let a_z16: u32 = a_t45 & a_y14;
    let a_z6: u32 = a_t42 & a_y11;
    let a_tc16: u32 = a_z6 ^ a_tc8;
    let a_z15: u32 = a_t42 & a_y9;
    let a_tc20: u32 = a_z15 ^ a_tc16;
    let a_tc1: u32 = a_z15 ^ a_z16;
    let a_tc2: u32 = a_z10 ^ a_tc1;
    let a_tc21: u32 = a_tc2 ^ a_z11;
    let a_tc3: u32 = a_z9 ^ a_tc2;
    let a_s0: u32 = a_tc3 ^ a_tc16;
    let a_s3: u32 = a_tc3 ^ a_tc11;
    let a_s1: u32 = a_s3 ^ a_tc16;
    let a_tc13: u32 = a_z13 ^ a_tc1;
    let a_z2: u32 = a_t33 & a_u7;
    let a_tc4: u32 = a_z0 ^ a_z2;
    let a_tc7: u32 = a_z12 ^ a_tc4;
    let a_tc9: u32 = a_z8 ^ a_tc7;
    let a_tc10: u32 = a_tc8 ^ a_tc9;
    let a_tc17: u32 = a_z14 ^ a_tc10;
    let a_s5: u32 = a_tc21 ^ a_tc17;
    let a_tc26: u32 = a_tc17 ^ a_tc20;
    let a_s2: u32 = a_tc26 ^ a_z17;
    let a_tc14: u32 = a_tc4 ^ a_tc12;
    let a_tc18: u32 = a_tc13 ^ a_tc14;
    let a_s6: u32 = a_tc10 ^ a_tc18;
    let a_s7: u32 = a_z12 ^ a_tc18;
    let a_s4: u32 = a_tc14 ^ a_s3;
    assert(spec_sub_bytes(s) == (Words { w0: a_s7, w1: a_s6, w2: a_s5, w3: a_s4, w4: a_s3, w5: a_s2, w6: a_s1, w7: a_s0 }));
    let b_u7: u32 = a_s7;
    let b_u6: u32 = a_s6;
    let b_u5: u32 = a_s5;
    let b_u4: u32 = a_s4;
    let b_u3: u32 = a_s3;
    let b_u2: u32 = a_s2;
    let b_u1: u32 = a_s1;
    let b_u0: u32 = a_s0;
    let b_t23: u32 = b_u0 ^ b_u3;
    let b_t8: u32 = b_u1 ^ b_t23;
    let b_m2: u32 = b_t23 & b_t8;
    let b_t4: u32 = b_u4 ^ b_t8;
    let b_t22: u32 = b_u1 ^ b_u3;
    let b_t2: u32 = b_u0 ^ b_u1;
    let b_t1: u32 = b_u3 ^ b_u4;
    let b_t9: u32 = b_u7 ^ b_t1;
    let b_m7: u32 = b_t22 & b_t9;
    let b_t24: u32 = b_u4 ^ b_u7;
    let b_t10: u32 = b_t2 ^ b_t24;
    let b_m14: u32 = b_t2 & b_t10;
    let b_r5: u32 = b_u6 ^ b_u7;
    let b_t3: u32 = b_t1 ^ b_r5;
    let b_t13: u32 = b_t2 ^ b_r5;
    let b_t19: u32 = b_t22 ^ b_r5;
    let b_t17: u32 = b_u2 ^ b_t19;
    let b_t25: u32 = b_u2 ^ b_t1;
    let b_r13: u32 = b_u1 ^ b_u6;
    let b_t20: u32 = b_t24 ^ b_r13;
    let b_m9: u32 = b_t20 & b_t17;
    let b_r17: u32 = b_u2 ^ b_u5;
    let b_t6: u32 = b_t22 ^ b_r17;
    let b_m1: u32 = b_t13 & b_t6;
    let b_y5: u32 = b_u0 ^ b_r17;
    let b_m4: u32 = b_t19 & b_y5;
    let b_m5: u32 = b_m4 ^ b_m1;
    let b_m17: u32 = b_m5 ^ b_t24;
    let b_r18: u32 = b_u5 ^ b_u6;
    let b_t27: u32 = b_t1 ^ b_r18;
    let b_t15: u32 = b_t10 ^ b_t27;
    let b_m11: u32 = b_t1 & b_t15;
    let b_m15: u32 = b_m14 ^ b_m11;
    let b_m21: u32 = b_m17 ^ b_m15;
    let b_m12: u32 = b_t4 & b_t27;
    let b_m13: u32 = b_m12 ^ b_m11;
    let b_t14: u32 = b_t10 ^ b_r18;
    let b_m3: u32 = b_t14 ^ b_m1;
    let b_m16: u32 = b_m3 ^ b_m2;
    let b_m20: u32 = b_m16 ^ b_m13;
    let b_r19: u32 = b_u2 ^ b_u4;
    let b_t16: u32 = b_r13 ^ b_r19;
    let b_t26: u32 = b_t3 ^ b_t16;
    let b_m6: u32 = b_t3 & b_t16;
    let b_m8: u32 = b_t26 ^ b_m6;
    let b_m18: u32 = b_m8 ^ b_m7;
    let b_m22: u32 = b_m18 ^ b_m13;
    let b_m25: u32 = b_m22 & b_m20;
    let b_m26: u32 = b_m21 ^ b_m25;
    let b_m10: u32 = b_m9 ^ b_m6;
    let b_m19: u32 = b_m10 ^ b_m15;
    let b_m23: u32 = b_m19 ^ b_t25;
    let b_m28: u32 = b_m23 ^ b_m25;
    let b_m24: u32 = b_m22 ^ b_m23;
    let b_m30: u32 = b_m26 & b_m24;
    let b_m39: u32 = b_m23 ^ b_m30;
    let b_m48: u32 = b_m39 & b_y5;
    let b_m57: u32 = b_m39 & b_t19;
    let b_m36: u32 = b_m24 ^ b_m25;
    let b_m31: u32 = b_m20 & b_m23;
    let b_m27: u32 = b_m20 ^ b_m21;
    let b_m32: u32 = b_m27 & b_m31;
    let b_m29: u32 = b_m28 & b_m27;
    let b_m37: u32 = b_m21 ^ b_m29;
    let b_m42: u32 = b_m37 ^ b_m39;
    let b_m52: u32 = b_m42 & b_t15;
    let b_m61: u32 = b_m42 & b_t1;
    let b_p0: u32 = b_m52 ^ b_m61;
    let b_p16: u32 = b_m57 ^ b_m61;
    let b_m60: u32 = b_m37 & b_t20;
    let b_m51: u32 = b_m37 & b_t17;
    let b_m33: u32 = b_m27 ^ b_m25;
    let b_m38: u32 = b_m32 ^ b_m33;
    let b_m43: u32 = b_m37 ^ b_m38;
    let b_m49: u32 = b_m43 & b_t16;
    let b_p6: u32 = b_m49 ^ b_m60;
    let b_p13: u32 = b_m49 ^ b_m51;
    let b_m58: u32 = b_m43 & b_t3;
    let b_m50: u32 = b_m38 & b_t9;
    let b_m59: u32 = b_m38 & b_t22;
    let b_p1: u32 = b_m58 ^ b_m59;
    let b_p7: u32 = b_p0 ^ b_p1;
    let b_m34: u32 = b_m21 & b_m22;
    let b_m35: u32 = b_m24 & b_m34;
    let b_m40: u32 = b_m35 ^ b_m36;
    let b_m41: u32 = b_m38 ^ b_m40;
    let b_m45: u32 = b_m42 ^ b_m41;
    let b_m53: u32 = b_m45 & b_t27;
    let b_p8: u32 = b_m50 ^ b_m53;
    let b_p23: u32 = b_p7 ^ b_p8;
    let b_m62: u32 = b_m45 & b_t4;
    let b_p14: u32 = b_m49 ^ b_m62;
    let b_s6: u32 = b_p14 ^ b_p23;
    let b_m54: u32 = b_m41 & b_t10;
    let b_p2: u32 = b_m54 ^ b_m62;
    let b_p22: u32 = b_p2 ^ b_p7;
    let b_s0: u32 = b_p13 ^ b_p22;
    let b_p17: u32 = b_m58 ^ b_p2;
    let b_p15: u32 = b_m54 ^ b_m59;
    let b_m63: u32 = b_m41 & b_t2;
    let b_m44: u32 = b_m39 ^ b_m40;
    let b_m46: u32 = b_m44 & b_t6;
    let b_p5: u32 = b_m46 ^ b_m51;
    let b_p18: u32 = b_m63 ^ b_p5;
    let b_p24: u32 = b_p5 ^ b_p7;
    let b_p12: u32 = b_m46 ^ b_m48;
    let b_s3: u32 = b_p12 ^ b_p22;
    let b_m55: u32 = b_m44 & b_t13;
    let b_p9: u32 = b_m55 ^ b_m63;
    let b_s7: u32 = b_p9 ^ b_p16;
    let b_m47: u32 = b_m40 & b_t8;
    let b_p3: u32 = b_m47 ^ b_m50;
    let b_p19: u32 = b_p2 ^ b_p3;
    let b_s5: u32 = b_p19 ^ b_p24;
    let b_p11: u32 = b_p0 ^ b_p3;
    let b_p26: u32 = b_p9 ^ b_p11;
    let b_m56: u32 = b_m40 & b_t23;
    let b_p4: u32 = b_m48 ^ b_m56;
    let b_p20: u32 = b_p4 ^ b_p6;
    let b_p29: u32 = b_p15 ^ b_p20;
    let b_s1: u32 = b_p26 ^ b_p29;
    let b_p10: u32 = b_m57 ^ b_p4;
    let b_p27: u32 = b_p10 ^ b_p18;
    let b_s4: u32 = b_p23 ^ b_p27;
    let b_p25: u32 = b_p6 ^ b_p10;
    let b_p28: u32 = b_p11 ^ b_p25;
    let b_s2: u32 = b_p17 ^ b_p28;
    assert(spec_inv_sub_bytes(Words { w0: a_s7, w1: a_s6, w2: a_s5, w3: a_s4, w4: a_s3, w5: a_s2, w6: a_s1, w7: a_s0 }) == (Words { w0: b_s7, w1: b_s6, w2: b_s5, w3: b_s4, w4: b_s3, w5: b_s2, w6: b_s1, w7: b_s0 }));
    assert(b_s7 == a_u7 && b_s6 == a_u6 && b_s5 == a_u5 && b_s4 == a_u4 && b_s3 == a_u3 && b_s2 == a_u2 && b_s1 == a_u1 && b_s0 == a_u0) by (bit_vector)
        requires
            b_u7 == a_s7,
            b_u6 == a_s6,
            b_u5 == a_s5,
            b_u4 == a_s4,
            b_u3 == a_s3,
            b_u2 == a_s2,
            b_u1 == a_s1,
            b_u0 == a_s0,
            a_y14 == a_u3 ^ a_u5,
            a_y13 == a_u0 ^ a_u6,
            a_y12 == a_y13 ^ a_y14,
            a_t1 == a_u4 ^ a_y12,
            a_y15 == a_t1 ^ a_u5,
            a_t2 == a_y12 & a_y15,
            a_y6 == a_y15 ^ a_u7,
            a_y20 == a_t1 ^ a_u1,
            a_y9 == a_u0 ^ a_u3,
            a_y11 == a_y20 ^ a_y9,
            a_t12 == a_y9 & a_y11,
            a_y7 == a_u7 ^ a_y11,
            a_y8 == a_u0 ^ a_u5,
            a_t0 == a_u1 ^ a_u2,
            a_y10 == a_y15 ^ a_t0,
            a_y17 == a_y10 ^ a_y11,
            a_t13 == a_y14 & a_y17,
            a_t14 == a_t13 ^ a_t12,
            a_y19 == a_y10 ^ a_y8,
            a_t15 == a_y8 & a_y10,
            a_t16 == a_t15 ^ a_t12,
            a_y16 == a_t0 ^ a_y11,
            a_y21 == a_y13 ^ a_y16,
            a_t7 == a_y13 & a_y16,
            a_y18 == a_u0 ^ a_y16,
            a_y1 == a_t0 ^ a_u7,
            a_y4 == a_y1 ^ a_u3,
            a_t5 == a_y4 & a_u7,
            a_t6 == a_t5 ^ a_t2,
            a_t18 == a_t6 ^ a_t16,
            a_t22 == a_t18 ^ a_y19,
            a_y2 == a_y1 ^ a_u0,
            a_t10 == a_y2 & a_y7,
            a_t11 == a_t10 ^ a_t7,
            a_t20 == a_t11 ^ a_t16,
            a_t24 == a_t20 ^ a_y18,
            a_y5 == a_y1 ^ a_u6,
            a_t8 == a_y5 & a_y1,
            a_t9 == a_t8 ^ a_t7,
            a_t19 == a_t9 ^ a_t14,
            a_t23 == a_t19 ^ a_y21,
            a_y3 == a_y5 ^ a_y8,
            a_t3 == a_y3 & a_y6,
            a_t4 == a_t3 ^ a_t2,
            a_t17 == a_t4 ^ a_y20,
            a_t21 == a_t17 ^ a_t14,
            a_t26 == a_t21 & a_t23,
            a_t27 == a_t24 ^ a_t26,
            a_t31 == a_t22 ^ a_t26,
            a_t25 == a_t21 ^ a_t22,
            a_t28 == a_t25 & a_t27,
            a_t29 == a_t28 ^ a_t22,
            a_z14 == a_t29 & a_y2,
            a_z5 == a_t29 & a_y7,
            a_t30 == a_t23 ^ a_t24,
            a_t32 == a_t31 & a_t30,
            a_t33 == a_t32 ^ a_t24,
            a_t35 == a_t27 ^ a_t33,
            a_t36 == a_t24 & a_t35,
            a_t38 == a_t27 ^ a_t36,
            a_t39 == a_t29 & a_t38,
            a_t40 == a_t25 ^ a_t39,
            a_t43 == a_t29 ^ a_t40,
            a_z3 == a_t43 & a_y16,
            a_tc12 == a_z3 ^ a_z5,
            a_z12 == a_t43 & a_y13,
            a_z13 == a_t40 & a_y5,
            a_z4 == a_t40 & a_y1,
            a_tc6 == a_z3 ^ a_z4,
            a_t34 == a_t23 ^ a_t33,
            a_t37 == a_t36 ^ a_t34,
            a_t41 == a_t40 ^ a_t37,
            a_z8 == a_t41 & a_y10,
            a_z17 == a_t41 & a_y8,
            a_t44 == a_t33 ^ a_t37,
            a_z0 == a_t44 & a_y15,
            a_z9 == a_t44 & a_y12,
            a_z10 == a_t37 & a_y3,
            a_z1 == a_t37 & a_y6,
            a_tc5 == a_z1 ^ a_z0,
            a_tc11 == a_tc6 ^ a_tc5,
            a_z11 == a_t33 & a_y4,
            a_t42 == a_t29 ^ a_t33,
            a_t45 == a_t42 ^ a_t41,
            a_z7 == a_t45 & a_y17,
            a_tc8 == a_z7 ^ a_tc6,
            a_z16 == a_t45 & a_y14,
            a_z6 == a_t42 & a_y11,
            a_tc16 == a_z6 ^ a_tc8,
            a_z15 == a_t42 & a_y9,
            a_tc20 == a_z15 ^ a_tc16,
            a_tc1 == a_z15 ^ a_z16,
            a_tc2 == a_z10 ^ a_tc1,
            a_tc21 == a_tc2 ^ a_z11,
            a_tc3 == a_z9 ^ a_tc2,
            a_s0 == a_tc3 ^ a_tc16,
            a_s3 == a_tc3 ^ a_tc11,
            a_s1 == a_s3 ^ a_tc16,
            a_tc13 == a_z13 ^ a_tc1,
            a_z2 == a_t33 & a_u7,
            a_tc4 == a_z0 ^ a_z2,
            a_tc7 == a_z12 ^ a_tc4,
            a_tc9 == a_z8 ^ a_tc7,
            a_tc10 == a_tc8 ^ a_tc9,
            a_tc17 == a_z14 ^ a_tc10,
            a_s5 == a_tc21 ^ a_tc17,
            a_tc26 == a_tc17 ^ a_tc20,
            a_s2 == a_tc26 ^ a_z17,
            a_tc14 == a_tc4 ^ a_tc12,
            a_tc18 == a_tc13 ^ a_tc14,
            a_s6 == a_tc10 ^ a_tc18,
            a_s7 == a_z12 ^ a_tc18,
            a_s4 == a_tc14 ^ a_s3,
            b_t23 == b_u0 ^ b_u3,
            b_t8 == b_u1 ^ b_t23,
            b_m2 == b_t23 & b_t8,
            b_t4 == b_u4 ^ b_t8,
            b_t22 == b_u1 ^ b_u3,
            b_t2 == b_u0 ^ b_u1,
            b_t1 == b_u3 ^ b_u4,
            b_t9 == b_u7 ^ b_t1,
            b_m7 == b_t22 & b_t9,
            b_t24 == b_u4 ^ b_u7,
            b_t10 == b_t2 ^ b_t24,
            b_m14 == b_t2 & b_t10,
            b_r5 == b_u6 ^ b_u7,
            b_t3 == b_t1 ^ b_r5,
            b_t13 == b_t2 ^ b_r5,
            b_t19 == b_t22 ^ b_r5,
            b_t17 == b_u2 ^ b_t19,
            b_t25 == b_u2 ^ b_t1,
            b_r13 == b_u1 ^ b_u6,
            b_t20 == b_t24 ^ b_r13,
            b_m9 == b_t20 & b_t17,
            b_r17 == b_u2 ^ b_u5,
            b_t6 == b_t22 ^ b_r17,
            b_m1 == b_t13 & b_t6,
            b_y5 == b_u0 ^ b_r17,
            b_m4 == b_t19 & b_y5,
            b_m5 == b_m4 ^ b_m1,
            b_m17 == b_m5 ^ b_t24,
            b_r18 == b_u5 ^ b_u6,
            b_t27 == b_t1 ^ b_r18,
            b_t15 == b_t10 ^ b_t27,
            b_m11 == b_t1 & b_t15,
            b_m15 == b_m14 ^ b_m11,
            b_m21 == b_m17 ^ b_m15,
            b_m12 == b_t4 & b_t27,
            b_m13 == b_m12 ^ b_m11,
            b_t14 == b_t10 ^ b_r18,
            b_m3 == b_t14 ^ b_m1,
            b_m16 == b_m3 ^ b_m2,
            b_m20 == b_m16 ^ b_m13,
            b_r19 == b_u2 ^ b_u4,
            b_t16 == b_r13 ^ b_r19,
            b_t26 == b_t3 ^ b_t16,
            b_m6 == b_t3 & b_t16,
            b_m8 == b_t26 ^ b_m6,
            b_m18 == b_m8 ^ b_m7,
            b_m22 == b_m18 ^ b_m13,
            b_m25 == b_m22 & b_m20,
            b_m26 == b_m21 ^ b_m25,
            b_m10 == b_m9 ^ b_m6,
            b_m19 == b_m10 ^ b_m15,
            b_m23 == b_m19 ^ b_t25,
            b_m28 == b_m23 ^ b_m25,
            b_m24 == b_m22 ^ b_m23,
            b_m30 == b_m26 & b_m24,
            b_m39 == b_m23 ^ b_m30,
            b_m48 == b_m39 & b_y5,
            b_m57 == b_m39 & b_t19,
            b_m36 == b_m24 ^ b_m25,
            b_m31 == b_m20 & b_m23,
            b_m27 == b_m20 ^ b_m21,
            b_m32 == b_m27 & b_m31,
            b_m29 == b_m28 & b_m27,
            b_m37 == b_m21 ^ b_m29,
            b_m42 == b_m37 ^ b_m39,
            b_m52 == b_m42 & b_t15,
            b_m61 == b_m42 & b_t1,
            b_p0 == b_m52 ^ b_m61,
            b_p16 == b_m57 ^ b_m61,
            b_m60 == b_m37 & b_t20,
            b_m51 == b_m37 & b_t17,
            b_m33 == b_m27 ^ b_m25,
            b_m38 == b_m32 ^ b_m33,
            b_m43 == b_m37 ^ b_m38,
            b_m49 == b_m43 & b_t16,
            b_p6 == b_m49 ^ b_m60,
            b_p13 == b_m49 ^ b_m51,
            b_m58 == b_m43 & b_t3,
            b_m50 == b_m38 & b_t9,
            b_m59 == b_m38 & b_t22,
            b_p1 == b_m58 ^ b_m59,
            b_p7 == b_p0 ^ b_p1,
            b_m34 == b_m21 & b_m22,
            b_m35 == b_m24 & b_m34,
            b_m40 == b_m35 ^ b_m36,
            b_m41 == b_m38 ^ b_m40,
            b_m45 == b_m42 ^ b_m41,
            b_m53 == b_m45 & b_t27,
            b_p8 == b_m50 ^ b_m53,
            b_p23 == b_p7 ^ b_p8,
            b_m62 == b_m45 & b_t4,
            b_p14 == b_m49 ^ b_m62,
            b_s6 == b_p14 ^ b_p23,
            b_m54 == b_m41 & b_t10,
            b_p2 == b_m54 ^ b_m62,
            b_p22 == b_p2 ^ b_p7,
            b_s0 == b_p13 ^ b_p22,
            b_p17 == b_m58 ^ b_p2,
            b_p15 == b_m54 ^ b_m59,
            b_m63 == b_m41 & b_t2,
            b_m44 == b_m39 ^ b_m40,
            b_m46 == b_m44 & b_t6,
            b_p5 == b_m46 ^ b_m51,
            b_p18 == b_m63 ^ b_p5,
            b_p24 == b_p5 ^ b_p7,
            b_p12 == b_m46 ^ b_m48,
            b_s3 == b_p12 ^ b_p22,
            b_m55 == b_m44 & b_t13,
            b_p9 == b_m55 ^ b_m63,
            b_s7 == b_p9 ^ b_p16,
            b_m47 == b_m40 & b_t8,
            b_p3 == b_m47 ^ b_m50,
            b_p19 == b_p2 ^ b_p3,
            b_s5 == b_p19 ^ b_p24,
            b_p11 == b_p0 ^ b_p3,
            b_p26 == b_p9 ^ b_p11,
            b_m56 == b_m40 & b_t23,
            b_p4 == b_m48 ^ b_m56,
            b_p20 == b_p4 ^ b_p6,
            b_p29 == b_p15 ^ b_p20,
            b_s1 == b_p26 ^ b_p29,
            b_p10 == b_m57 ^ b_p4,
            b_p27 == b_p10 ^ b_p18,
            b_s4 == b_p23 ^ b_p27,
            b_p25 == b_p6 ^ b_p10,
            b_p28 == b_p11 ^ b_p25,
            b_s2 == b_p17 ^ b_p28,
    ;
    assert(spec_inv_sub_bytes(spec_sub_bytes(s)) == s);
}

/// The S-box circuit undoes the inverse S-box circuit.
#[verifier::rlimit(100)]
proof fn lemma_sub_bytes_of_inv_sub_bytes(s: Words)
    ensures
        spec_sub_bytes(spec_inv_sub_bytes(s)) == s,
{
    let a_u7: u32 = s.w0;
    let a_u6: u32 = s.w1;
    let a_u5: u32 = s.w2;
    let a_u4: u32 = s.w3;
    let a_u3: u32 = s.w4;
    let a_u2: u32 = s.w5;
    let a_u1: u32 = s.w6;
    let a_u0: u32 = s.w7;
    let a_t23: u32 = a_u0 ^ a_u3;
    let a_t8: u32 = a_u1 ^ a_t23;
    let a_m2: u32 = a_t23 & a_t8;
    let a_t4: u32 = a_u4 ^ a_t8;
    let a_t22: u32 = a_u1 ^ a_u3;
    let a_t2: u32 = a_u0 ^ a_u1;
    let a_t1: u32 = a_u3 ^ a_u4;
    let a_t9: u32 = a_u7 ^ a_t1;
    let a_m7: u32 = a_t22 & a_t9;
    let a_t24: u32 = a_u4 ^ a_u7;
    let a_t10: u32 = a_t2 ^ a_t24;
    let a_m14: u32 = a_t2 & a_t10;
    let a_r5: u32 = a_u6 ^ a_u7;
    let a_t3: u32 = a_t1 ^ a_r5;
    let a_t13: u32 = a_t2 ^ a_r5;
    let a_t19: u32 = a_t22 ^ a_r5;
    let a_t17: u32 = a_u2 ^ a_t19;
    let a_t25: u32 = a_u2 ^ a_t1;
    let a_r13: u32 = a_u1 ^ a_u6;
    let a_t20: u32 = a_t24 ^ a_r13;
    let a_m9: u32 = a_t20 & a_t17;
    let a_r17: u32 = a_u2 ^ a_u5;
    let a_t6: u32 = a_t22 ^ a_r17;
    let a_m1: u32 = a_t13 & a_t6;
    let a_y5: u32 = a_u0 ^ a_r17;
    let a_m4: u32 = a_t19 & a_y5;
    let a_m5: u32 = a_m4 ^ a_m1;
    let a_m17: u32 = a_m5 ^ a_t24;
    let a_r18: u32 = a_u5 ^ a_u6;
    let a_t27: u32 = a_t1 ^ a_r18;
    let a_t15: u32 = a_t10 ^ a_t27;
    let a_m11: u32 = a_t1 & a_t15;
    let a_m15: u32 = a_m14 ^ a_m11;
    let a_m21: u32 = a_m17 ^ a_m15;
    let a_m12: u32 = a_t4 & a_t27;
    let a_m13: u32 = a_m12 ^ a_m11;
    let a_t14: u32 = a_t10 ^ a_r18;
    let a_m3: u32 = a_t14 ^ a_m1;
    let a_m16: u32 = a_m3 ^ a_m2;
    let a_m20: u32 = a_m16 ^ a_m13;
    let a_r19: u32 = a_u2 ^ a_u4;
    let a_t16: u32 = a_r13 ^ a_r19;
    let a_t26: u32 = a_t3 ^ a_t16;
    let a_m6: u32 = a_t3 & a_t16;
    let a_m8: u32 = a_t26 ^ a_m6;
    let a_m18: u32 = a_m8 ^ a_m7;
    let a_m22: u32 = a_m18 ^ a_m13;
    let a_m25: u32 = a_m22 & a_m20;
    let a_m26: u32 = a_m21 ^ a_m25;
    let a_m10: u32 = a_m9 ^ a_m6;
    let a_m19: u32 = a_m10 ^ a_m15;
    let a_m23: u32 = a_m19 ^ a_t25;
    let a_m28: u32 = a_m23 ^ a_m25;
    let a_m24: u32 = a_m22 ^ a_m23;
    let a_m30: u32 = a_m26 & a_m24;
    let a_m39: u32 = a_m23 ^ a_m30;
    let a_m48: u32 = a_m39 & a_y5;
    let a_m57: u32 = a_m39 & a_t19;
    let a_m36: u32 = a_m24 ^ a_m25;
    let a_m31: u32 = a_m20 & a_m23;
    let a_m27: u32 = a_m20 ^ a_m21;
    let a_m32: u32 = a_m27 & a_m31;
    let a_m29: u32 = a_m28 & a_m27;
    let a_m37: u32 = a_m21 ^ a_m29;
    let a_m42: u32 = a_m37 ^ a_m39;
    let a_m52: u32 = a_m42 & a_t15;
    let a_m61: u32 = a_m42 & a_t1;
    let a_p0: u32 = a_m52 ^ a_m61;
    let a_p16: u32 = a_m57 ^ a_m61;
    let a_m60: u32 = a_m37 & a_t20;
    let a_m51: u32 = a_m37 & a_t17;
    let a_m33: u32 = a_m27 ^ a_m25;
    let a_m38: u32 = a_m32 ^ a_m33;
    let a_m43: u32 = a_m37 ^ a_m38;
    let a_m49: u32 = a_m43 & a_t16;
    let a_p6: u32 = a_m49 ^ a_m60;
    let a_p13: u32 = a_m49 ^ a_m51;
    let a_m58: u32 = a_m43 & a_t3;
    let a_m50: u32 = a_m38 & a_t9;
    let a_m59: u32 = a_m38 & a_t22;
    let a_p1: u32 = a_m58 ^ a_m59;
    let a_p7: u32 = a_p0 ^ a_p1;
    let a_m34: u32 = a_m21 & a_m22;
    let a_m35: u32 = a_m24 & a_m34;
    let a_m40: u32 = a_m35 ^ a_m36;
    let a_m41: u32 = a_m38 ^ a_m40;
    let a_m45: u32 = a_m42 ^ a_m41;
    let a_m53: u32 = a_m45 & a_t27;
    let a_p8: u32 = a_m50 ^ a_m53;
    let a_p23: u32 = a_p7 ^ a_p8;
    let a_m62: u32 = a_m45 & a_t4;
    let a_p14: u32 = a_m49 ^ a_m62;
    let a_s6: u32 = a_p14 ^ a_p23;
    let a_m54: u32 = a_m41 & a_t10;
    let a_p2: u32 = a_m54 ^ a_m62;
    let a_p22: u32 = a_p2 ^ a_p7;
    let a_s0: u32 = a_p13 ^ a_p22;
    let a_p17: u32 = a_m58 ^ a_p2;
    let a_p15: u32 = a_m54 ^ a_m59;
    let a_m63: u32 = a_m41 & a_t2;
    let a_m44: u32 = a_m39 ^ a_m40;
    let a_m46: u32 = a_m44 & a_t6;
    let a_p5: u32 = a_m46 ^ a_m51;
    let a_p18: u32 = a_m63 ^ a_p5;
    let a_p24: u32 = a_p5 ^ a_p7;
    let a_p12: u32 = a_m46 ^ a_m48;
    let a_s3: u32 = a_p12 ^ a_p22;
    let a_m55: u32 = a_m44 & a_t13;
    let a_p9: u32 = a_m55 ^ a_m63;
    let a_s7: u32 = a_p9 ^ a_p16;
    let a_m47: u32 = a_m40 & a_t8;
    let a_p3: u32 = a_m47 ^ a_m50;
    let a_p19: u32 = a_p2 ^ a_p3;
    let a_s5: u32 = a_p19 ^ a_p24;
    let a_p11: u32 = a_p0 ^ a_p3;
    let a_p26: u32 = a_p9 ^ a_p11;
    let a_m56: u32 = a_m40 & a_t23;
    let a_p4: u32 = a_m48 ^ a_m56;
    let a_p20: u32 = a_p4 ^ a_p6;
    let a_p29: u32 = a_p15 ^ a_p20;
    let a_s1: u32 = a_p26 ^ a_p29;
    let a_p10: u32 = a_m57 ^ a_p4;
    let a_p27: u32 = a_p10 ^ a_p18;
    let a_s4: u32 = a_p23 ^ a_p27;
    let a_p25: u32 = a_p6 ^ a_p10;
    let a_p28: u32 = a_p11 ^ a_p25;
    let a_s2: u32 = a_p17 ^ a_p28;
    assert(spec_inv_sub_bytes(s) == (Words { w0: a_s7, w1: a_s6, w2: a_s5, w3: a_s4, w4: a_s3, w5: a_s2, w6: a_s1, w7: a_s0 }));
    let b_u7: u32 = a_s7;
    let b_u6: u32 = a_s6;
    let b_u5: u32 = a_s5;
    let b_u4: u32 = a_s4;
    let b_u3: u32 = a_s3;
    let b_u2: u32 = a_s2;
    let b_u1: u32 = a_s1;
    let b_u0: u32 = a_s0;
    let b_y14: u32 = b_u3 ^ b_u5;
    let b_y13: u32 = b_u0 ^ b_u6;
    let b_y12: u32 = b_y13 ^ b_y14;
    let b_t1: u32 = b_u4 ^ b_y12;
    let b_y15: u32 = b_t1 ^ b_u5;
    let b_t2: u32 = b_y12 & b_y15;
    let b_y6: u32 = b_y15 ^ b_u7;
    let b_y20: u32 = b_t1 ^ b_u1;
    let b_y9: u32 = b_u0 ^ b_u3;
    let b_y11: u32 = b_y20 ^ b_y9;
    let b_t12: u32 = b_y9 & b_y11;
    let b_y7: u32 = b_u7 ^ b_y11;
    let b_y8: u32 = b_u0 ^ b_u5;
    let b_t0: u32 = b_u1 ^ b_u2;
    let b_y10: u32 = b_y15 ^ b_t0;
    let b_y17: u32 = b_y10 ^ b_y11;
    let b_t13: u32 = b_y14 & b_y17;
    let b_t14: u32 = b_t13 ^ b_t12;
    let b_y19: u32 = b_y10 ^ b_y8;
    let b_t15: u32 = b_y8 & b_y10;
    let b_t16: u32 = b_t15 ^ b_t12;
    let b_y16: u32 = b_t0 ^ b_y11;
    let b_y21: u32 = b_y13 ^ b_y16;
    let b_t7: u32 = b_y13 & b_y16;
    let b_y18: u32 = b_u0 ^ b_y16;
    let b_y1: u32 = b_t0 ^ b_u7;
    let b_y4: u32 = b_y1 ^ b_u3;
    let b_t5: u32 = b_y4 & b_u7;
    let b_t6: u32 = b_t5 ^ b_t2;
    let b_t18: u32 = b_t6 ^ b_t16;
    let b_t22: u32 = b_t18 ^ b_y19;
    let b_y2: u32 = b_y1 ^ b_u0;
    let b_t10: u32 = b_y2 & b_y7;
    let b_t11: u32 = b_t10 ^ b_t7;
    let b_t20: u32 = b_t11 ^ b_t16;
    let b_t24: u32 = b_t20 ^ b_y18;
    let b_y5: u32 = b_y1 ^ b_u6;
    let b_t8: u32 = b_y5 & b_y1;
    let b_t9: u32 = b_t8 ^ b_t7;
    let b_t19: u32 = b_t9 ^ b_t14;
    let b_t23: u32 = b_t19 ^ b_y21;
    let b_y3: u32 = b_y5 ^ b_y8;
    let b_t3: u32 = b_y3 & b_y6;
    let b_t4: u32 = b_t3 ^ b_t2;
    let b_t17: u32 = b_t4 ^ b_y20;
    let b_t21: u32 = b_t17 ^ b_t14;
    let b_t26: u32 = b_t21 & b_t23;
    let b_t27: u32 = b_t24 ^ b_t26;
    let b_t31: u32 = b_t22 ^ b_t26;
    let b_t25: u32 = b_t21 ^ b_t22;
    let b_t28: u32 = b_t25 & b_t27;
    let b_t29: u32 = b_t28 ^ b_t22;
    let b_z14: u32 = b_t29 & b_y2;
    let b_z5: u32 = b_t29 & b_y7;
    let b_t30: u32 = b_t23 ^ b_t24;
    let b_t32: u32 = b_t31 & b_t30;
    let b_t33: u32 = b_t32 ^ b_t24;
    let b_t35: u32 = b_t27 ^ b_t33;
    let b_t36: u32 = b_t24 & b_t35;
    let b_t38: u32 = b_t27 ^ b_t36;
    let b_t39: u32 = b_t29 & b_t38;
    let b_t40: u32 = b_t25 ^ b_t39;
    let b_t43: u32 = b_t29 ^ b_t40;
    let b_z3: u32 = b_t43 & b_y16;
    let b_tc12: u32 = b_z3 ^ b_z5;
    let b_z12: u32 = b_t43 & b_y13;
    let b_z13: u32 = b_t40 & b_y5;
    let b_z4: u32 = b_t40 & b_y1;
    let b_tc6: u32 = b_z3 ^ b_z4;
    let b_t34: u32 = b_t23 ^ b_t33;
    let b_t37: u32 = b_t36 ^ b_t34;
    let b_t41: u32 = b_t40 ^ b_t37;
    let b_z8: u32 = b_t41 & b_y10;
    let b_z17: u32 = b_t41 & b_y8;
    let b_t44: u32 = b_t33 ^ b_t37;
    let b_z0: u32 = b_t44 & b_y15;
    let b_z9: u32 = b_t44 & b_y12;
    let b_z10: u32 = b_t37 & b_y3;
    let b_z1: u32 = b_t37 & b_y6;
    let b_tc5: u32 = b_z1 ^ b_z0;
    let b_tc11: u32 = b_tc6 ^ b_tc5;
    let b_z11: u32 = b_t33 & b_y4;
    let b_t42: u32 = b_t29 ^ b_t33;
    let b_t45: u32 = b_t42 ^ b_t41;
    let b_z7: u32 = b_t45 & b_y17;
    let b_tc8: u32 = b_z7 ^ b_tc6;
    let b_z16: u32 = b_t45 & b_y14;
    let b_z6: u32 = b_t42 & b_y11;
    let b_tc16: u32 = b_z6 ^ b_tc8;
    let b_z15: u32 = b_t42 & b_y9;
    let b_tc20: u32 = b_z15 ^ b_tc16;
    let b_tc1: u32 = b_z15 ^ b_z16;
    let b_tc2: u32 = b_z10 ^ b_tc1;
    let b_tc21: u32 = b_tc2 ^ b_z11;
    let b_tc3: u32 = b_z9 ^ b_tc2;
    let b_s0: u32 = b_tc3 ^ b_tc16;
    let b_s3: u32 = b_tc3 ^ b_tc11;
    let b_s1: u32 = b_s3 ^ b_tc16;
    let b_tc13: u32 = b_z13 ^ b_tc1;
    let b_z2: u32 = b_t33 & b_u7;
    let b_tc4: u32 = b_z0 ^ b_z2;
    let b_tc7: u32 = b_z12 ^ b_tc4;
    let b_tc9: u32 = b_z8 ^ b_tc7;
    let b_tc10: u32 = b_tc8 ^ b_tc9;
    let b_tc17: u32 = b_z14 ^ b_tc10;
    let b_s5: u32 = b_tc21 ^ b_tc17;
    let b_tc26: u32 = b_tc17 ^ b_tc20;
    let b_s2: u32 = b_tc26 ^ b_z17;
    let b_tc14: u32 = b_tc4 ^ b_tc12;
    let b_tc18: u32 = b_tc13 ^ b_tc14;
    let b_s6: u32 = b_tc10 ^ b_tc18;
    let b_s7: u32 = b_z12 ^ b_tc18;
    let b_s4: u32 = b_tc14 ^ b_s3;
    assert(spec_sub_bytes(Words { w0: a_s7, w1: a_s6, w2: a_s5, w3: a_s4, w4: a_s3, w5: a_s2, w6: a_s1, w7: a_s0 }) == (Words { w0: b_s7, w1: b_s6, w2: b_s5, w3: b_s4, w4: b_s3, w5: b_s2, w6: b_s1, w7: b_s0 }));
    assert(b_s7 == a_u7 && b_s6 == a_u6 && b_s5 == a_u5 && b_s4 == a_u4 && b_s3 == a_u3 && b_s2 == a_u2 && b_s1 == a_u1 && b_s0 == a_u0) by (bit_vector)
        requires
            b_u7 == a_s7,
            b_u6 == a_s6,
            b_u5 == a_s5,
            b_u4 == a_s4,
            b_u3 == a_s3,
            b_u2 == a_s2,
            b_u1 == a_s1,
            b_u0 == a_s0,
            a_t23 == a_u0 ^ a_u3,
            a_t8 == a_u1 ^ a_t23,
            a_m2 == a_t23 & a_t8,
            a_t4 == a_u4 ^ a_t8,
            a_t22 == a_u1 ^ a_u3,
            a_t2 == a_u0 ^ a_u1,
            a_t1 == a_u3 ^ a_u4,
            a_t9 == a_u7 ^ a_t1,
            a_m7 == a_t22 & a_t9,
            a_t24 == a_u4 ^ a_u7,
            a_t10 == a_t2 ^ a_t24,
            a_m14 == a_t2 & a_t10,
            a_r5 == a_u6 ^ a_u7,
            a_t3 == a_t1 ^ a_r5,
            a_t13 == a_t2 ^ a_r5,
            a_t19 == a_t22 ^ a_r5,
            a_t17 == a_u2 ^ a_t19,
            a_t25 == a_u2 ^ a_t1,
            a_r13 == a_u1 ^ a_u6,
            a_t20 == a_t24 ^ a_r13,
            a_m9 == a_t20 & a_t17,
            a_r17 == a_u2 ^ a_u5,
            a_t6 == a_t22 ^ a_r17,
            a_m1 == a_t13 & a_t6,
            a_y5 == a_u0 ^ a_r17,
            a_m4 == a_t19 & a_y5,
            a_m5 == a_m4 ^ a_m1,
            a_m17 == a_m5 ^ a_t24,
            a_r18 == a_u5 ^ a_u6,
            a_t27 == a_t1 ^ a_r18,
            a_t15 == a_t10 ^ a_t27,
            a_m11 == a_t1 & a_t15,
            a_m15 == a_m14 ^ a_m11,
            a_m21 == a_m17 ^ a_m15,
            a_m12 == a_t4 & a_t27,
            a_m13 == a_m12 ^ a_m11,
            a_t14 == a_t10 ^ a_r18,
            a_m3 == a_t14 ^ a_m1,
            a_m16 == a_m3 ^ a_m2,
            a_m20 == a_m16 ^ a_m13,
            a_r19 == a_u2 ^ a_u4,
            a_t16 == a_r13 ^ a_r19,
            a_t26 == a_t3 ^ a_t16,
            a_m6 == a_t3 & a_t16,
            a_m8 == a_t26 ^ a_m6,
            a_m18 == a_m8 ^ a_m7,
            a_m22 == a_m18 ^ a_m13,
            a_m25 == a_m22 & a_m20,
            a_m26 == a_m21 ^ a_m25,
            a_m10 == a_m9 ^ a_m6,
            a_m19 == a_m10 ^ a_m15,
            a_m23 == a_m19 ^ a_t25,
            a_m28 == a_m23 ^ a_m25,
            a_m24 == a_m22 ^ a_m23,
            a_m30 == a_m26 & a_m24,
            a_m39 == a_m23 ^ a_m30,
            a_m48 == a_m39 & a_y5,
            a_m57 == a_m39 & a_t19,
            a_m36 == a_m24 ^ a_m25,
            a_m31 == a_m20 & a_m23,
            a_m27 == a_m20 ^ a_m21,
            a_m32 == a_m27 & a_m31,
            a_m29 == a_m28 & a_m27,
            a_m37 == a_m21 ^ a_m29,
            a_m42 == a_m37 ^ a_m39,
            a_m52 == a_m42 & a_t15,
            a_m61 == a_m42 & a_t1,
            a_p0 == a_m52 ^ a_m61,
            a_p16 == a_m57 ^ a_m61,
            a_m60 == a_m37 & a_t20,
            a_m51 == a_m37 & a_t17,
            a_m33 == a_m27 ^ a_m25,
            a_m38 == a_m32 ^ a_m33,
            a_m43 == a_m37 ^ a_m38,
            a_m49 == a_m43 & a_t16,
            a_p6 == a_m49 ^ a_m60,
            a_p13 == a_m49 ^ a_m51,
            a_m58 == a_m43 & a_t3,
            a_m50 == a_m38 & a_t9,
            a_m59 == a_m38 & a_t22,
            a_p1 == a_m58 ^ a_m59,
            a_p7 == a_p0 ^ a_p1,
            a_m34 == a_m21 & a_m22,
            a_m35 == a_m24 & a_m34,
            a_m40 == a_m35 ^ a_m36,
            a_m41 == a_m38 ^ a_m40,
            a_m45 == a_m42 ^ a_m41,
            a_m53 == a_m45 & a_t27,
            a_p8 == a_m50 ^ a_m53,
            a_p23 == a_p7 ^ a_p8,
            a_m62 == a_m45 & a_t4,
            a_p14 == a_m49 ^ a_m62,
            a_s6 == a_p14 ^ a_p23,
            a_m54 == a_m41 & a_t10,
            a_p2 == a_m54 ^ a_m62,
            a_p22 == a_p2 ^ a_p7,
            a_s0 == a_p13 ^ a_p22,
            a_p17 == a_m58 ^ a_p2,
            a_p15 == a_m54 ^ a_m59,
            a_m63 == a_m41 & a_t2,
            a_m44 == a_m39 ^ a_m40,
            a_m46 == a_m44 & a_t6,
            a_p5 == a_m46 ^ a_m51,
            a_p18 == a_m63 ^ a_p5,
            a_p24 == a_p5 ^ a_p7,
            a_p12 == a_m46 ^ a_m48,
            a_s3 == a_p12 ^ a_p22,
            a_m55 == a_m44 & a_t13,
            a_p9 == a_m55 ^ a_m63,
            a_s7 == a_p9 ^ a_p16,
            a_m47 == a_m40 & a_t8,
            a_p3 == a_m47 ^ a_m50,
            a_p19 == a_p2 ^ a_p3,
            a_s5 == a_p19 ^ a_p24,
            a_p11 == a_p0 ^ a_p3,
            a_p26 == a_p9 ^ a_p11,
            a_m56 == a_m40 & a_t23,
            a_p4 == a_m48 ^ a_m56,
            a_p20 == a_p4 ^ a_p6,
            a_p29 == a_p15 ^ a_p20,
            a_s1 == a_p26 ^ a_p29,
            a_p10 == a_m57 ^ a_p4,
            a_p27 == a_p10 ^ a_p18,
            a_s4 == a_p23 ^ a_p27,
            a_p25 == a_p6 ^ a_p10,
            a_p28 == a_p11 ^ a_p25,
            a_s2 == a_p17 ^ a_p28,
            b_y14 == b_u3 ^ b_u5,
            b_y13 == b_u0 ^ b_u6,
            b_y12 == b_y13 ^ b_y14,
            b_t1 == b_u4 ^ b_y12,
            b_y15 == b_t1 ^ b_u5,
            b_t2 == b_y12 & b_y15,
            b_y6 == b_y15 ^ b_u7,
            b_y20 == b_t1 ^ b_u1,
            b_y9 == b_u0 ^ b_u3,
            b_y11 == b_y20 ^ b_y9,
            b_t12 == b_y9 & b_y11,
            b_y7 == b_u7 ^ b_y11,
            b_y8 == b_u0 ^ b_u5,
            b_t0 == b_u1 ^ b_u2,
            b_y10 == b_y15 ^ b_t0,
            b_y17 == b_y10 ^ b_y11,
            b_t13 == b_y14 & b_y17,
            b_t14 == b_t13 ^ b_t12,
            b_y19 == b_y10 ^ b_y8,
            b_t15 == b_y8 & b_y10,
            b_t16 == b_t15 ^ b_t12,
            b_y16 == b_t0 ^ b_y11,
            b_y21 == b_y13 ^ b_y16,
            b_t7 == b_y13 & b_y16,
            b_y18 == b_u0 ^ b_y16,
            b_y1 == b_t0 ^ b_u7,
            b_y4 == b_y1 ^ b_u3,
            b_t5 == b_y4 & b_u7,
            b_t6 == b_t5 ^ b_t2,
            b_t18 == b_t6 ^ b_t16,
            b_t22 == b_t18 ^ b_y19,
            b_y2 == b_y1 ^ b_u0,
            b_t10 == b_y2 & b_y7,
            b_t11 == b_t10 ^ b_t7,
            b_t20 == b_t11 ^ b_t16,
            b_t24 == b_t20 ^ b_y18,
            b_y5 == b_y1 ^ b_u6,
            b_t8 == b_y5 & b_y1,
            b_t9 == b_t8 ^ b_t7,
            b_t19 == b_t9 ^ b_t14,
            b_t23 == b_t19 ^ b_y21,
            b_y3 == b_y5 ^ b_y8,
            b_t3 == b_y3 & b_y6,
            b_t4 == b_t3 ^ b_t2,
            b_t17 == b_t4 ^ b_y20,
            b_t21 == b_t17 ^ b_t14,
            b_t26 == b_t21 & b_t23,
            b_t27 == b_t24 ^ b_t26,
            b_t31 == b_t22 ^ b_t26,
            b_t25 == b_t21 ^ b_t22,
            b_t28 == b_t25 & b_t27,
            b_t29 == b_t28 ^ b_t22,
            b_z14 == b_t29 & b_y2,
            b_z5 == b_t29 & b_y7,
            b_t30 == b_t23 ^ b_t24,
            b_t32 == b_t31 & b_t30,
            b_t33 == b_t32 ^ b_t24,
            b_t35 == b_t27 ^ b_t33,
            b_t36 == b_t24 & b_t35,
            b_t38 == b_t27 ^ b_t36,
            b_t39 == b_t29 & b_t38,
            b_t40 == b_t25 ^ b_t39,
            b_t43 == b_t29 ^ b_t40,
            b_z3 == b_t43 & b_y16,
            b_tc12 == b_z3 ^ b_z5,
            b_z12 == b_t43 & b_y13,
            b_z13 == b_t40 & b_y5,
            b_z4 == b_t40 & b_y1,
            b_tc6 == b_z3 ^ b_z4,
            b_t34 == b_t23 ^ b_t33,
            b_t37 == b_t36 ^ b_t34,
            b_t41 == b_t40 ^ b_t37,
            b_z8 == b_t41 & b_y10,
            b_z17 == b_t41 & b_y8,
            b_t44 == b_t33 ^ b_t37,
            b_z0 == b_t44 & b_y15,
            b_z9 == b_t44 & b_y12,
            b_z10 == b_t37 & b_y3,
            b_z1 == b_t37 & b_y6,
            b_tc5 == b_z1 ^ b_z0,
            b_tc11 == b_tc6 ^ b_tc5,
            b_z11 == b_t33 & b_y4,
            b_t42 == b_t29 ^ b_t33,
            b_t45 == b_t42 ^ b_t41,
            b_z7 == b_t45 & b_y17,
            b_tc8 == b_z7 ^ b_tc6,
            b_z16 == b_t45 & b_y14,
            b_z6 == b_t42 & b_y11,
            b_tc16 == b_z6 ^ b_tc8,
            b_z15 == b_t42 & b_y9,
            b_tc20 == b_z15 ^ b_tc16,
            b_tc1 == b_z15 ^ b_z16,
            b_tc2 == b_z10 ^ b_tc1,
            b_tc21 == b_tc2 ^ b_z11,
            b_tc3 == b_z9 ^ b_tc2,
            b_s0 == b_tc3 ^ b_tc16,
            b_s3 == b_tc3 ^ b_tc11,
            b_s1 == b_s3 ^ b_tc16,
            b_tc13 == b_z13 ^ b_tc1,
            b_z2 == b_t33 & b_u7,
            b_tc4 == b_z0 ^ b_z2,
            b_tc7 == b_z12 ^ b_tc4,
            b_tc9 == b_z8 ^ b_tc7,
            b_tc10 == b_tc8 ^ b_tc9,
            b_tc17 == b_z14 ^ b_tc10,
            b_s5 == b_tc21 ^ b_tc17,
            b_tc26 == b_tc17 ^ b_tc20,
            b_s2 == b_tc26 ^ b_z17,
            b_tc14 == b_tc4 ^ b_tc12,
            b_tc18 == b_tc13 ^ b_tc14,
            b_s6 == b_tc10 ^ b_tc18,
            b_s7 == b_z12 ^ b_tc18,
            b_s4 == b_tc14 ^ b_s3,
    ;
    assert(spec_sub_bytes(spec_inv_sub_bytes(s)) == s);
}

// ---------------------------------------------------------------------------
// MixColumns in the fixsliced representation, one variant per round phase
// ---------------------------------------------------------------------------

pub open spec fn spec_mix_columns_0(s: Words) -> Words {
    let a0: u32 = s.w0;
    let a1: u32 = s.w1;
    let a2: u32 = s.w2;
    let a3: u32 = s.w3;
    let a4: u32 = s.w4;
    let a5: u32 = s.w5;
    let a6: u32 = s.w6;
    let a7: u32 = s.w7;
    let b0: u32 = spec_rotate_rows_1(a0);
    let b1: u32 = spec_rotate_rows_1(a1);
    let b2: u32 = spec_rotate_rows_1(a2);
    let b3: u32 = spec_rotate_rows_1(a3);
    let b4: u32 = spec_rotate_rows_1(a4);
    let b5: u32 = spec_rotate_rows_1(a5);
    let b6: u32 = spec_rotate_rows_1(a6);
    let b7: u32 = spec_rotate_rows_1(a7);
    let c0: u32 = a0 ^ b0;
    let c1: u32 = a1 ^ b1;
    let c2: u32 = a2 ^ b2;
    let c3: u32 = a3 ^ b3;
    let c4: u32 = a4 ^ b4;
    let c5: u32 = a5 ^ b5;
    let c6: u32 = a6 ^ b6;
    let c7: u32 = a7 ^ b7;
    let o0: u32 = b0 ^ c7 ^ spec_rotate_rows_2(c0);
    let o1: u32 = b1 ^ c0 ^ c7 ^ spec_rotate_rows_2(c1);
    let o2: u32 = b2 ^ c1 ^ spec_rotate_rows_2(c2);
    let o3: u32 = b3 ^ c2 ^ c7 ^ spec_rotate_rows_2(c3);
    let o4: u32 = b4 ^ c3 ^ c7 ^ spec_rotate_rows_2(c4);
    let o5: u32 = b5 ^ c4 ^ spec_rotate_rows_2(c5);
    let o6: u32 = b6 ^ c5 ^ spec_rotate_rows_2(c6);
    let o7: u32 = b7 ^ c6 ^ spec_rotate_rows_2(c7);
    Words {
        w0: o0,
        w1: o1,
        w2: o2,
        w3: o3,
        w4: o4,
        w5: o5,
        w6: o6,
        w7: o7,
    }
}

/// The MixColumns transformation for rounds whose phase is 0 modulo 4.
pub fn mix_columns_0(s: Words) -> (r: Words)
    ensures
        r == spec_mix_columns_0(s),
{
    let a0: u32 = s.w0;
    let a1: u32 = s.w1;
    let a2: u32 = s.w2;
    let a3: u32 = s.w3;
    let a4: u32 = s.w4;
    let a5: u32 = s.w5;
    let a6: u32 = s.w6;
    let a7: u32 = s.w7;
    let b0: u32 = rotate_rows_1(a0);
    let b1: u32 = rotate_rows_1(a1);
    let b2: u32 = rotate_rows_1(a2);
    let b3: u32 = rotate_rows_1(a3);
    let b4: u32 = rotate_rows_1(a4);
    let b5: u32 = rotate_rows_1(a5);
    let b6: u32 = rotate_rows_1(a6);
    let b7: u32 = rotate_rows_1(a7);
    let c0: u32 = a0 ^ b0;
    let c1: u32 = a1 ^ b1;
    let c2: u32 = a2 ^ b2;
    let c3: u32 = a3 ^ b3;
    let c4: u32 = a4 ^ b4;
    let c5: u32 = a5 ^ b5;
    let c6: u32 = a6 ^ b6;
    let c7: u32 = a7 ^ b7;
    let o0: u32 = b0 ^ c7 ^ rotate_rows_2(c0);
    let o1: u32 = b1 ^ c0 ^ c7 ^ rotate_rows_2(c1);
    let o2: u32 = b2 ^ c1 ^ rotate_rows_2(c2);
    let o3: u32 = b3 ^ c2 ^ c7 ^ rotate_rows_2(c3);
    let o4: u32 = b4 ^ c3 ^ c7 ^ rotate_rows_2(c4);
    let o5: u32 = b5 ^ c4 ^ rotate_rows_2(c5);
    let o6: u32 = b6 ^ c5 ^ rotate_rows_2(c6);
    let o7: u32 = b7 ^ c6 ^ rotate_rows_2(c7);
    Words {
        w0: o0,
        w1: o1,
        w2: o2,
        w3: o3,
        w4: o4,
        w5: o5,
        w6: o6,
        w7: o7,
    }
}

pub open spec fn spec_inv_mix_columns_0(s: Words) -> Words {
    let a0: u32 = s.w0;
    let a1: u32 = s.w1;
    let a2: u32 = s.w2;
    let a3: u32 = s.w3;
    let a4: u32 = s.w4;
    let a5: u32 = s.w5;
    let a6: u32 = s.w6;
    let a7: u32 = s.w7;
    let b0: u32 = spec_rotate_rows_1(a0);
    let b1: u32 = spec_rotate_rows_1(a1);
    let b2: u32 = spec_rotate_rows_1(a2);
    let b3: u32 = spec_rotate_rows_1(a3);
    let b4: u32 = spec_rotate_rows_1(a4);
    let b5: u32 = spec_rotate_rows_1(a5);
    let b6: u32 = spec_rotate_rows_1(a6);
    let b7: u32 = spec_rotate_rows_1(a7);
    let c0: u32 = a0 ^ b0;
    let c1: u32 = a1 ^ b1;
    let c2: u32 = a2 ^ b2;
    let c3: u32 = a3 ^ b3;
    let c4: u32 = a4 ^ b4;
    let c5: u32 = a5 ^ b5;
    let c6: u32 = a6 ^ b6;
    let c7: u32 = a7 ^ b7;
    let d0: u32 = a0 ^ c7;
    let d1: u32 = a1 ^ c0 ^ c7;
    let d2: u32 = a2 ^ c1;
    let d3: u32 = a3 ^ c2 ^ c7;
    let d4: u32 = a4 ^ c3 ^ c7;
    let d5: u32 = a5 ^ c4;
    let d6: u32 = a6 ^ c5;
    let d7: u32 = a7 ^ c6;
    let e0: u32 = c0 ^ d6;
    let e1: u32 = c1 ^ d6 ^ d7;
    let e2: u32 = c2 ^ d0 ^ d7;
    let e3: u32 = c3 ^ d1 ^ d6;
    let e4: u32 = c4 ^ d2 ^ d6 ^ d7;
    let e5: u32 = c5 ^ d3 ^ d7;
    let e6: u32 = c6 ^ d4;
    let e7: u32 = c7 ^ d5;
    let o0: u32 = d0 ^ e0 ^ spec_rotate_rows_2(e0);
    let o1: u32 = d1 ^ e1 ^ spec_rotate_rows_2(e1);
    let o2: u32 = d2 ^ e2 ^ spec_rotate_rows_2(e2);
    let o3: u32 = d3 ^ e3 ^ spec_rotate_rows_2(e3);
    let o4: u32 = d4 ^ e4 ^ spec_rotate_rows_2(e4);
    let o5: u32 = d5 ^ e5 ^ spec_rotate_rows_2(e5);
    let o6: u32 = d6 ^ e6 ^ spec_rotate_rows_2(e6);
    let o7: u32 = d7 ^ e7 ^ spec_rotate_rows_2(e7);
    Words {
        w0: o0,
        w1: o1,
        w2: o2,
        w3: o3,
        w4: o4,
        w5: o5,
        w6: o6,
        w7: o7,
    }
}

/// The inverse MixColumns transformation matching `mix_columns_0`.
pub fn inv_mix_columns_0(s: Words) -> (r: Words)
    ensures
        r == spec_inv_mix_columns_0(s),
{
    let a0: u32 = s.w0;
    let a1: u32 = s.w1;
    let a2: u32 = s.w2;
    let a3: u32 = s.w3;
    let a4: u32 = s.w4;
    let a5: u32 = s.w5;
    let a6: u32 = s.w6;
    let a7: u32 = s.w7;
    let b0: u32 = rotate_rows_1(a0);
    let b1: u32 = rotate_rows_1(a1);
    let b2: u32 = rotate_rows_1(a2);
    let b3: u32 = rotate_rows_1(a3);
    let b4: u32 = rotate_rows_1(a4);
    let b5: u32 = rotate_rows_1(a5);
    let b6: u32 = rotate_rows_1(a6);
    let b7: u32 = rotate_rows_1(a7);
    let c0: u32 = a0 ^ b0;
    let c1: u32 = a1 ^ b1;
    let c2: u32 = a2 ^ b2;
    let c3: u32 = a3 ^ b3;
    let c4: u32 = a4 ^ b4;
    let c5: u32 = a5 ^ b5;
    let c6: u32 = a6 ^ b6;
    let c7: u32 = a7 ^ b7;
    let d0: u32 = a0 ^ c7;
    let d1: u32 = a1 ^ c0 ^ c7;
    let d2: u32 = a2 ^ c1;
    let d3: u32 = a3 ^ c2 ^ c7;
    let d4: u32 = a4 ^ c3 ^ c7;
    let d5: u32 = a5 ^ c4;
    let d6: u32 = a6 ^ c5;
    let d7: u32 = a7 ^ c6;
    let e0: u32 = c0 ^ d6;
    let e1: u32 = c1 ^ d6 ^ d7;
    let e2: u32 = c2 ^ d0 ^ d7;
    let e3: u32 = c3 ^ d1 ^ d6;
    let e4: u32 = c4 ^ d2 ^ d6 ^ d7;
    let e5: u32 = c5 ^ d3 ^ d7;
    let e6: u32 = c6 ^ d4;
    let e7: u32 = c7 ^ d5;
    let o0: u32 = d0 ^ e0 ^ rotate_rows_2(e0);
    let o1: u32 = d1 ^ e1 ^ rotate_rows_2(e1);
    let o2: u32 = d2 ^ e2 ^ rotate_rows_2(e2);
    let o3: u32 = d3 ^ e3 ^ rotate_rows_2(e3);
    let o4: u32 = d4 ^ e4 ^ rotate_rows_2(e4);
    let o5: u32 = d5 ^ e5 ^ rotate_rows_2(e5);
    let o6: u32 = d6 ^ e6 ^ rotate_rows_2(e6);
    let o7: u32 = d7 ^ e7 ^ rotate_rows_2(e7);
    Words {
        w0: o0,
        w1: o1,
        w2: o2,
        w3: o3,
        w4: o4,
        w5: o5,
        w6: o6,
        w7: o7,
    }
}

/// The inverse MixColumns variant undoes the forward one.
#[verifier::rlimit(100)]
proof fn lemma_inv_mix_columns_0_of_mix(s: Words)
    ensures
        spec_inv_mix_columns_0(spec_mix_columns_0(s)) == s,
{
    let a_a0: u32 = s.w0;
    let a_a1: u32 = s.w1;
    let a_a2: u32 = s.w2;
    let a_a3: u32 = s.w3;
    let a_a4: u32 = s.w4;
    let a_a5: u32 = s.w5;
    let a_a6: u32 = s.w6;
    let a_a7: u32 = s.w7;
    let a_b0: u32 = spec_rotate_rows_1(a_a0);
    let a_b1: u32 = spec_rotate_rows_1(a_a1);
    let a_b2: u32 = spec_rotate_rows_1(a_a2);
    let a_b3: u32 = spec_rotate_rows_1(a_a3);
    let a_b4: u32 = spec_rotate_rows_1(a_a4);
    let a_b5: u32 = spec_rotate_rows_1(a_a5);
    let a_b6: u32 = spec_rotate_rows_1(a_a6);
    let a_b7: u32 = spec_rotate_rows_1(a_a7);
    let a_c0: u32 = a_a0 ^ a_b0;
    let a_c1: u32 = a_a1 ^ a_b1;
    let a_c2: u32 = a_a2 ^ a_b2;
    let a_c3: u32 = a_a3 ^ a_b3;
    let a_c4: u32 = a_a4 ^ a_b4;
    let a_c5: u32 = a_a5 ^ a_b5;
    let a_c6: u32 = a_a6 ^ a_b6;
    let a_c7: u32 = a_a7 ^ a_b7;
    let a_o0: u32 = a_b0 ^ a_c7 ^ spec_rotate_rows_2(a_c0);
    let a_o1: u32 = a_b1 ^ a_c0 ^ a_c7 ^ spec_rotate_rows_2(a_c1);
    let a_o2: u32 = a_b2 ^ a_c1 ^ spec_rotate_rows_2(a_c2);
    let a_o3: u32 = a_b3 ^ a_c2 ^ a_c7 ^ spec_rotate_rows_2(a_c3);
    let a_o4: u32 = a_b4 ^ a_c3 ^ a_c7 ^ spec_rotate_rows_2(a_c4);
    let a_o5: u32 = a_b5 ^ a_c4 ^ spec_rotate_rows_2(a_c5);
    let a_o6: u32 = a_b6 ^ a_c5 ^ spec_rotate_rows_2(a_c6);
    let a_o7: u32 = a_b7 ^ a_c6 ^ spec_rotate_rows_2(a_c7);
    assert(spec_mix_columns_0(s) == (Words { w0: a_o0, w1: a_o1, w2: a_o2, w3: a_o3, w4: a_o4, w5: a_o5, w6: a_o6, w7: a_o7 }));
    let b_a0: u32 = a_o0;
    let b_a1: u32 = a_o1;
    let b_a2: u32 = a_o2;
    let b_a3: u32 = a_o3;
    let b_a4: u32 = a_o4;
    let b_a5: u32 = a_o5;
    let b_a6: u32 = a_o6;
    let b_a7: u32 = a_o7;
    let b_b0: u32 = spec_rotate_rows_1(b_a0);
    let b_b1: u32 = spec_rotate_rows_1(b_a1);
    let b_b2: u32 = spec_rotate_rows_1(b_a2);
    let b_b3: u32 = spec_rotate_rows_1(b_a3);
    let b_b4: u32 = spec_rotate_rows_1(b_a4);
    let b_b5: u32 = spec_rotate_rows_1(b_a5);
    let b_b6: u32 = spec_rotate_rows_1(b_a6);
    let b_b7: u32 = spec_rotate_rows_1(b_a7);
    let b_c0: u32 = b_a0 ^ b_b0;
    let b_c1: u32 = b_a1 ^ b_b1;
    let b_c2: u32 = b_a2 ^ b_b2;
    let b_c3: u32 = b_a3 ^ b_b3;
    let b_c4: u32 = b_a4 ^ b_b4;
    let b_c5: u32 = b_a5 ^ b_b5;
    let b_c6: u32 = b_a6 ^ b_b6;
    let b_c7: u32 = b_a7 ^ b_b7;
    let b_d0: u32 = b_a0 ^ b_c7;
    let b_d1: u32 = b_a1 ^ b_c0 ^ b_c7;
    let b_d2: u32 = b_a2 ^ b_c1;
    let b_d3: u32 = b_a3 ^ b_c2 ^ b_c7;
    let b_d4: u32 = b_a4 ^ b_c3 ^ b_c7;
    let b_d5: u32 = b_a5 ^ b_c4;
    let b_d6: u32 = b_a6 ^ b_c5;
    let b_d7: u32 = b_a7 ^ b_c6;
    let b_e0: u32 = b_c0 ^ b_d6;
    let b_e1: u32 = b_c1 ^ b_d6 ^ b_d7;
    let b_e2: u32 = b_c2 ^ b_d0 ^ b_d7;
    let b_e3: u32 = b_c3 ^ b_d1 ^ b_d6;
    let b_e4: u32 = b_c4 ^ b_d2 ^ b_d6 ^ b_d7;
    let b_e5: u32 = b_c5 ^ b_d3 ^ b_d7;
    let b_e6: u32 = b_c6 ^ b_d4;
    let b_e7: u32 = b_c7 ^ b_d5;
    let b_o0: u32 = b_d0 ^ b_e0 ^ spec_rotate_rows_2(b_e0);
    let b_o1: u32 = b_d1 ^ b_e1 ^ spec_rotate_rows_2(b_e1);
    let b_o2: u32 = b_d2 ^ b_e2 ^ spec_rotate_rows_2(b_e2);
    let b_o3: u32 = b_d3 ^ b_e3 ^ spec_rotate_rows_2(b_e3);
    let b_o4: u32 = b_d4 ^ b_e4 ^ spec_rotate_rows_2(b_e4);
    let b_o5: u32 = b_d5 ^ b_e5 ^ spec_rotate_rows_2(b_e5);
    let b_o6: u32 = b_d6 ^ b_e6 ^ spec_rotate_rows_2(b_e6);
    let b_o7: u32 = b_d7 ^ b_e7 ^ spec_rotate_rows_2(b_e7);
    assert(spec_inv_mix_columns_0(Words { w0: a_o0, w1: a_o1, w2: a_o2, w3: a_o3, w4: a_o4, w5: a_o5, w6: a_o6, w7: a_o7 }) == (Words { w0: b_o0, w1: b_o1, w2: b_o2, w3: b_o3, w4: b_o4, w5: b_o5, w6: b_o6, w7: b_o7 }));
    assert(b_o0 == a_a0 && b_o1 == a_a1 && b_o2 == a_a2 && b_o3 == a_a3 && b_o4 == a_a4 && b_o5 == a_a5 && b_o6 == a_a6 && b_o7 == a_a7) by (bit_vector)
        requires
            b_a0 == a_o0,
            b_a1 == a_o1,
            b_a2 == a_o2,
            b_a3 == a_o3,
            b_a4 == a_o4,
            b_a5 == a_o5,
            b_a6 == a_o6,
            b_a7 == a_o7,
            a_b0 == spec_rotate_rows_1(a_a0),
            a_b1 == spec_rotate_rows_1(a_a1),
            a_b2 == spec_rotate_rows_1(a_a2),
            a_b3 == spec_rotate_rows_1(a_a3),
            a_b4 == spec_rotate_rows_1(a_a4),
            a_b5 == spec_rotate_rows_1(a_a5),
            a_b6 == spec_rotate_rows_1(a_a6),
            a_b7 == spec_rotate_rows_1(a_a7),
            a_c0 == a_a0 ^ a_b0,
            a_c1 == a_a1 ^ a_b1,
            a_c2 == a_a2 ^ a_b2,
            a_c3 == a_a3 ^ a_b3,
            a_c4 == a_a4 ^ a_b4,
            a_c5 == a_a5 ^ a_b5,
            a_c6 == a_a6 ^ a_b6,
            a_c7 == a_a7 ^ a_b7,
            a_o0 == a_b0 ^ a_c7 ^ spec_rotate_rows_2(a_c0),
            a_o1 == a_b1 ^ a_c0 ^ a_c7 ^ spec_rotate_rows_2(a_c1),
            a_o2 == a_b2 ^ a_c1 ^ spec_rotate_rows_2(a_c2),
            a_o3 == a_b3 ^ a_c2 ^ a_c7 ^ spec_rotate_rows_2(a_c3),
            a_o4 == a_b4 ^ a_c3 ^ a_c7 ^ spec_rotate_rows_2(a_c4),
            a_o5 == a_b5 ^ a_c4 ^ spec_rotate_rows_2(a_c5),
            a_o6 == a_b6 ^ a_c5 ^ spec_rotate_rows_2(a_c6),
            a_o7 == a_b7 ^ a_c6 ^ spec_rotate_rows_2(a_c7),
            b_b0 == spec_rotate_rows_1(b_a0),
            b_b1 == spec_rotate_rows_1(b_a1),
            b_b2 == spec_rotate_rows_1(b_a2),
            b_b3 == spec_rotate_rows_1(b_a3),
            b_b4 == spec_rotate_rows_1(b_a4),
            b_b5 == spec_rotate_rows_1(b_a5),
            b_b6 == spec_rotate_rows_1(b_a6),
            b_b7 == spec_rotate_rows_1(b_a7),
            b_c0 == b_a0 ^ b_b0,
            b_c1 == b_a1 ^ b_b1,
            b_c2 == b_a2 ^ b_b2,
            b_c3 == b_a3 ^ b_b3,
            b_c4 == b_a4 ^ b_b4,
            b_c5 == b_a5 ^ b_b5,
            b_c6 == b_a6 ^ b_b6,
            b_c7 == b_a7 ^ b_b7,
            b_d0 == b_a0 ^ b_c7,
            b_d1 == b_a1 ^ b_c0 ^ b_c7,
            b_d2 == b_a2 ^ b_c1,
            b_d3 == b_a3 ^ b_c2 ^ b_c7,
            b_d4 == b_a4 ^ b_c3 ^ b_c7,
            b_d5 == b_a5 ^ b_c4,
            b_d6 == b_a6 ^ b_c5,
            b_d7 == b_a7 ^ b_c6,
            b_e0 == b_c0 ^ b_d6,
            b_e1 == b_c1 ^ b_d6 ^ b_d7,
            b_e2 == b_c2 ^ b_d0 ^ b_d7,
            b_e3 == b_c3 ^ b_d1 ^ b_d6,
            b_e4 == b_c4 ^ b_d2 ^ b_d6 ^ b_d7,
            b_e5 == b_c5 ^ b_d3 ^ b_d7,
            b_e6 == b_c6 ^ b_d4,
            b_e7 == b_c7 ^ b_d5,
            b_o0 == b_d0 ^ b_e0 ^ spec_rotate_rows_2(b_e0),
            b_o1 == b_d1 ^ b_e1 ^ spec_rotate_rows_2(b_e1),
            b_o2 == b_d2 ^ b_e2 ^ spec_rotate_rows_2(b_e2),
            b_o3 == b_d3 ^ b_e3 ^ spec_rotate_rows_2(b_e3),
            b_o4 == b_d4 ^ b_e4 ^ spec_rotate_rows_2(b_e4),
            b_o5 == b_d5 ^ b_e5 ^ spec_rotate_rows_2(b_e5),
            b_o6 == b_d6 ^ b_e6 ^ spec_rotate_rows_2(b_e6),
            b_o7 == b_d7 ^ b_e7 ^ spec_rotate_rows_2(b_e7),
    ;
    assert(spec_inv_mix_columns_0(spec_mix_columns_0(s)) == s);
}

/// The forward MixColumns variant undoes the inverse one.
#[verifier::rlimit(100)]
proof fn lemma_mix_columns_0_of_inv(s: Words)
    ensures
        spec_mix_columns_0(spec_inv_mix_columns_0(s)) == s,
{
    let a_a0: u32 = s.w0;
    let a_a1: u32 = s.w1;
    let a_a2: u32 = s.w2;
    let a_a3: u32 = s.w3;
    let a_a4: u32 = s.w4;
    let a_a5: u32 = s.w5;
    let a_a6: u32 = s.w6;
    let a_a7: u32 = s.w7;
    let a_b0: u32 = spec_rotate_rows_1(a_a0);
    let a_b1: u32 = spec_rotate_rows_1(a_a1);
    let a_b2: u32 = spec_rotate_rows_1(a_a2);
    let a_b3: u32 = spec_rotate_rows_1(a_a3);
    let a_b4: u32 = spec_rotate_rows_1(a_a4);
    let a_b5: u32 = spec_rotate_rows_1(a_a5);
    let a_b6: u32 = spec_rotate_rows_1(a_a6);
    let a_b7: u32 = spec_rotate_rows_1(a_a7);
    let a_c0: u32 = a_a0 ^ a_b0;
    let a_c1: u32 = a_a1 ^ a_b1;
    let a_c2: u32 = a_a2 ^ a_b2;
    let a_c3: u32 = a_a3 ^ a_b3;
    let a_c4: u32 = a_a4 ^ a_b4;
    let a_c5: u32 = a_a5 ^ a_b5;
    let a_c6: u32 = a_a6 ^ a_b6;
    let a_c7: u32 = a_a7 ^ a_b7;
    let a_d0: u32 = a_a0 ^ a_c7;
    let a_d1: u32 = a_a1 ^ a_c0 ^ a_c7;
    let a_d2: u32 = a_a2 ^ a_c1;
    let a_d3: u32 = a_a3 ^ a_c2 ^ a_c7;
    let a_d4: u32 = a_a4 ^ a_c3 ^ a_c7;
    let a_d5: u32 = a_a5 ^ a_c4;
    let a_d6: u32 = a_a6 ^ a_c5;
    let a_d7: u32 = a_a7 ^ a_c6;
    let a_e0: u32 = a_c0 ^ a_d6;
    let a_e1: u32 = a_c1 ^ a_d6 ^ a_d7;
    let a_e2: u32 = a_c2 ^ a_d0 ^ a_d7;
    let a_e3: u32 = a_c3 ^ a_d1 ^ a_d6;
    let a_e4: u32 = a_c4 ^ a_d2 ^ a_d6 ^ a_d7;
    let a_e5: u32 = a_c5 ^ a_d3 ^ a_d7;
    let a_e6: u32 = a_c6 ^ a_d4;
    let a_e7: u32 = a_c7 ^ a_d5;
    let a_o0: u32 = a_d0 ^ a_e0 ^ spec_rotate_rows_2(a_e0);
    let a_o1: u32 = a_d1 ^ a_e1 ^ spec_rotate_rows_2(a_e1);
    let a_o2: u32 = a_d2 ^ a_e2 ^ spec_rotate_rows_2(a_e2);
    let a_o3: u32 = a_d3 ^ a_e3 ^ spec_rotate_rows_2(a_e3);
    let a_o4: u32 = a_d4 ^ a_e4 ^ spec_rotate_rows_2(a_e4);
    let a_o5: u32 = a_d5 ^ a_e5 ^ spec_rotate_rows_2(a_e5);
    let a_o6: u32 = a_d6 ^ a_e6 ^ spec_rotate_rows_2(a_e6);
    let a_o7: u32 = a_d7 ^ a_e7 ^ spec_rotate_rows_2(a_e7);
    assert(spec_inv_mix_columns_0(s) == (Words { w0: a_o0, w1: a_o1, w2: a_o2, w3: a_o3, w4: a_o4, w5: a_o5, w6: a_o6, w7: a_o7 }));
    let b_a0: u32 = a_o0;
    let b_a1: u32 = a_o1;
    let b_a2: u32 = a_o2;
    let b_a3: u32 = a_o3;
    let b_a4: u32 = a_o4;
    let b_a5: u32 = a_o5;
    let b_a6: u32 = a_o6;
    let b_a7: u32 = a_o7;
    let b_b0: u32 = spec_rotate_rows_1(b_a0);
    let b_b1: u32 = spec_rotate_rows_1(b_a1);
    let b_b2: u32 = spec_rotate_rows_1(b_a2);
    let b_b3: u32 = spec_rotate_rows_1(b_a3);
    let b_b4: u32 = spec_rotate_rows_1(b_a4);
    let b_b5: u32 = spec_rotate_rows_1(b_a5);
    let b_b6: u32 = spec_rotate_rows_1(b_a6);
    let b_b7: u32 = spec_rotate_rows_1(b_a7);
    let b_c0: u32 = b_a0 ^ b_b0;
    let b_c1: u32 = b_a1 ^ b_b1;
    let b_c2: u32 = b_a2 ^ b_b2;
    let b_c3: u32 = b_a3 ^ b_b3;
    let b_c4: u32 = b_a4 ^ b_b4;
    let b_c5: u32 = b_a5 ^ b_b5;
    let b_c6: u32 = b_a6 ^ b_b6;
    let b_c7: u32 = b_a7 ^ b_b7;
    let b_o0: u32 = b_b0 ^ b_c7 ^ spec_rotate_rows_2(b_c0);
    let b_o1: u32 = b_b1 ^ b_c0 ^ b_c7 ^ spec_rotate_rows_2(b_c1);
    let b_o2: u32 = b_b2 ^ b_c1 ^ spec_rotate_rows_2(b_c2);
    let b_o3: u32 = b_b3 ^ b_c2 ^ b_c7 ^ spec_rotate_rows_2(b_c3);
    let b_o4: u32 = b_b4 ^ b_c3 ^ b_c7 ^ spec_rotate_rows_2(b_c4);
    let b_o5: u32 = b_b5 ^ b_c4 ^ spec_rotate_rows_2(b_c5);
    let b_o6: u32 = b_b6 ^ b_c5 ^ spec_rotate_rows_2(b_c6);
    let b_o7: u32 = b_b7 ^ b_c6 ^ spec_rotate_rows_2(b_c7);
    assert(spec_mix_columns_0(Words { w0: a_o0, w1: a_o1, w2: a_o2, w3: a_o3, w4: a_o4, w5: a_o5, w6: a_o6, w7: a_o7 }) == (Words { w0: b_o0, w1: b_o1, w2: b_o2, w3: b_o3, w4: b_o4, w5: b_o5, w6: b_o6, w7: b_o7 }));
    assert(b_o0 == a_a0 && b_o1 == a_a1 && b_o2 == a_a2 && b_o3 == a_a3 && b_o4 == a_a4 && b_o5 == a_a5 && b_o6 == a_a6 && b_o7 == a_a7) by (bit_vector)
        requires
            b_a0 == a_o0,
            b_a1 == a_o1,
            b_a2 == a_o2,
            b_a3 == a_o3,
            b_a4 == a_o4,
            b_a5 == a_o5,
            b_a6 == a_o6,
            b_a7 == a_o7,
            a_b0 == spec_rotate_rows_1(a_a0),
            a_b1 == spec_rotate_rows_1(a_a1),
            a_b2 == spec_rotate_rows_1(a_a2),
            a_b3 == spec_rotate_rows_1(a_a3),
            a_b4 == spec_rotate_rows_1(a_a4),
            a_b5 == spec_rotate_rows_1(a_a5),
            a_b6 == spec_rotate_rows_1(a_a6),
            a_b7 == spec_rotate_rows_1(a_a7),
            a_c0 == a_a0 ^ a_b0,
            a_c1 == a_a1 ^ a_b1,
            a_c2 == a_a2 ^ a_b2,
            a_c3 == a_a3 ^ a_b3,
            a_c4 == a_a4 ^ a_b4,
            a_c5 == a_a5 ^ a_b5,
            a_c6 == a_a6 ^ a_b6,
            a_c7 == a_a7 ^ a_b7,
            a_d0 == a_a0 ^ a_c7,
            a_d1 == a_a1 ^ a_c0 ^ a_c7,
            a_d2 == a_a2 ^ a_c1,
            a_d3 == a_a3 ^ a_c2 ^ a_c7,
            a_d4 == a_a4 ^ a_c3 ^ a_c7,
            a_d5 == a_a5 ^ a_c4,
            a_d6 == a_a6 ^ a_c5,
            a_d7 == a_a7 ^ a_c6,
            a_e0 == a_c0 ^ a_d6,
            a_e1 == a_c1 ^ a_d6 ^ a_d7,
            a_e2 == a_c2 ^ a_d0 ^ a_d7,
            a_e3 == a_c3 ^ a_d1 ^ a_d6,
            a_e4 == a_c4 ^ a_d2 ^ a_d6 ^ a_d7,
            a_e5 == a_c5 ^ a_d3 ^ a_d7,
            a_e6 == a_c6 ^ a_d4,
            a_e7 == a_c7 ^ a_d5,
            a_o0 == a_d0 ^ a_e0 ^ spec_rotate_rows_2(a_e0),
            a_o1 == a_d1 ^ a_e1 ^ spec_rotate_rows_2(a_e1),
            a_o2 == a_d2 ^ a_e2 ^ spec_rotate_rows_2(a_e2),
            a_o3 == a_d3 ^ a_e3 ^ spec_rotate_rows_2(a_e3),
            a_o4 == a_d4 ^ a_e4 ^ spec_rotate_rows_2(a_e4),
            a_o5 == a_d5 ^ a_e5 ^ spec_rotate_rows_2(a_e5),
            a_o6 == a_d6 ^ a_e6 ^ spec_rotate_rows_2(a_e6),
            a_o7 == a_d7 ^ a_e7 ^ spec_rotate_rows_2(a_e7),
            b_b0 == spec_rotate_rows_1(b_a0),
            b_b1 == spec_rotate_rows_1(b_a1),
            b_b2 == spec_rotate_rows_1(b_a2),
            b_b3 == spec_rotate_rows_1(b_a3),
            b_b4 == spec_rotate_rows_1(b_a4),
            b_b5 == spec_rotate_rows_1(b_a5),
            b_b6 == spec_rotate_rows_1(b_a6),
            b_b7 == spec_rotate_rows_1(b_a7),
            b_c0 == b_a0 ^ b_b0,
            b_c1 == b_a1 ^ b_b1,
            b_c2 == b_a2 ^ b_b2,
            b_c3 == b_a3 ^ b_b3,
            b_c4 == b_a4 ^ b_b4,
            b_c5 == b_a5 ^ b_b5,
            b_c6 == b_a6 ^ b_b6,
            b_c7 == b_a7 ^ b_b7,
            b_o0 == b_b0 ^ b_c7 ^ spec_rotate_rows_2(b_c0),
            b_o1 == b_b1 ^ b_c0 ^ b_c7 ^ spec_rotate_rows_2(b_c1),
            b_o2 == b_b2 ^ b_c1 ^ spec_rotate_rows_2(b_c2),
            b_o3 == b_b3 ^ b_c2 ^ b_c7 ^ spec_rotate_rows_2(b_c3),
            b_o4 == b_b4 ^ b_c3 ^ b_c7 ^ spec_rotate_rows_2(b_c4),
            b_o5 == b_b5 ^ b_c4 ^ spec_rotate_rows_2(b_c5),
            b_o6 == b_b6 ^ b_c5 ^ spec_rotate_rows_2(b_c6),
            b_o7 == b_b7 ^ b_c6 ^ spec_rotate_rows_2(b_c7),
    ;
    assert(spec_mix_columns_0(spec_inv_mix_columns_0(s)) == s);
}

pub open spec fn spec_mix_columns_1(s: Words) -> Words {
    let a0: u32 = s.w0;
    let a1: u32 = s.w1;
    let a2: u32 = s.w2;
    let a3: u32 = s.w3;
    let a4: u32 = s.w4;
    let a5: u32 = s.w5;
    let a6: u32 = s.w6;
    let a7: u32 = s.w7;
    let b0: u32 = spec_rotate_rows_and_columns_1_1(a0);
    let b1: u32 = spec_rotate_rows_and_columns_1_1(a1);
    let b2: u32 = spec_rotate_rows_and_columns_1_1(a2);
    let b3: u32 = spec_rotate_rows_and_columns_1_1(a3);
    let b4: u32 = spec_rotate_rows_and_columns_1_1(a4);
    let b5: u32 = spec_rotate_rows_and_columns_1_1(a5);
    let b6: u32 = spec_rotate_rows_and_columns_1_1(a6);
    let b7: u32 = spec_rotate_rows_and_columns_1_1(a7);
    let c0: u32 = a0 ^ b0;
    let c1: u32 = a1 ^ b1;
    let c2: u32 = a2 ^ b2;
    let c3: u32 = a3 ^ b3;
    let c4: u32 = a4 ^ b4;
    let c5: u32 = a5 ^ b5;
    let c6: u32 = a6 ^ b6;
    let c7: u32 = a7 ^ b7;
    let o0: u32 = b0 ^ c7 ^ spec_rotate_rows_and_columns_2_2(c0);
    let o1: u32 = b1 ^ c0 ^ c7 ^ spec_rotate_rows_and_columns_2_2(c1);
    let o2: u32 = b2 ^ c1 ^ spec_rotate_rows_and_columns_2_2(c2);
    let o3: u32 = b3 ^ c2 ^ c7 ^ spec_rotate_rows_and_columns_2_2(c3);
    let o4: u32 = b4 ^ c3 ^ c7 ^ spec_rotate_rows_and_columns_2_2(c4);
    let o5: u32 = b5 ^ c4 ^ spec_rotate_rows_and_columns_2_2(c5);
    let o6: u32 = b6 ^ c5 ^ spec_rotate_rows_and_columns_2_2(c6);
    let o7: u32 = b7 ^ c6 ^ spec_rotate_rows_and_columns_2_2(c7);
    Words {
        w0: o0,
        w1: o1,
        w2: o2,
        w3: o3,
        w4: o4,
        w5: o5,
        w6: o6,
        w7: o7,
    }
}

/// The MixColumns transformation for rounds whose phase is 1 modulo 4.
pub fn mix_columns_1(s: Words) -> (r: Words)
    ensures
        r == spec_mix_columns_1(s),
{
    let a0: u32 = s.w0;
    let a1: u32 = s.w1;
    let a2: u32 = s.w2;
    let a3: u32 = s.w3;
    let a4: u32 = s.w4;
    let a5: u32 = s.w5;
    let a6: u32 = s.w6;
    let a7: u32 = s.w7;
    let b0: u32 = rotate_rows_and_columns_1_1(a0);
    let b1: u32 = rotate_rows_and_columns_1_1(a1);
    let b2: u32 = rotate_rows_and_columns_1_1(a2);
    let b3: u32 = rotate_rows_and_columns_1_1(a3);
    let b4: u32 = rotate_rows_and_columns_1_1(a4);
    let b5: u32 = rotate_rows_and_columns_1_1(a5);
    let b6: u32 = rotate_rows_and_columns_1_1(a6);
    let b7: u32 = rotate_rows_and_columns_1_1(a7);
    let c0: u32 = a0 ^ b0;
    let c1: u32 = a1 ^ b1;
    let c2: u32 = a2 ^ b2;
    let c3: u32 = a3 ^ b3;
    let c4: u32 = a4 ^ b4;
    let c5: u32 = a5 ^ b5;
    let c6: u32 = a6 ^ b6;
    let c7: u32 = a7 ^ b7;
    let o0: u32 = b0 ^ c7 ^ rotate_rows_and_columns_2_2(c0);
    let o1: u32 = b1 ^ c0 ^ c7 ^ rotate_rows_and_columns_2_2(c1);
    let o2: u32 = b2 ^ c1 ^ rotate_rows_and_columns_2_2(c2);
    let o3: u32 = b3 ^ c2 ^ c7 ^ rotate_rows_and_columns_2_2(c3);
    let o4: u32 = b4 ^ c3 ^ c7 ^ rotate_rows_and_columns_2_2(c4);
    let o5: u32 = b5 ^ c4 ^ rotate_rows_and_columns_2_2(c5);
    let o6: u32 = b6 ^ c5 ^ rotate_rows_and_columns_2_2(c6);
    let o7: u32 = b7 ^ c6 ^ rotate_rows_and_columns_2_2(c7);
    Words {
        w0: o0,
        w1: o1,
        w2: o2,
        w3: o3,
        w4: o4,
        w5: o5,
        w6: o6,
        w7: o7,
    }
}

pub open spec fn spec_inv_mix_columns_1(s: Words) -> Words {
    let a0: u32 = s.w0;
    let a1: u32 = s.w1;
    let a2: u32 = s.w2;
    let a3: u32 = s.w3;
    let a4: u32 = s.w4;
    let a5: u32 = s.w5;
    let a6: u32 = s.w6;
    let a7: u32 = s.w7;
    let b0: u32 = spec_rotate_rows_and_columns_1_1(a0);
    let b1: u32 = spec_rotate_rows_and_columns_1_1(a1);
    let b2: u32 = spec_rotate_rows_and_columns_1_1(a2);
    let b3: u32 = spec_rotate_rows_and_columns_1_1(a3);
    let b4: u32 = spec_rotate_rows_and_columns_1_1(a4);
    let b5: u32 = spec_rotate_rows_and_columns_1_1(a5);
    let b6: u32 = spec_rotate_rows_and_columns_1_1(a6);
    let b7: u32 = spec_rotate_rows_and_columns_1_1(a7);
    let c0: u32 = a0 ^ b0;
    let c1: u32 = a1 ^ b1;
    let c2: u32 = a2 ^ b2;
    let c3: u32 = a3 ^ b3;
    let c4: u32 = a4 ^ b4;
    let c5: u32 = a5 ^ b5;
    let c6: u32 = a6 ^ b6;
    let c7: u32 = a7 ^ b7;
    let d0: u32 = a0 ^ c7;
    let d1: u32 = a1 ^ c0 ^ c7;
    let d2: u32 = a2 ^ c1;
    let d3: u32 = a3 ^ c2 ^ c7;
    let d4: u32 = a4 ^ c3 ^ c7;
    let d5: u32 = a5 ^ c4;
    let d6: u32 = a6 ^ c5;
    let d7: u32 = a7 ^ c6;
    let e0: u32 = c0 ^ d6;
    let e1: u32 = c1 ^ d6 ^ d7;
    let e2: u32 = c2 ^ d0 ^ d7;
    let e3: u32 = c3 ^ d1 ^ d6;
    let e4: u32 = c4 ^ d2 ^ d6 ^ d7;
    let e5: u32 = c5 ^ d3 ^ d7;
    let e6: u32 = c6 ^ d4;
    let e7: u32 = c7 ^ d5;
    let o0: u32 = d0 ^ e0 ^ spec_rotate_rows_and_columns_2_2(e0);
    let o1: u32 = d1 ^ e1 ^ spec_rotate_rows_and_columns_2_2(e1);
    let o2: u32 = d2 ^ e2 ^ spec_rotate_rows_and_columns_2_2(e2);
    let o3: u32 = d3 ^ e3 ^ spec_rotate_rows_and_columns_2_2(e3);
    let o4: u32 = d4 ^ e4 ^ spec_rotate_rows_and_columns_2_2(e4);
    let o5: u32 = d5 ^ e5 ^ spec_rotate_rows_and_columns_2_2(e5);
    let o6: u32 = d6 ^ e6 ^ spec_rotate_rows_and_columns_2_2(e6);
    let o7: u32 = d7 ^ e7 ^ spec_rotate_rows_and_columns_2_2(e7);
    Words {
        w0: o0,
        w1: o1,
        w2: o2,
        w3: o3,
        w4: o4,
        w5: o5,
        w6: o6,
        w7: o7,
    }
}

/// The inverse MixColumns transformation matching `mix_columns_1`.
pub fn inv_mix_columns_1(s: Words) -> (r: Words)
    ensures
        r == spec_inv_mix_columns_1(s),
{
    let a0: u32 = s.w0;
    let a1: u32 = s.w1;
    let a2: u32 = s.w2;
    let a3: u32 = s.w3;
    let a4: u32 = s.w4;
    let a5: u32 = s.w5;
    let a6: u32 = s.w6;
    let a7: u32 = s.w7;
    let b0: u32 = rotate_rows_and_columns_1_1(a0);
    let b1: u32 = rotate_rows_and_columns_1_1(a1);
    let b2: u32 = rotate_rows_and_columns_1_1(a2);
    let b3: u32 = rotate_rows_and_columns_1_1(a3);
    let b4: u32 = rotate_rows_and_columns_1_1(a4);
    let b5: u32 = rotate_rows_and_columns_1_1(a5);
    let b6: u32 = rotate_rows_and_columns_1_1(a6);
    let b7: u32 = rotate_rows_and_columns_1_1(a7);
    let c0: u32 = a0 ^ b0;
    let c1: u32 = a1 ^ b1;
    let c2: u32 = a2 ^ b2;
    let c3: u32 = a3 ^ b3;
    let c4: u32 = a4 ^ b4;
    let c5: u32 = a5 ^ b5;
    let c6: u32 = a6 ^ b6;
    let c7: u32 = a7 ^ b7;
    let d0: u32 = a0 ^ c7;
    let d1: u32 = a1 ^ c0 ^ c7;
    let d2: u32 = a2 ^ c1;
    let d3: u32 = a3 ^ c2 ^ c7;
    let d4: u32 = a4 ^ c3 ^ c7;
    let d5: u32 = a5 ^ c4;
    let d6: u32 = a6 ^ c5;
    let d7: u32 = a7 ^ c6;
    let e0: u32 = c0 ^ d6;
    let e1: u32 = c1 ^ d6 ^ d7;
    let e2: u32 = c2 ^ d0 ^ d7;
    let e3: u32 = c3 ^ d1 ^ d6;
    let e4: u32 = c4 ^ d2 ^ d6 ^ d7;
    let e5: u32 = c5 ^ d3 ^ d7;
    let e6: u32 = c6 ^ d4;
    let e7: u32 = c7 ^ d5;
    let o0: u32 = d0 ^ e0 ^ rotate_rows_and_columns_2_2(e0);
    let o1: u32 = d1 ^ e1 ^ rotate_rows_and_columns_2_2(e1);
    let o2: u32 = d2 ^ e2 ^ rotate_rows_and_columns_2_2(e2);
    let o3: u32 = d3 ^ e3 ^ rotate_rows_and_columns_2_2(e3);
    let o4: u32 = d4 ^ e4 ^ rotate_rows_and_columns_2_2(e4);
    let o5: u32 = d5 ^ e5 ^ rotate_rows_and_columns_2_2(e5);
    let o6: u32 = d6 ^ e6 ^ rotate_rows_and_columns_2_2(e6);
    let o7: u32 = d7 ^ e7 ^ rotate_rows_and_columns_2_2(e7);
    Words {
        w0: o0,
        w1: o1,
        w2: o2,
        w3: o3,
        w4: o4,
        w5: o5,
        w6: o6,
        w7: o7,
    }
}

/// The inverse MixColumns variant undoes the forward one.
#[verifier::rlimit(100)]
proof fn lemma_inv_mix_columns_1_of_mix(s: Words)
    ensures
        spec_inv_mix_columns_1(spec_mix_columns_1(s)) == s,
{
    let a_a0: u32 = s.w0;
    let a_a1: u32 = s.w1;
    let a_a2: u32 = s.w2;
    let a_a3: u32 = s.w3;
    let a_a4: u32 = s.w4;
    let a_a5: u32 = s.w5;
    let a_a6: u32 = s.w6;
    let a_a7: u32 = s.w7;
    let a_b0: u32 = spec_rotate_rows_and_columns_1_1(a_a0);
    let a_b1: u32 = spec_rotate_rows_and_columns_1_1(a_a1);
    let a_b2: u32 = spec_rotate_rows_and_columns_1_1(a_a2);
    let a_b3: u32 = spec_rotate_rows_and_columns_1_1(a_a3);
    let a_b4: u32 = spec_rotate_rows_and_columns_1_1(a_a4);
    let a_b5: u32 = spec_rotate_rows_and_columns_1_1(a_a5);
    let a_b6: u32 = spec_rotate_rows_and_columns_1_1(a_a6);
    let a_b7: u32 = spec_rotate_rows_and_columns_1_1(a_a7);
    let a_c0: u32 = a_a0 ^ a_b0;
    let a_c1: u32 = a_a1 ^ a_b1;
    let a_c2: u32 = a_a2 ^ a_b2;
    let a_c3: u32 = a_a3 ^ a_b3;
    let a_c4: u32 = a_a4 ^ a_b4;
    let a_c5: u32 = a_a5 ^ a_b5;
    let a_c6: u32 = a_a6 ^ a_b6;
    let a_c7: u32 = a_a7 ^ a_b7;
    let a_o0: u32 = a_b0 ^ a_c7 ^ spec_rotate_rows_and_columns_2_2(a_c0);
    let a_o1: u32 = a_b1 ^ a_c0 ^ a_c7 ^ spec_rotate_rows_and_columns_2_2(a_c1);
    let a_o2: u32 = a_b2 ^ a_c1 ^ spec_rotate_rows_and_columns_2_2(a_c2);
    let a_o3: u32 = a_b3 ^ a_c2 ^ a_c7 ^ spec_rotate_rows_and_columns_2_2(a_c3);
    let a_o4: u32 = a_b4 ^ a_c3 ^ a_c7 ^ spec_rotate_rows_and_columns_2_2(a_c4);
    let a_o5: u32 = a_b5 ^ a_c4 ^ spec_rotate_rows_and_columns_2_2(a_c5);
    let a_o6: u32 = a_b6 ^ a_c5 ^ spec_rotate_rows_and_columns_2_2(a_c6);
    let a_o7: u32 = a_b7 ^ a_c6 ^ spec_rotate_rows_and_columns_2_2(a_c7);
    assert(spec_mix_columns_1(s) == (Words { w0: a_o0, w1: a_o1, w2: a_o2, w3: a_o3, w4: a_o4, w5: a_o5, w6: a_o6, w7: a_o7 }));
    let b_a0: u32 = a_o0;
    let b_a1: u32 = a_o1;
    let b_a2: u32 = a_o2;
    let b_a3: u32 = a_o3;
    let b_a4: u32 = a_o4;
    let b_a5: u32 = a_o5;
    let b_a6: u32 = a_o6;
    let b_a7: u32 = a_o7;
    let b_b0: u32 = spec_rotate_rows_and_columns_1_1(b_a0);
    let b_b1: u32 = spec_rotate_rows_and_columns_1_1(b_a1);
    let b_b2: u32 = spec_rotate_rows_and_columns_1_1(b_a2);
    let b_b3: u32 = spec_rotate_rows_and_columns_1_1(b_a3);
    let b_b4: u32 = spec_rotate_rows_and_columns_1_1(b_a4);
    let b_b5: u32 = spec_rotate_rows_and_columns_1_1(b_a5);
    let b_b6: u32 = spec_rotate_rows_and_columns_1_1(b_a6);
    let b_b7: u32 = spec_rotate_rows_and_columns_1_1(b_a7);
    let b_c0: u32 = b_a0 ^ b_b0;
    let b_c1: u32 = b_a1 ^ b_b1;
    let b_c2: u32 = b_a2 ^ b_b2;
    let b_c3: u32 = b_a3 ^ b_b3;
    let b_c4: u32 = b_a4 ^ b_b4;
    let b_c5: u32 = b_a5 ^ b_b5;
    let b_c6: u32 = b_a6 ^ b_b6;
    let b_c7: u32 = b_a7 ^ b_b7;
    let b_d0: u32 = b_a0 ^ b_c7;
    let b_d1: u32 = b_a1 ^ b_c0 ^ b_c7;
    let b_d2: u32 = b_a2 ^ b_c1;
    let b_d3: u32 = b_a3 ^ b_c2 ^ b_c7;
    let b_d4: u32 = b_a4 ^ b_c3 ^ b_c7;
    let b_d5: u32 = b_a5 ^ b_c4;
    let b_d6: u32 = b_a6 ^ b_c5;
    let b_d7: u32 = b_a7 ^ b_c6;
    let b_e0: u32 = b_c0 ^ b_d6;
    let b_e1: u32 = b_c1 ^ b_d6 ^ b_d7;
    let b_e2: u32 = b_c2 ^ b_d0 ^ b_d7;
    let b_e3: u32 = b_c3 ^ b_d1 ^ b_d6;
    let b_e4: u32 = b_c4 ^ b_d2 ^ b_d6 ^ b_d7;
    let b_e5: u32 = b_c5 ^ b_d3 ^ b_d7;
    let b_e6: u32 = b_c6 ^ b_d4;
    let b_e7: u32 = b_c7 ^ b_d5;
    let b_o0: u32 = b_d0 ^ b_e0 ^ spec_rotate_rows_and_columns_2_2(b_e0);
    let b_o1: u32 = b_d1 ^ b_e1 ^ spec_rotate_rows_and_columns_2_2(b_e1);
    let b_o2: u32 = b_d2 ^ b_e2 ^ spec_rotate_rows_and_columns_2_2(b_e2);
    let b_o3: u32 = b_d3 ^ b_e3 ^ spec_rotate_rows_and_columns_2_2(b_e3);
    let b_o4: u32 = b_d4 ^ b_e4 ^ spec_rotate_rows_and_columns_2_2(b_e4);
    let b_o5: u32 = b_d5 ^ b_e5 ^ spec_rotate_rows_and_columns_2_2(b_e5);
    let b_o6: u32 = b_d6 ^ b_e6 ^ spec_rotate_rows_and_columns_2_2(b_e6);
    let b_o7: u32 = b_d7 ^ b_e7 ^ spec_rotate_rows_and_columns_2_2(b_e7);
    assert(spec_inv_mix_columns_1(Words { w0: a_o0, w1: a_o1, w2: a_o2, w3: a_o3, w4: a_o4, w5: a_o5, w6: a_o6, w7: a_o7 }) == (Words { w0: b_o0, w1: b_o1, w2: b_o2, w3: b_o3, w4: b_o4, w5: b_o5, w6: b_o6, w7: b_o7 }));
    assert(b_o0 == a_a0 && b_o1 == a_a1 && b_o2 == a_a2 && b_o3 == a_a3 && b_o4 == a_a4 && b_o5 == a_a5 && b_o6 == a_a6 && b_o7 == a_a7) by (bit_vector)
        requires
            b_a0 == a_o0,
            b_a1 == a_o1,
            b_a2 == a_o2,
            b_a3 == a_o3,
            b_a4 == a_o4,
            b_a5 == a_o5,
            b_a6 == a_o6,
            b_a7 == a_o7,
            a_b0 == spec_rotate_rows_and_columns_1_1(a_a0),
            a_b1 == spec_rotate_rows_and_columns_1_1(a_a1),
            a_b2 == spec_rotate_rows_and_columns_1_1(a_a2),
            a_b3 == spec_rotate_rows_and_columns_1_1(a_a3),
            a_b4 == spec_rotate_rows_and_columns_1_1(a_a4),
            a_b5 == spec_rotate_rows_and_columns_1_1(a_a5),
            a_b6 == spec_rotate_rows_and_columns_1_1(a_a6),
            a_b7 == spec_rotate_rows_and_columns_1_1(a_a7),
            a_c0 == a_a0 ^ a_b0,
            a_c1 == a_a1 ^ a_b1,
            a_c2 == a_a2 ^ a_b2,
            a_c3 == a_a3 ^ a_b3,
            a_c4 == a_a4 ^ a_b4,
            a_c5 == a_a5 ^ a_b5,
            a_c6 == a_a6 ^ a_b6,
            a_c7 == a_a7 ^ a_b7,
            a_o0 == a_b0 ^ a_c7 ^ spec_rotate_rows_and_columns_2_2(a_c0),
            a_o1 == a_b1 ^ a_c0 ^ a_c7 ^ spec_rotate_rows_and_columns_2_2(a_c1),
            a_o2 == a_b2 ^ a_c1 ^ spec_rotate_rows_and_columns_2_2(a_c2),
            a_o3 == a_b3 ^ a_c2 ^ a_c7 ^ spec_rotate_rows_and_columns_2_2(a_c3),
            a_o4 == a_b4 ^ a_c3 ^ a_c7 ^ spec_rotate_rows_and_columns_2_2(a_c4),
            a_o5 == a_b5 ^ a_c4 ^ spec_rotate_rows_and_columns_2_2(a_c5),
            a_o6 == a_b6 ^ a_c5 ^ spec_rotate_rows_and_columns_2_2(a_c6),
            a_o7 == a_b7 ^ a_c6 ^ spec_rotate_rows_and_columns_2_2(a_c7),
            b_b0 == spec_rotate_rows_and_columns_1_1(b_a0),
            b_b1 == spec_rotate_rows_and_columns_1_1(b_a1),
            b_b2 == spec_rotate_rows_and_columns_1_1(b_a2),
            b_b3 == spec_rotate_rows_and_columns_1_1(b_a3),
            b_b4 == spec_rotate_rows_and_columns_1_1(b_a4),
            b_b5 == spec_rotate_rows_and_columns_1_1(b_a5),
            b_b6 == spec_rotate_rows_and_columns_1_1(b_a6),
            b_b7 == spec_rotate_rows_and_columns_1_1(b_a7),
            b_c0 == b_a0 ^ b_b0,
            b_c1 == b_a1 ^ b_b1,
            b_c2 == b_a2 ^ b_b2,
            b_c3 == b_a3 ^ b_b3,
            b_c4 == b_a4 ^ b_b4,
            b_c5 == b_a5 ^ b_b5,
            b_c6 == b_a6 ^ b_b6,
            b_c7 == b_a7 ^ b_b7,
            b_d0 == b_a0 ^ b_c7,
            b_d1 == b_a1 ^ b_c0 ^ b_c7,
            b_d2 == b_a2 ^ b_c1,
            b_d3 == b_a3 ^ b_c2 ^ b_c7,
            b_d4 == b_a4 ^ b_c3 ^ b_c7,
            b_d5 == b_a5 ^ b_c4,
            b_d6 == b_a6 ^ b_c5,
            b_d7 == b_a7 ^ b_c6,
            b_e0 == b_c0 ^ b_d6,
            b_e1 == b_c1 ^ b_d6 ^ b_d7,
            b_e2 == b_c2 ^ b_d0 ^ b_d7,
            b_e3 == b_c3 ^ b_d1 ^ b_d6,
            b_e4 == b_c4 ^ b_d2 ^ b_d6 ^ b_d7,
            b_e5 == b_c5 ^ b_d3 ^ b_d7,
            b_e6 == b_c6 ^ b_d4,
            b_e7 == b_c7 ^ b_d5,
            b_o0 == b_d0 ^ b_e0 ^ spec_rotate_rows_and_columns_2_2(b_e0),
            b_o1 == b_d1 ^ b_e1 ^ spec_rotate_rows_and_columns_2_2(b_e1),
            b_o2 == b_d2 ^ b_e2 ^ spec_rotate_rows_and_columns_2_2(b_e2),
            b_o3 == b_d3 ^ b_e3 ^ spec_rotate_rows_and_columns_2_2(b_e3),
            b_o4 == b_d4 ^ b_e4 ^ spec_rotate_rows_and_columns_2_2(b_e4),
            b_o5 == b_d5 ^ b_e5 ^ spec_rotate_rows_and_columns_2_2(b_e5),
            b_o6 == b_d6 ^ b_e6 ^ spec_rotate_rows_and_columns_2_2(b_e6),
            b_o7 == b_d7 ^ b_e7 ^ spec_rotate_rows_and_columns_2_2(b_e7),
    ;
    assert(spec_inv_mix_columns_1(spec_mix_columns_1(s)) == s);
}

/// The forward MixColumns variant undoes the inverse one.
#[verifier::rlimit(100)]
proof fn lemma_mix_columns_1_of_inv(s: Words)
    ensures
        spec_mix_columns_1(spec_inv_mix_columns_1(s)) == s,
{
    let a_a0: u32 = s.w0;
    let a_a1: u32 = s.w1;
    let a_a2: u32 = s.w2;
    let a_a3: u32 = s.w3;
    let a_a4: u32 = s.w4;
    let a_a5: u32 = s.w5;
    let a_a6: u32 = s.w6;
    let a_a7: u32 = s.w7;
    let a_b0: u32 = spec_rotate_rows_and_columns_1_1(a_a0);
    let a_b1: u32 = spec_rotate_rows_and_columns_1_1(a_a1);
    let a_b2: u32 = spec_rotate_rows_and_columns_1_1(a_a2);
    let a_b3: u32 = spec_rotate_rows_and_columns_1_1(a_a3);
    let a_b4: u32 = spec_rotate_rows_and_columns_1_1(a_a4);
    let a_b5: u32 = spec_rotate_rows_and_columns_1_1(a_a5);
    let a_b6: u32 = spec_rotate_rows_and_columns_1_1(a_a6);
    let a_b7: u32 = spec_rotate_rows_and_columns_1_1(a_a7);
    let a_c0: u32 = a_a0 ^ a_b0;
    let a_c1: u32 = a_a1 ^ a_b1;
    let a_c2: u32 = a_a2 ^ a_b2;
    let a_c3: u32 = a_a3 ^ a_b3;
    let a_c4: u32 = a_a4 ^ a_b4;
    let a_c5: u32 = a_a5 ^ a_b5;
    let a_c6: u32 = a_a6 ^ a_b6;
    let a_c7: u32 = a_a7 ^ a_b7;
    let a_d0: u32 = a_a0 ^ a_c7;
    let a_d1: u32 = a_a1 ^ a_c0 ^ a_c7;
    let a_d2: u32 = a_a2 ^ a_c1;
    let a_d3: u32 = a_a3 ^ a_c2 ^ a_c7;
    let a_d4: u32 = a_a4 ^ a_c3 ^ a_c7;
    let a_d5: u32 = a_a5 ^ a_c4;
    let a_d6: u32 = a_a6 ^ a_c5;
    let a_d7: u32 = a_a7 ^ a_c6;
    let a_e0: u32 = a_c0 ^ a_d6;
    let a_e1: u32 = a_c1 ^ a_d6 ^ a_d7;
    let a_e2: u32 = a_c2 ^ a_d0 ^ a_d7;
    let a_e3: u32 = a_c3 ^ a_d1 ^ a_d6;
    let a_e4: u32 = a_c4 ^ a_d2 ^ a_d6 ^ a_d7;
    let a_e5: u32 = a_c5 ^ a_d3 ^ a_d7;
    let a_e6: u32 = a_c6 ^ a_d4;
    let a_e7: u32 = a_c7 ^ a_d5;
    let a_o0: u32 = a_d0 ^ a_e0 ^ spec_rotate_rows_and_columns_2_2(a_e0);
    let a_o1: u32 = a_d1 ^ a_e1 ^ spec_rotate_rows_and_columns_2_2(a_e1);
    let a_o2: u32 = a_d2 ^ a_e2 ^ spec_rotate_rows_and_columns_2_2(a_e2);
    let a_o3: u32 = a_d3 ^ a_e3 ^ spec_rotate_rows_and_columns_2_2(a_e3);
    let a_o4: u32 = a_d4 ^ a_e4 ^ spec_rotate_rows_and_columns_2_2(a_e4);
    let a_o5: u32 = a_d5 ^ a_e5 ^ spec_rotate_rows_and_columns_2_2(a_e5);
    let a_o6: u32 = a_d6 ^ a_e6 ^ spec_rotate_rows_and_columns_2_2(a_e6);
    let a_o7: u32 = a_d7 ^ a_e7 ^ spec_rotate_rows_and_columns_2_2(a_e7);
    assert(spec_inv_mix_columns_1(s) == (Words { w0: a_o0, w1: a_o1, w2: a_o2, w3: a_o3, w4: a_o4, w5: a_o5, w6: a_o6, w7: a_o7 }));
    let b_a0: u32 = a_o0;
    let b_a1: u32 = a_o1;
    let b_a2: u32 = a_o2;
    let b_a3: u32 = a_o3;
    let b_a4: u32 = a_o4;
    let b_a5: u32 = a_o5;
    let b_a6: u32 = a_o6;
    let b_a7: u32 = a_o7;
    let b_b0: u32 = spec_rotate_rows_and_columns_1_1(b_a0);
    let b_b1: u32 = spec_rotate_rows_and_columns_1_1(b_a1);
    let b_b2: u32 = spec_rotate_rows_and_columns_1_1(b_a2);
    let b_b3: u32 = spec_rotate_rows_and_columns_1_1(b_a3);
    let b_b4: u32 = spec_rotate_rows_and_columns_1_1(b_a4);
    let b_b5: u32 = spec_rotate_rows_and_columns_1_1(b_a5);
    let b_b6: u32 = spec_rotate_rows_and_columns_1_1(b_a6);
    let b_b7: u32 = spec_rotate_rows_and_columns_1_1(b_a7);
    let b_c0: u32 = b_a0 ^ b_b0;
    let b_c1: u32 = b_a1 ^ b_b1;
    let b_c2: u32 = b_a2 ^ b_b2;
    let b_c3: u32 = b_a3 ^ b_b3;
    let b_c4: u32 = b_a4 ^ b_b4;
    let b_c5: u32 = b_a5 ^ b_b5;
    let b_c6: u32 = b_a6 ^ b_b6;
    let b_c7: u32 = b_a7 ^ b_b7;
    let b_o0: u32 = b_b0 ^ b_c7 ^ spec_rotate_rows_and_columns_2_2(b_c0);
    let b_o1: u32 = b_b1 ^ b_c0 ^ b_c7 ^ spec_rotate_rows_and_columns_2_2(b_c1);
    let b_o2: u32 = b_b2 ^ b_c1 ^ spec_rotate_rows_and_columns_2_2(b_c2);
    let b_o3: u32 = b_b3 ^ b_c2 ^ b_c7 ^ spec_rotate_rows_and_columns_2_2(b_c3);
    let b_o4: u32 = b_b4 ^ b_c3 ^ b_c7 ^ spec_rotate_rows_and_columns_2_2(b_c4);
    let b_o5: u32 = b_b5 ^ b_c4 ^ spec_rotate_rows_and_columns_2_2(b_c5);
    let b_o6: u32 = b_b6 ^ b_c5 ^ spec_rotate_rows_and_columns_2_2(b_c6);
    let b_o7: u32 = b_b7 ^ b_c6 ^ spec_rotate_rows_and_columns_2_2(b_c7);
    assert(spec_mix_columns_1(Words { w0: a_o0, w1: a_o1, w2: a_o2, w3: a_o3, w4: a_o4, w5: a_o5, w6: a_o6, w7: a_o7 }) == (Words { w0: b_o0, w1: b_o1, w2: b_o2, w3: b_o3, w4: b_o4, w5: b_o5, w6: b_o6, w7: b_o7 }));
    assert(b_o0 == a_a0 && b_o1 == a_a1 && b_o2 == a_a2 && b_o3 == a_a3 && b_o4 == a_a4 && b_o5 == a_a5 && b_o6 == a_a6 && b_o7 == a_a7) by (bit_vector)
        requires
            b_a0 == a_o0,
            b_a1 == a_o1,
            b_a2 == a_o2,
            b_a3 == a_o3,
            b_a4 == a_o4,
            b_a5 == a_o5,
            b_a6 == a_o6,
            b_a7 == a_o7,
            a_b0 == spec_rotate_rows_and_columns_1_1(a_a0),
            a_b1 == spec_rotate_rows_and_columns_1_1(a_a1),
            a_b2 == spec_rotate_rows_and_columns_1_1(a_a2),
            a_b3 == spec_rotate_rows_and_columns_1_1(a_a3),
            a_b4 == spec_rotate_rows_and_columns_1_1(a_a4),
            a_b5 == spec_rotate_rows_and_columns_1_1(a_a5),
            a_b6 == spec_rotate_rows_and_columns_1_1(a_a6),
            a_b7 == spec_rotate_rows_and_columns_1_1(a_a7),
            a_c0 == a_a0 ^ a_b0,
            a_c1 == a_a1 ^ a_b1,
            a_c2 == a_a2 ^ a_b2,
            a_c3 == a_a3 ^ a_b3,
            a_c4 == a_a4 ^ a_b4,
            a_c5 == a_a5 ^ a_b5,
            a_c6 == a_a6 ^ a_b6,
            a_c7 == a_a7 ^ a_b7,
            a_d0 == a_a0 ^ a_c7,
            a_d1 == a_a1 ^ a_c0 ^ a_c7,
            a_d2 == a_a2 ^ a_c1,
            a_d3 == a_a3 ^ a_c2 ^ a_c7,
            a_d4 == a_a4 ^ a_c3 ^ a_c7,
            a_d5 == a_a5 ^ a_c4,
            a_d6 == a_a6 ^ a_c5,
            a_d7 == a_a7 ^ a_c6,
            a_e0 == a_c0 ^ a_d6,
            a_e1 == a_c1 ^ a_d6 ^ a_d7,
            a_e2 == a_c2 ^ a_d0 ^ a_d7,
            a_e3 == a_c3 ^ a_d1 ^ a_d6,
            a_e4 == a_c4 ^ a_d2 ^ a_d6 ^ a_d7,
            a_e5 == a_c5 ^ a_d3 ^ a_d7,
            a_e6 == a_c6 ^ a_d4,
            a_e7 == a_c7 ^ a_d5,
            a_o0 == a_d0 ^ a_e0 ^ spec_rotate_rows_and_columns_2_2(a_e0),
            a_o1 == a_d1 ^ a_e1 ^ spec_rotate_rows_and_columns_2_2(a_e1),
            a_o2 == a_d2 ^ a_e2 ^ spec_rotate_rows_and_columns_2_2(a_e2),
            a_o3 == a_d3 ^ a_e3 ^ spec_rotate_rows_and_columns_2_2(a_e3),
            a_o4 == a_d4 ^ a_e4 ^ spec_rotate_rows_and_columns_2_2(a_e4),
            a_o5 == a_d5 ^ a_e5 ^ spec_rotate_rows_and_columns_2_2(a_e5),
            a_o6 == a_d6 ^ a_e6 ^ spec_rotate_rows_and_columns_2_2(a_e6),
            a_o7 == a_d7 ^ a_e7 ^ spec_rotate_rows_and_columns_2_2(a_e7),
            b_b0 == spec_rotate_rows_and_columns_1_1(b_a0),
            b_b1 == spec_rotate_rows_and_columns_1_1(b_a1),
            b_b2 == spec_rotate_rows_and_columns_1_1(b_a2),
            b_b3 == spec_rotate_rows_and_columns_1_1(b_a3),
            b_b4 == spec_rotate_rows_and_columns_1_1(b_a4),
            b_b5 == spec_rotate_rows_and_columns_1_1(b_a5),
            b_b6 == spec_rotate_rows_and_columns_1_1(b_a6),
            b_b7 == spec_rotate_rows_and_columns_1_1(b_a7),
            b_c0 == b_a0 ^ b_b0,
            b_c1 == b_a1 ^ b_b1,
            b_c2 == b_a2 ^ b_b2,
            b_c3 == b_a3 ^ b_b3,
            b_c4 == b_a4 ^ b_b4,
            b_c5 == b_a5 ^ b_b5,
            b_c6 == b_a6 ^ b_b6,
            b_c7 == b_a7 ^ b_b7,
            b_o0 == b_b0 ^ b_c7 ^ spec_rotate_rows_and_columns_2_2(b_c0),
            b_o1 == b_b1 ^ b_c0 ^ b_c7 ^ spec_rotate_rows_and_columns_2_2(b_c1),
            b_o2 == b_b2 ^ b_c1 ^ spec_rotate_rows_and_columns_2_2(b_c2),
            b_o3 == b_b3 ^ b_c2 ^ b_c7 ^ spec_rotate_rows_and_columns_2_2(b_c3),
            b_o4 == b_b4 ^ b_c3 ^ b_c7 ^ spec_rotate_rows_and_columns_2_2(b_c4),
            b_o5 == b_b5 ^ b_c4 ^ spec_rotate_rows_and_columns_2_2(b_c5),
            b_o6 == b_b6 ^ b_c5 ^ spec_rotate_rows_and_columns_2_2(b_c6),
            b_o7 == b_b7 ^ b_c6 ^ spec_rotate_rows_and_columns_2_2(b_c7),
    ;
    assert(spec_mix_columns_1(spec_inv_mix_columns_1(s)) == s);
}

pub open spec fn spec_mix_columns_2(s: Words) -> Words {
    let a0: u32 = s.w0;
    let a1: u32 = s.w1;
    let a2: u32 = s.w2;
    let a3: u32 = s.w3;
    let a4: u32 = s.w4;
    let a5: u32 = s.w5;
    let a6: u32 = s.w6;
    let a7: u32 = s.w7;
    let b0: u32 = spec_rotate_rows_and_columns_1_2(a0);
    let b1: u32 = spec_rotate_rows_and_columns_1_2(a1);
    let b2: u32 = spec_rotate_rows_and_columns_1_2(a2);
    let b3: u32 = spec_rotate_rows_and_columns_1_2(a3);
    let b4: u32 = spec_rotate_rows_and_columns_1_2(a4);
    let b5: u32 = spec_rotate_rows_and_columns_1_2(a5);
    let b6: u32 = spec_rotate_rows_and_columns_1_2(a6);
    let b7: u32 = spec_rotate_rows_and_columns_1_2(a7);
    let c0: u32 = a0 ^ b0;
    let c1: u32 = a1 ^ b1;
    let c2: u32 = a2 ^ b2;
    let c3: u32 = a3 ^ b3;
    let c4: u32 = a4 ^ b4;
    let c5: u32 = a5 ^ b5;
    let c6: u32 = a6 ^ b6;
    let c7: u32 = a7 ^ b7;
    let o0: u32 = b0 ^ c7 ^ spec_rotate_rows_2(c0);
    let o1: u32 = b1 ^ c0 ^ c7 ^ spec_rotate_rows_2(c1);
    let o2: u32 = b2 ^ c1 ^ spec_rotate_rows_2(c2);
    let o3: u32 = b3 ^ c2 ^ c7 ^ spec_rotate_rows_2(c3);
    let o4: u32 = b4 ^ c3 ^ c7 ^ spec_rotate_rows_2(c4);
    let o5: u32 = b5 ^ c4 ^ spec_rotate_rows_2(c5);
    let o6: u32 = b6 ^ c5 ^ spec_rotate_rows_2(c6);
    let o7: u32 = b7 ^ c6 ^ spec_rotate_rows_2(c7);
    Words {
        w0: o0,
        w1: o1,
        w2: o2,
        w3: o3,
        w4: o4,
        w5: o5,
        w6: o6,
        w7: o7,
    }
}

/// The MixColumns transformation for rounds whose phase is 2 modulo 4.
pub fn mix_columns_2(s: Words) -> (r: Words)
    ensures
        r == spec_mix_columns_2(s),
{
    let a0: u32 = s.w0;
    let a1: u32 = s.w1;
    let a2: u32 = s.w2;
    let a3: u32 = s.w3;
    let a4: u32 = s.w4;
    let a5: u32 = s.w5;
    let a6: u32 = s.w6;
    let a7: u32 = s.w7;
    let b0: u32 = rotate_rows_and_columns_1_2(a0);
    let b1: u32 = rotate_rows_and_columns_1_2(a1);
    let b2: u32 = rotate_rows_and_columns_1_2(a2);
    let b3: u32 = rotate_rows_and_columns_1_2(a3);
    let b4: u32 = rotate_rows_and_columns_1_2(a4);
    let b5: u32 = rotate_rows_and_columns_1_2(a5);
    let b6: u32 = rotate_rows_and_columns_1_2(a6);
    let b7: u32 = rotate_rows_and_columns_1_2(a7);
    let c0: u32 = a0 ^ b0;
    let c1: u32 = a1 ^ b1;
    let c2: u32 = a2 ^ b2;
    let c3: u32 = a3 ^ b3;
    let c4: u32 = a4 ^ b4;
    let c5: u32 = a5 ^ b5;
    let c6: u32 = a6 ^ b6;
    let c7: u32 = a7 ^ b7;
    let o0: u32 = b0 ^ c7 ^ rotate_rows_2(c0);
    let o1: u32 = b1 ^ c0 ^ c7 ^ rotate_rows_2(c1);
    let o2: u32 = b2 ^ c1 ^ rotate_rows_2(c2);
    let o3: u32 = b3 ^ c2 ^ c7 ^ rotate_rows_2(c3);
    let o4: u32 = b4 ^ c3 ^ c7 ^ rotate_rows_2(c4);
    let o5: u32 = b5 ^ c4 ^ rotate_rows_2(c5);
    let o6: u32 = b6 ^ c5 ^ rotate_rows_2(c6);
    let o7: u32 = b7 ^ c6 ^ rotate_rows_2(c7);
    Words {
        w0: o0,
        w1: o1,
        w2: o2,
        w3: o3,
        w4: o4,
        w5: o5,
        w6: o6,
        w7: o7,
    }
}

pub open spec fn spec_inv_mix_columns_2(s: Words) -> Words {
    let a0: u32 = s.w0;
    let a1: u32 = s.w1;
    let a2: u32 = s.w2;
    let a3: u32 = s.w3;
    let a4: u32 = s.w4;
    let a5: u32 = s.w5;
    let a6: u32 = s.w6;
    let a7: u32 = s.w7;
    let b0: u32 = spec_rotate_rows_and_columns_1_2(a0);
    let b1: u32 = spec_rotate_rows_and_columns_1_2(a1);
    let b2: u32 = spec_rotate_rows_and_columns_1_2(a2);
    let b3: u32 = spec_rotate_rows_and_columns_1_2(a3);
    let b4: u32 = spec_rotate_rows_and_columns_1_2(a4);
    let b5: u32 = spec_rotate_rows_and_columns_1_2(a5);
    let b6: u32 = spec_rotate_rows_and_columns_1_2(a6);
    let b7: u32 = spec_rotate_rows_and_columns_1_2(a7);
    let c0: u32 = a0 ^ b0;
    let c1: u32 = a1 ^ b1;
    let c2: u32 = a2 ^ b2;
    let c3: u32 = a3 ^ b3;
    let c4: u32 = a4 ^ b4;
    let c5: u32 = a5 ^ b5;
    let c6: u32 = a6 ^ b6;
    let c7: u32 = a7 ^ b7;
    let d0: u32 = a0 ^ c7;
    let d1: u32 = a1 ^ c0 ^ c7;
    let d2: u32 = a2 ^ c1;
    let d3: u32 = a3 ^ c2 ^ c7;
    let d4: u32 = a4 ^ c3 ^ c7;
    let d5: u32 = a5 ^ c4;
    let d6: u32 = a6 ^ c5;
    let d7: u32 = a7 ^ c6;
    let e0: u32 = c0 ^ d6;
    let e1: u32 = c1 ^ d6 ^ d7;
    let e2: u32 = c2 ^ d0 ^ d7;
    let e3: u32 = c3 ^ d1 ^ d6;
    let e4: u32 = c4 ^ d2 ^ d6 ^ d7;
    let e5: u32 = c5 ^ d3 ^ d7;
    let e6: u32 = c6 ^ d4;
    let e7: u32 = c7 ^ d5;
    let o0: u32 = d0 ^ e0 ^ spec_rotate_rows_2(e0);
    let o1: u32 = d1 ^ e1 ^ spec_rotate_rows_2(e1);
    let o2: u32 = d2 ^ e2 ^ spec_rotate_rows_2(e2);
    let o3: u32 = d3 ^ e3 ^ spec_rotate_rows_2(e3);
    let o4: u32 = d4 ^ e4 ^ spec_rotate_rows_2(e4);
    let o5: u32 = d5 ^ e5 ^ spec_rotate_rows_2(e5);
    let o6: u32 = d6 ^ e6 ^ spec_rotate_rows_2(e6);
    let o7: u32 = d7 ^ e7 ^ spec_rotate_rows_2(e7);
    Words {
        w0: o0,
        w1: o1,
        w2: o2,
        w3: o3,
        w4: o4,
        w5: o5,
        w6: o6,
        w7: o7,
    }
}

/// The inverse MixColumns transformation matching `mix_columns_2`.
pub fn inv_mix_columns_2(s: Words) -> (r: Words)
    ensures
        r == spec_inv_mix_columns_2(s),
{
    let a0: u32 = s.w0;
    let a1: u32 = s.w1;
    let a2: u32 = s.w2;
    let a3: u32 = s.w3;
    let a4: u32 = s.w4;
    let a5: u32 = s.w5;
    let a6: u32 = s.w6;
    let a7: u32 = s.w7;
    let b0: u32 = rotate_rows_and_columns_1_2(a0);
    let b1: u32 = rotate_rows_and_columns_1_2(a1);
    let b2: u32 = rotate_rows_and_columns_1_2(a2);
    let b3: u32 = rotate_rows_and_columns_1_2(a3);
    let b4: u32 = rotate_rows_and_columns_1_2(a4);
    let b5: u32 = rotate_rows_and_columns_1_2(a5);
    let b6: u32 = rotate_rows_and_columns_1_2(a6);
    let b7: u32 = rotate_rows_and_columns_1_2(a7);
    let c0: u32 = a0 ^ b0;
    let c1: u32 = a1 ^ b1;
    let c2: u32 = a2 ^ b2;
    let c3: u32 = a3 ^ b3;
    let c4: u32 = a4 ^ b4;
    let c5: u32 = a5 ^ b5;
    let c6: u32 = a6 ^ b6;
    let c7: u32 = a7 ^ b7;
    let d0: u32 = a0 ^ c7;
    let d1: u32 = a1 ^ c0 ^ c7;
    let d2: u32 = a2 ^ c1;
    let d3: u32 = a3 ^ c2 ^ c7;
    let d4: u32 = a4 ^ c3 ^ c7;
    let d5: u32 = a5 ^ c4;
    let d6: u32 = a6 ^ c5;
    let d7: u32 = a7 ^ c6;
    let e0: u32 = c0 ^ d6;
    let e1: u32 = c1 ^ d6 ^ d7;
    let e2: u32 = c2 ^ d0 ^ d7;
    let e3: u32 = c3 ^ d1 ^ d6;
    let e4: u32 = c4 ^ d2 ^ d6 ^ d7;
    let e5: u32 = c5 ^ d3 ^ d7;
    let e6: u32 = c6 ^ d4;
    let e7: u32 = c7 ^ d5;
    let o0: u32 = d0 ^ e0 ^ rotate_rows_2(e0);
    let o1: u32 = d1 ^ e1 ^ rotate_rows_2(e1);
    let o2: u32 = d2 ^ e2 ^ rotate_rows_2(e2);
    let o3: u32 = d3 ^ e3 ^ rotate_rows_2(e3);
    let o4: u32 = d4 ^ e4 ^ rotate_rows_2(e4);
    let o5: u32 = d5 ^ e5 ^ rotate_rows_2(e5);
    let o6: u32 = d6 ^ e6 ^ rotate_rows_2(e6);
    let o7: u32 = d7 ^ e7 ^ rotate_rows_2(e7);
    Words {
        w0: o0,
        w1: o1,
        w2: o2,
        w3: o3,
        w4: o4,
        w5: o5,
        w6: o6,
        w7: o7,
    }
}

/// The inverse MixColumns variant undoes the forward one.
#[verifier::rlimit(100)]
proof fn lemma_inv_mix_columns_2_of_mix(s: Words)
    ensures
        spec_inv_mix_columns_2(spec_mix_columns_2(s)) == s,
{
    let a_a0: u32 = s.w0;
    let a_a1: u32 = s.w1;
    let a_a2: u32 = s.w2;
    let a_a3: u32 = s.w3;
    let a_a4: u32 = s.w4;
    let a_a5: u32 = s.w5;
    let a_a6: u32 = s.w6;
    let a_a7: u32 = s.w7;
    let a_b0: u32 = spec_rotate_rows_and_columns_1_2(a_a0);
    let a_b1: u32 = spec_rotate_rows_and_columns_1_2(a_a1);
    let a_b2: u32 = spec_rotate_rows_and_columns_1_2(a_a2);
    let a_b3: u32 = spec_rotate_rows_and_columns_1_2(a_a3);
    let a_b4: u32 = spec_rotate_rows_and_columns_1_2(a_a4);
    let a_b5: u32 = spec_rotate_rows_and_columns_1_2(a_a5);
    let a_b6: u32 = spec_rotate_rows_and_columns_1_2(a_a6);
    let a_b7: u32 = spec_rotate_rows_and_columns_1_2(a_a7);
    let a_c0: u32 = a_a0 ^ a_b0;
    let a_c1: u32 = a_a1 ^ a_b1;
    let a_c2: u32 = a_a2 ^ a_b2;
    let a_c3: u32 = a_a3 ^ a_b3;
    let a_c4: u32 = a_a4 ^ a_b4;
    let a_c5: u32 = a_a5 ^ a_b5;
    let a_c6: u32 = a_a6 ^ a_b6;
    let a_c7: u32 = a_a7 ^ a_b7;
    let a_o0: u32 = a_b0 ^ a_c7 ^ spec_rotate_rows_2(a_c0);
    let a_o1: u32 = a_b1 ^ a_c0 ^ a_c7 ^ spec_rotate_rows_2(a_c1);
    let a_o2: u32 = a_b2 ^ a_c1 ^ spec_rotate_rows_2(a_c2);
    let a_o3: u32 = a_b3 ^ a_c2 ^ a_c7 ^ spec_rotate_rows_2(a_c3);
    let a_o4: u32 = a_b4 ^ a_c3 ^ a_c7 ^ spec_rotate_rows_2(a_c4);
    let a_o5: u32 = a_b5 ^ a_c4 ^ spec_rotate_rows_2(a_c5);
    let a_o6: u32 = a_b6 ^ a_c5 ^ spec_rotate_rows_2(a_c6);
    let a_o7: u32 = a_b7 ^ a_c6 ^ spec_rotate_rows_2(a_c7);
    assert(spec_mix_columns_2(s) == (Words { w0: a_o0, w1: a_o1, w2: a_o2, w3: a_o3, w4: a_o4, w5: a_o5, w6: a_o6, w7: a_o7 }));
    let b_a0: u32 = a_o0;
    let b_a1: u32 = a_o1;
    let b_a2: u32 = a_o2;
    let b_a3: u32 = a_o3;
    let b_a4: u32 = a_o4;
    let b_a5: u32 = a_o5;
    let b_a6: u32 = a_o6;
    let b_a7: u32 = a_o7;
    let b_b0: u32 = spec_rotate_rows_and_columns_1_2(b_a0);
    let b_b1: u32 = spec_rotate_rows_and_columns_1_2(b_a1);
    let b_b2: u32 = spec_rotate_rows_and_columns_1_2(b_a2);
    let b_b3: u32 = spec_rotate_rows_and_columns_1_2(b_a3);
    let b_b4: u32 = spec_rotate_rows_and_columns_1_2(b_a4);
    let b_b5: u32 = spec_rotate_rows_and_columns_1_2(b_a5);
    let b_b6: u32 = spec_rotate_rows_and_columns_1_2(b_a6);
    let b_b7: u32 = spec_rotate_rows_and_columns_1_2(b_a7);
    let b_c0: u32 = b_a0 ^ b_b0;
    let b_c1: u32 = b_a1 ^ b_b1;
    let b_c2: u32 = b_a2 ^ b_b2;
    let b_c3: u32 = b_a3 ^ b_b3;
    let b_c4: u32 = b_a4 ^ b_b4;
    let b_c5: u32 = b_a5 ^ b_b5;
    let b_c6: u32 = b_a6 ^ b_b6;
    let b_c7: u32 = b_a7 ^ b_b7;
    let b_d0: u32 = b_a0 ^ b_c7;
    let b_d1: u32 = b_a1 ^ b_c0 ^ b_c7;
    let b_d2: u32 = b_a2 ^ b_c1;
    let b_d3: u32 = b_a3 ^ b_c2 ^ b_c7;
    let b_d4: u32 = b_a4 ^ b_c3 ^ b_c7;
    let b_d5: u32 = b_a5 ^ b_c4;
    let b_d6: u32 = b_a6 ^ b_c5;
    let b_d7: u32 = b_a7 ^ b_c6;
    let b_e0: u32 = b_c0 ^ b_d6;
    let b_e1: u32 = b_c1 ^ b_d6 ^ b_d7;
    let b_e2: u32 = b_c2 ^ b_d0 ^ b_d7;
    let b_e3: u32 = b_c3 ^ b_d1 ^ b_d6;
    let b_e4: u32 = b_c4 ^ b_d2 ^ b_d6 ^ b_d7;
    let b_e5: u32 = b_c5 ^ b_d3 ^ b_d7;
    let b_e6: u32 = b_c6 ^ b_d4;
    let b_e7: u32 = b_c7 ^ b_d5;
    let b_o0: u32 = b_d0 ^ b_e0 ^ spec_rotate_rows_2(b_e0);
    let b_o1: u32 = b_d1 ^ b_e1 ^ spec_rotate_rows_2(b_e1);
    let b_o2: u32 = b_d2 ^ b_e2 ^ spec_rotate_rows_2(b_e2);
    let b_o3: u32 = b_d3 ^ b_e3 ^ spec_rotate_rows_2(b_e3);
    let b_o4: u32 = b_d4 ^ b_e4 ^ spec_rotate_rows_2(b_e4);
    let b_o5: u32 = b_d5 ^ b_e5 ^ spec_rotate_rows_2(b_e5);
    let b_o6: u32 = b_d6 ^ b_e6 ^ spec_rotate_rows_2(b_e6);
    let b_o7: u32 = b_d7 ^ b_e7 ^ spec_rotate_rows_2(b_e7);
    assert(spec_inv_mix_columns_2(Words { w0: a_o0, w1: a_o1, w2: a_o2, w3: a_o3, w4: a_o4, w5: a_o5, w6: a_o6, w7: a_o7 }) == (Words { w0: b_o0, w1: b_o1, w2: b_o2, w3: b_o3, w4: b_o4, w5: b_o5, w6: b_o6, w7: b_o7 }));
    assert(b_o0 == a_a0 && b_o1 == a_a1 && b_o2 == a_a2 && b_o3 == a_a3 && b_o4 == a_a4 && b_o5 == a_a5 && b_o6 == a_a6 && b_o7 == a_a7) by (bit_vector)
        requires
            b_a0 == a_o0,
            b_a1 == a_o1,
            b_a2 == a_o2,
            b_a3 == a_o3,
            b_a4 == a_o4,
            b_a5 == a_o5,
            b_a6 == a_o6,
            b_a7 == a_o7,
            a_b0 == spec_rotate_rows_and_columns_1_2(a_a0),
            a_b1 == spec_rotate_rows_and_columns_1_2(a_a1),
            a_b2 == spec_rotate_rows_and_columns_1_2(a_a2),
            a_b3 == spec_rotate_rows_and_columns_1_2(a_a3),
            a_b4 == spec_rotate_rows_and_columns_1_2(a_a4),
            a_b5 == spec_rotate_rows_and_columns_1_2(a_a5),
            a_b6 == spec_rotate_rows_and_columns_1_2(a_a6),
            a_b7 == spec_rotate_rows_and_columns_1_2(a_a7),
            a_c0 == a_a0 ^ a_b0,
            a_c1 == a_a1 ^ a_b1,
            a_c2 == a_a2 ^ a_b2,
            a_c3 == a_a3 ^ a_b3,
            a_c4 == a_a4 ^ a_b4,
            a_c5 == a_a5 ^ a_b5,
            a_c6 == a_a6 ^ a_b6,
            a_c7 == a_a7 ^ a_b7,
            a_o0 == a_b0 ^ a_c7 ^ spec_rotate_rows_2(a_c0),
            a_o1 == a_b1 ^ a_c0 ^ a_c7 ^ spec_rotate_rows_2(a_c1),
            a_o2 == a_b2 ^ a_c1 ^ spec_rotate_rows_2(a_c2),
            a_o3 == a_b3 ^ a_c2 ^ a_c7 ^ spec_rotate_rows_2(a_c3),
            a_o4 == a_b4 ^ a_c3 ^ a_c7 ^ spec_rotate_rows_2(a_c4),
            a_o5 == a_b5 ^ a_c4 ^ spec_rotate_rows_2(a_c5),
            a_o6 == a_b6 ^ a_c5 ^ spec_rotate_rows_2(a_c6),
            a_o7 == a_b7 ^ a_c6 ^ spec_rotate_rows_2(a_c7),
            b_b0 == spec_rotate_rows_and_columns_1_2(b_a0),
            b_b1 == spec_rotate_rows_and_columns_1_2(b_a1),
            b_b2 == spec_rotate_rows_and_columns_1_2(b_a2),
            b_b3 == spec_rotate_rows_and_columns_1_2(b_a3),
            b_b4 == spec_rotate_rows_and_columns_1_2(b_a4),
            b_b5 == spec_rotate_rows_and_columns_1_2(b_a5),
            b_b6 == spec_rotate_rows_and_columns_1_2(b_a6),
            b_b7 == spec_rotate_rows_and_columns_1_2(b_a7),
            b_c0 == b_a0 ^ b_b0,
            b_c1 == b_a1 ^ b_b1,
            b_c2 == b_a2 ^ b_b2,
            b_c3 == b_a3 ^ b_b3,
            b_c4 == b_a4 ^ b_b4,
            b_c5 == b_a5 ^ b_b5,
            b_c6 == b_a6 ^ b_b6,
            b_c7 == b_a7 ^ b_b7,
            b_d0 == b_a0 ^ b_c7,
            b_d1 == b_a1 ^ b_c0 ^ b_c7,
            b_d2 == b_a2 ^ b_c1,
            b_d3 == b_a3 ^ b_c2 ^ b_c7,
            b_d4 == b_a4 ^ b_c3 ^ b_c7,
            b_d5 == b_a5 ^ b_c4,
            b_d6 == b_a6 ^ b_c5,
            b_d7 == b_a7 ^ b_c6,
            b_e0 == b_c0 ^ b_d6,
            b_e1 == b_c1 ^ b_d6 ^ b_d7,
            b_e2 == b_c2 ^ b_d0 ^ b_d7,
            b_e3 == b_c3 ^ b_d1 ^ b_d6,
            b_e4 == b_c4 ^ b_d2 ^ b_d6 ^ b_d7,
            b_e5 == b_c5 ^ b_d3 ^ b_d7,
            b_e6 == b_c6 ^ b_d4,
            b_e7 == b_c7 ^ b_d5,
            b_o0 == b_d0 ^ b_e0 ^ spec_rotate_rows_2(b_e0),
            b_o1 == b_d1 ^ b_e1 ^ spec_rotate_rows_2(b_e1),
            b_o2 == b_d2 ^ b_e2 ^ spec_rotate_rows_2(b_e2),
            b_o3 == b_d3 ^ b_e3 ^ spec_rotate_rows_2(b_e3),
            b_o4 == b_d4 ^ b_e4 ^ spec_rotate_rows_2(b_e4),
            b_o5 == b_d5 ^ b_e5 ^ spec_rotate_rows_2(b_e5),
            b_o6 == b_d6 ^ b_e6 ^ spec_rotate_rows_2(b_e6),
            b_o7 == b_d7 ^ b_e7 ^ spec_rotate_rows_2(b_e7),
    ;
    assert(spec_inv_mix_columns_2(spec_mix_columns_2(s)) == s);
}

/// The forward MixColumns variant undoes the inverse one.
#[verifier::rlimit(100)]
proof fn lemma_mix_columns_2_of_inv(s: Words)
    ensures
        spec_mix_columns_2(spec_inv_mix_columns_2(s)) == s,
{
    let a_a0: u32 = s.w0;
    let a_a1: u32 = s.w1;
    let a_a2: u32 = s.w2;
    let a_a3: u32 = s.w3;
    let a_a4: u32 = s.w4;
    let a_a5: u32 = s.w5;
    let a_a6: u32 = s.w6;
    let a_a7: u32 = s.w7;
    let a_b0: u32 = spec_rotate_rows_and_columns_1_2(a_a0);
    let a_b1: u32 = spec_rotate_rows_and_columns_1_2(a_a1);
    let a_b2: u32 = spec_rotate_rows_and_columns_1_2(a_a2);
    let a_b3: u32 = spec_rotate_rows_and_columns_1_2(a_a3);
    let a_b4: u32 = spec_rotate_rows_and_columns_1_2(a_a4);
    let a_b5: u32 = spec_rotate_rows_and_columns_1_2(a_a5);
    let a_b6: u32 = spec_rotate_rows_and_columns_1_2(a_a6);
    let a_b7: u32 = spec_rotate_rows_and_columns_1_2(a_a7);
    let a_c0: u32 = a_a0 ^ a_b0;
    let a_c1: u32 = a_a1 ^ a_b1;
    let a_c2: u32 = a_a2 ^ a_b2;
    let a_c3: u32 = a_a3 ^ a_b3;
    let a_c4: u32 = a_a4 ^ a_b4;
    let a_c5: u32 = a_a5 ^ a_b5;
    let a_c6: u32 = a_a6 ^ a_b6;
    let a_c7: u32 = a_a7 ^ a_b7;
    let a_d0: u32 = a_a0 ^ a_c7;
    let a_d1: u32 = a_a1 ^ a_c0 ^ a_c7;
    let a_d2: u32 = a_a2 ^ a_c1;
    let a_d3: u32 = a_a3 ^ a_c2 ^ a_c7;
    let a_d4: u32 = a_a4 ^ a_c3 ^ a_c7;
    let a_d5: u32 = a_a5 ^ a_c4;
    let a_d6: u32 = a_a6 ^ a_c5;
    let a_d7: u32 = a_a7 ^ a_c6;
    let a_e0: u32 = a_c0 ^ a_d6;
    let a_e1: u32 = a_c1 ^ a_d6 ^ a_d7;
    let a_e2: u32 = a_c2 ^ a_d0 ^ a_d7;
    let a_e3: u32 = a_c3 ^ a_d1 ^ a_d6;
    let a_e4: u32 = a_c4 ^ a_d2 ^ a_d6 ^ a_d7;
    let a_e5: u32 = a_c5 ^ a_d3 ^ a_d7;
    let a_e6: u32 = a_c6 ^ a_d4;
    let a_e7: u32 = a_c7 ^ a_d5;
    let a_o0: u32 = a_d0 ^ a_e0 ^ spec_rotate_rows_2(a_e0);
    let a_o1: u32 = a_d1 ^ a_e1 ^ spec_rotate_rows_2(a_e1);
    let a_o2: u32 = a_d2 ^ a_e2 ^ spec_rotate_rows_2(a_e2);
    let a_o3: u32 = a_d3 ^ a_e3 ^ spec_rotate_rows_2(a_e3);
    let a_o4: u32 = a_d4 ^ a_e4 ^ spec_rotate_rows_2(a_e4);
    let a_o5: u32 = a_d5 ^ a_e5 ^ spec_rotate_rows_2(a_e5);
    let a_o6: u32 = a_d6 ^ a_e6 ^ spec_rotate_rows_2(a_e6);
    let a_o7: u32 = a_d7 ^ a_e7 ^ spec_rotate_rows_2(a_e7);
    assert(spec_inv_mix_columns_2(s) == (Words { w0: a_o0, w1: a_o1, w2: a_o2, w3: a_o3, w4: a_o4, w5: a_o5, w6: a_o6, w7: a_o7 }));
    let b_a0: u32 = a_o0;
    let b_a1: u32 = a_o1;
    let b_a2: u32 = a_o2;
    let b_a3: u32 = a_o3;
    let b_a4: u32 = a_o4;
    let b_a5: u32 = a_o5;
    let b_a6: u32 = a_o6;
    let b_a7: u32 = a_o7;
    let b_b0: u32 = spec_rotate_rows_and_columns_1_2(b_a0);
    let b_b1: u32 = spec_rotate_rows_and_columns_1_2(b_a1);
    let b_b2: u32 = spec_rotate_rows_and_columns_1_2(b_a2);
    let b_b3: u32 = spec_rotate_rows_and_columns_1_2(b_a3);
    let b_b4: u32 = spec_rotate_rows_and_columns_1_2(b_a4);
    let b_b5: u32 = spec_rotate_rows_and_columns_1_2(b_a5);
    let b_b6: u32 = spec_rotate_rows_and_columns_1_2(b_a6);
    let b_b7: u32 = spec_rotate_rows_and_columns_1_2(b_a7);
    let b_c0: u32 = b_a0 ^ b_b0;
    let b_c1: u32 = b_a1 ^ b_b1;
    let b_c2: u32 = b_a2 ^ b_b2;
    let b_c3: u32 = b_a3 ^ b_b3;
    let b_c4: u32 = b_a4 ^ b_b4;
    let b_c5: u32 = b_a5 ^ b_b5;
    let b_c6: u32 = b_a6 ^ b_b6;
    let b_c7: u32 = b_a7 ^ b_b7;
    let b_o0: u32 = b_b0 ^ b_c7 ^ spec_rotate_rows_2(b_c0);
    let b_o1: u32 = b_b1 ^ b_c0 ^ b_c7 ^ spec_rotate_rows_2(b_c1);
    let b_o2: u32 = b_b2 ^ b_c1 ^ spec_rotate_rows_2(b_c2);
    let b_o3: u32 = b_b3 ^ b_c2 ^ b_c7 ^ spec_rotate_rows_2(b_c3);
    let b_o4: u32 = b_b4 ^ b_c3 ^ b_c7 ^ spec_rotate_rows_2(b_c4);
    let b_o5: u32 = b_b5 ^ b_c4 ^ spec_rotate_rows_2(b_c5);
    let b_o6: u32 = b_b6 ^ b_c5 ^ spec_rotate_rows_2(b_c6);
    let b_o7: u32 = b_b7 ^ b_c6 ^ spec_rotate_rows_2(b_c7);
    assert(spec_mix_columns_2(Words { w0: a_o0, w1: a_o1, w2: a_o2, w3: a_o3, w4: a_o4, w5: a_o5, w6: a_o6, w7: a_o7 }) == (Words { w0: b_o0, w1: b_o1, w2: b_o2, w3: b_o3, w4: b_o4, w5: b_o5, w6: b_o6, w7: b_o7 }));
    assert(b_o0 == a_a0 && b_o1 == a_a1 && b_o2 == a_a2 && b_o3 == a_a3 && b_o4 == a_a4 && b_o5 == a_a5 && b_o6 == a_a6 && b_o7 == a_a7) by (bit_vector)
        requires
            b_a0 == a_o0,
            b_a1 == a_o1,
            b_a2 == a_o2,
            b_a3 == a_o3,
            b_a4 == a_o4,
            b_a5 == a_o5,
            b_a6 == a_o6,
            b_a7 == a_o7,
            a_b0 == spec_rotate_rows_and_columns_1_2(a_a0),
            a_b1 == spec_rotate_rows_and_columns_1_2(a_a1),
            a_b2 == spec_rotate_rows_and_columns_1_2(a_a2),
            a_b3 == spec_rotate_rows_and_columns_1_2(a_a3),
            a_b4 == spec_rotate_rows_and_columns_1_2(a_a4),
            a_b5 == spec_rotate_rows_and_columns_1_2(a_a5),
            a_b6 == spec_rotate_rows_and_columns_1_2(a_a6),
            a_b7 == spec_rotate_rows_and_columns_1_2(a_a7),
            a_c0 == a_a0 ^ a_b0,
            a_c1 == a_a1 ^ a_b1,
            a_c2 == a_a2 ^ a_b2,
            a_c3 == a_a3 ^ a_b3,
            a_c4 == a_a4 ^ a_b4,
            a_c5 == a_a5 ^ a_b5,
            a_c6 == a_a6 ^ a_b6,
            a_c7 == a_a7 ^ a_b7,
            a_d0 == a_a0 ^ a_c7,
            a_d1 == a_a1 ^ a_c0 ^ a_c7,
            a_d2 == a_a2 ^ a_c1,
            a_d3 == a_a3 ^ a_c2 ^ a_c7,
            a_d4 == a_a4 ^ a_c3 ^ a_c7,
            a_d5 == a_a5 ^ a_c4,
            a_d6 == a_a6 ^ a_c5,
            a_d7 == a_a7 ^ a_c6,
            a_e0 == a_c0 ^ a_d6,
            a_e1 == a_c1 ^ a_d6 ^ a_d7,
            a_e2 == a_c2 ^ a_d0 ^ a_d7,
            a_e3 == a_c3 ^ a_d1 ^ a_d6,
            a_e4 == a_c4 ^ a_d2 ^ a_d6 ^ a_d7,
            a_e5 == a_c5 ^ a_d3 ^ a_d7,
            a_e6 == a_c6 ^ a_d4,
            a_e7 == a_c7 ^ a_d5,
            a_o0 == a_d0 ^ a_e0 ^ spec_rotate_rows_2(a_e0),
            a_o1 == a_d1 ^ a_e1 ^ spec_rotate_rows_2(a_e1),
            a_o2 == a_d2 ^ a_e2 ^ spec_rotate_rows_2(a_e2),
            a_o3 == a_d3 ^ a_e3 ^ spec_rotate_rows_2(a_e3),
            a_o4 == a_d4 ^ a_e4 ^ spec_rotate_rows_2(a_e4),
            a_o5 == a_d5 ^ a_e5 ^ spec_rotate_rows_2(a_e5),
            a_o6 == a_d6 ^ a_e6 ^ spec_rotate_rows_2(a_e6),
            a_o7 == a_d7 ^ a_e7 ^ spec_rotate_rows_2(a_e7),
            b_b0 == spec_rotate_rows_and_columns_1_2(b_a0),
            b_b1 == spec_rotate_rows_and_columns_1_2(b_a1),
            b_b2 == spec_rotate_rows_and_columns_1_2(b_a2),
            b_b3 == spec_rotate_rows_and_columns_1_2(b_a3),
            b_b4 == spec_rotate_rows_and_columns_1_2(b_a4),
            b_b5 == spec_rotate_rows_and_columns_1_2(b_a5),
            b_b6 == spec_rotate_rows_and_columns_1_2(b_a6),
            b_b7 == spec_rotate_rows_and_columns_1_2(b_a7),
            b_c0 == b_a0 ^ b_b0,
            b_c1 == b_a1 ^ b_b1,
            b_c2 == b_a2 ^ b_b2,
            b_c3 == b_a3 ^ b_b3,
            b_c4 == b_a4 ^ b_b4,
            b_c5 == b_a5 ^ b_b5,
            b_c6 == b_a6 ^ b_b6,
            b_c7 == b_a7 ^ b_b7,
            b_o0 == b_b0 ^ b_c7 ^ spec_rotate_rows_2(b_c0),
            b_o1 == b_b1 ^ b_c0 ^ b_c7 ^ spec_rotate_rows_2(b_c1),
            b_o2 == b_b2 ^ b_c1 ^ spec_rotate_rows_2(b_c2),
            b_o3 == b_b3 ^ b_c2 ^ b_c7 ^ spec_rotate_rows_2(b_c3),
            b_o4 == b_b4 ^ b_c3 ^ b_c7 ^ spec_rotate_rows_2(b_c4),
            b_o5 == b_b5 ^ b_c4 ^ spec_rotate_rows_2(b_c5),
            b_o6 == b_b6 ^ b_c5 ^ spec_rotate_rows_2(b_c6),
            b_o7 == b_b7 ^ b_c6 ^ spec_rotate_rows_2(b_c7),
    ;
    assert(spec_mix_columns_2(spec_inv_mix_columns_2(s)) == s);
}

pub open spec fn spec_mix_columns_3(s: Words) -> Words {
    let a0: u32 = s.w0;
    let a1: u32 = s.w1;
    let a2: u32 = s.w2;
    let a3: u32 = s.w3;
    let a4: u32 = s.w4;
    let a5: u32 = s.w5;
    let a6: u32 = s.w6;
    let a7: u32 = s.w7;
    let b0: u32 = spec_rotate_rows_and_columns_1_3(a0);
    let b1: u32 = spec_rotate_rows_and_columns_1_3(a1);
    let b2: u32 = spec_rotate_rows_and_columns_1_3(a2);
    let b3: u32 = spec_rotate_rows_and_columns_1_3(a3);
    let b4: u32 = spec_rotate_rows_and_columns_1_3(a4);
    let b5: u32 = spec_rotate_rows_and_columns_1_3(a5);
    let b6: u32 = spec_rotate_rows_and_columns_1_3(a6);
    let b7: u32 = spec_rotate_rows_and_columns_1_3(a7);
    let c0: u32 = a0 ^ b0;
    let c1: u32 = a1 ^ b1;
    let c2: u32 = a2 ^ b2;
    let c3: u32 = a3 ^ b3;
    let c4: u32 = a4 ^ b4;
    let c5: u32 = a5 ^ b5;
    let c6: u32 = a6 ^ b6;
    let c7: u32 = a7 ^ b7;
    let o0: u32 = b0 ^ c7 ^ spec_rotate_rows_and_columns_2_2(c0);
    let o1: u32 = b1 ^ c0 ^ c7 ^ spec_rotate_rows_and_columns_2_2(c1);
    let o2: u32 = b2 ^ c1 ^ spec_rotate_rows_and_columns_2_2(c2);
    let o3: u32 = b3 ^ c2 ^ c7 ^ spec_rotate_rows_and_columns_2_2(c3);
    let o4: u32 = b4 ^ c3 ^ c7 ^ spec_rotate_rows_and_columns_2_2(c4);
    let o5: u32 = b5 ^ c4 ^ spec_rotate_rows_and_columns_2_2(c5);
    let o6: u32 = b6 ^ c5 ^ spec_rotate_rows_and_columns_2_2(c6);
    let o7: u32 = b7 ^ c6 ^ spec_rotate_rows_and_columns_2_2(c7);
    Words {
        w0: o0,
        w1: o1,
        w2: o2,
        w3: o3,
        w4: o4,
        w5: o5,
        w6: o6,
        w7: o7,
    }
}

/// The MixColumns transformation for rounds whose phase is 3 modulo 4.
pub fn mix_columns_3(s: Words) -> (r: Words)
    ensures
        r == spec_mix_columns_3(s),
{
    let a0: u32 = s.w0;
    let a1: u32 = s.w1;
    let a2: u32 = s.w2;
    let a3: u32 = s.w3;
    let a4: u32 = s.w4;
    let a5: u32 = s.w5;
    let a6: u32 = s.w6;
    let a7: u32 = s.w7;
    let b0: u32 = rotate_rows_and_columns_1_3(a0);
    let b1: u32 = rotate_rows_and_columns_1_3(a1);
    let b2: u32 = rotate_rows_and_columns_1_3(a2);
    let b3: u32 = rotate_rows_and_columns_1_3(a3);
    let b4: u32 = rotate_rows_and_columns_1_3(a4);
    let b5: u32 = rotate_rows_and_columns_1_3(a5);
    let b6: u32 = rotate_rows_and_columns_1_3(a6);
    let b7: u32 = rotate_rows_and_columns_1_3(a7);
    let c0: u32 = a0 ^ b0;
    let c1: u32 = a1 ^ b1;
    let c2: u32 = a2 ^ b2;
    let c3: u32 = a3 ^ b3;
    let c4: u32 = a4 ^ b4;
    let c5: u32 = a5 ^ b5;
    let c6: u32 = a6 ^ b6;
    let c7: u32 = a7 ^ b7;
    let o0: u32 = b0 ^ c7 ^ rotate_rows_and_columns_2_2(c0);
    let o1: u32 = b1 ^ c0 ^ c7 ^ rotate_rows_and_columns_2_2(c1);
    let o2: u32 = b2 ^ c1 ^ rotate_rows_and_columns_2_2(c2);
    let o3: u32 = b3 ^ c2 ^ c7 ^ rotate_rows_and_columns_2_2(c3);
    let o4: u32 = b4 ^ c3 ^ c7 ^ rotate_rows_and_columns_2_2(c4);
    let o5: u32 = b5 ^ c4 ^ rotate_rows_and_columns_2_2(c5);
    let o6: u32 = b6 ^ c5 ^ rotate_rows_and_columns_2_2(c6);
    let o7: u32 = b7 ^ c6 ^ rotate_rows_and_columns_2_2(c7);
    Words {
        w0: o0,
        w1: o1,
        w2: o2,
        w3: o3,
        w4: o4,
        w5: o5,
        w6: o6,
        w7: o7,
    }
}

pub open spec fn spec_inv_mix_columns_3(s: Words) -> Words {
    let a0: u32 = s.w0;
    let a1: u32 = s.w1;
    let a2: u32 = s.w2;
    let a3: u32 = s.w3;
    let a4: u32 = s.w4;
    let a5: u32 = s.w5;
    let a6: u32 = s.w6;
    let a7: u32 = s.w7;
    let b0: u32 = spec_rotate_rows_and_columns_1_3(a0);
    let b1: u32 = spec_rotate_rows_and_columns_1_3(a1);
    let b2: u32 = spec_rotate_rows_and_columns_1_3(a2);
    let b3: u32 = spec_rotate_rows_and_columns_1_3(a3);
    let b4: u32 = spec_rotate_rows_and_columns_1_3(a4);
    let b5: u32 = spec_rotate_rows_and_columns_1_3(a5);
    let b6: u32 = spec_rotate_rows_and_columns_1_3(a6);
    let b7: u32 = spec_rotate_rows_and_columns_1_3(a7);
    let c0: u32 = a0 ^ b0;
    let c1: u32 = a1 ^ b1;
    let c2: u32 = a2 ^ b2;
    let c3: u32 = a3 ^ b3;
    let c4: u32 = a4 ^ b4;
    let c5: u32 = a5 ^ b5;
    let c6: u32 = a6 ^ b6;
    let c7: u32 = a7 ^ b7;
    let d0: u32 = a0 ^ c7;
    let d1: u32 = a1 ^ c0 ^ c7;
    let d2: u32 = a2 ^ c1;
    let d3: u32 = a3 ^ c2 ^ c7;
    let d4: u32 = a4 ^ c3 ^ c7;
    let d5: u32 = a5 ^ c4;
    let d6: u32 = a6 ^ c5;
    let d7: u32 = a7 ^ c6;
    let e0: u32 = c0 ^ d6;
    let e1: u32 = c1 ^ d6 ^ d7;
    let e2: u32 = c2 ^ d0 ^ d7;
    let e3: u32 = c3 ^ d1 ^ d6;
    let e4: u32 = c4 ^ d2 ^ d6 ^ d7;
    let e5: u32 = c5 ^ d3 ^ d7;
    let e6: u32 = c6 ^ d4;
    let e7: u32 = c7 ^ d5;
    let o0: u32 = d0 ^ e0 ^ spec_rotate_rows_and_columns_2_2(e0);
    let o1: u32 = d1 ^ e1 ^ spec_rotate_rows_and_columns_2_2(e1);
    let o2: u32 = d2 ^ e2 ^ spec_rotate_rows_and_columns_2_2(e2);
    let o3: u32 = d3 ^ e3 ^ spec_rotate_rows_and_columns_2_2(e3);
    let o4: u32 = d4 ^ e4 ^ spec_rotate_rows_and_columns_2_2(e4);
    let o5: u32 = d5 ^ e5 ^ spec_rotate_rows_and_columns_2_2(e5);
    let o6: u32 = d6 ^ e6 ^ spec_rotate_rows_and_columns_2_2(e6);
    let o7: u32 = d7 ^ e7 ^ spec_rotate_rows_and_columns_2_2(e7);
    Words {
        w0: o0,
        w1: o1,
        w2: o2,
        w3: o3,
        w4: o4,
        w5: o5,
        w6: o6,
        w7: o7,
    }
}

/// The inverse MixColumns transformation matching `mix_columns_3`.
pub fn inv_mix_columns_3(s: Words) -> (r: Words)
    ensures
        r == spec_inv_mix_columns_3(s),
{
    let a0: u32 = s.w0;
    let a1: u32 = s.w1;
    let a2: u32 = s.w2;
    let a3: u32 = s.w3;
    let a4: u32 = s.w4;
    let a5: u32 = s.w5;
    let a6: u32 = s.w6;
    let a7: u32 = s.w7;
    let b0: u32 = rotate_rows_and_columns_1_3(a0);
    let b1: u32 = rotate_rows_and_columns_1_3(a1);
    let b2: u32 = rotate_rows_and_columns_1_3(a2);
    let b3: u32 = rotate_rows_and_columns_1_3(a3);
    let b4: u32 = rotate_rows_and_columns_1_3(a4);
    let b5: u32 = rotate_rows_and_columns_1_3(a5);
    let b6: u32 = rotate_rows_and_columns_1_3(a6);
    let b7: u32 = rotate_rows_and_columns_1_3(a7);
    let c0: u32 = a0 ^ b0;
    let c1: u32 = a1 ^ b1;
    let c2: u32 = a2 ^ b2;
    let c3: u32 = a3 ^ b3;
    let c4: u32 = a4 ^ b4;
    let c5: u32 = a5 ^ b5;
    let c6: u32 = a6 ^ b6;
    let c7: u32 = a7 ^ b7;
    let d0: u32 = a0 ^ c7;
    let d1: u32 = a1 ^ c0 ^ c7;
    let d2: u32 = a2 ^ c1;
    let d3: u32 = a3 ^ c2 ^ c7;
    let d4: u32 = a4 ^ c3 ^ c7;
    let d5: u32 = a5 ^ c4;
    let d6: u32 = a6 ^ c5;
    let d7: u32 = a7 ^ c6;
    let e0: u32 = c0 ^ d6;
    let e1: u32 = c1 ^ d6 ^ d7;
    let e2: u32 = c2 ^ d0 ^ d7;
    let e3: u32 = c3 ^ d1 ^ d6;
    let e4: u32 = c4 ^ d2 ^ d6 ^ d7;
    let e5: u32 = c5 ^ d3 ^ d7;
    let e6: u32 = c6 ^ d4;
    let e7: u32 = c7 ^ d5;
    let o0: u32 = d0 ^ e0 ^ rotate_rows_and_columns_2_2(e0);
    let o1: u32 = d1 ^ e1 ^ rotate_rows_and_columns_2_2(e1);
    let o2: u32 = d2 ^ e2 ^ rotate_rows_and_columns_2_2(e2);
    let o3: u32 = d3 ^ e3 ^ rotate_rows_and_columns_2_2(e3);
    let o4: u32 = d4 ^ e4 ^ rotate_rows_and_columns_2_2(e4);
    let o5: u32 = d5 ^ e5 ^ rotate_rows_and_columns_2_2(e5);
    let o6: u32 = d6 ^ e6 ^ rotate_rows_and_columns_2_2(e6);
    let o7: u32 = d7 ^ e7 ^ rotate_rows_and_columns_2_2(e7);
    Words {
        w0: o0,
        w1: o1,
        w2: o2,
        w3: o3,
        w4: o4,
        w5: o5,
        w6: o6,
        w7: o7,
    }
}

/// The inverse MixColumns variant undoes the forward one.
#[verifier::rlimit(100)]
proof fn lemma_inv_mix_columns_3_of_mix(s: Words)
    ensures
        spec_inv_mix_columns_3(spec_mix_columns_3(s)) == s,
{
    let a_a0: u32 = s.w0;
    let a_a1: u32 = s.w1;
    let a_a2: u32 = s.w2;
    let a_a3: u32 = s.w3;
    let a_a4: u32 = s.w4;
    let a_a5: u32 = s.w5;
    let a_a6: u32 = s.w6;
    let a_a7: u32 = s.w7;
    let a_b0: u32 = spec_rotate_rows_and_columns_1_3(a_a0);
    let a_b1: u32 = spec_rotate_rows_and_columns_1_3(a_a1);
    let a_b2: u32 = spec_rotate_rows_and_columns_1_3(a_a2);
    let a_b3: u32 = spec_rotate_rows_and_columns_1_3(a_a3);
    let a_b4: u32 = spec_rotate_rows_and_columns_1_3(a_a4);
    let a_b5: u32 = spec_rotate_rows_and_columns_1_3(a_a5);
    let a_b6: u32 = spec_rotate_rows_and_columns_1_3(a_a6);
    let a_b7: u32 = spec_rotate_rows_and_columns_1_3(a_a7);
    let a_c0: u32 = a_a0 ^ a_b0;
    let a_c1: u32 = a_a1 ^ a_b1;
    let a_c2: u32 = a_a2 ^ a_b2;
    let a_c3: u32 = a_a3 ^ a_b3;
    let a_c4: u32 = a_a4 ^ a_b4;
    let a_c5: u32 = a_a5 ^ a_b5;
    let a_c6: u32 = a_a6 ^ a_b6;
    let a_c7: u32 = a_a7 ^ a_b7;
    let a_o0: u32 = a_b0 ^ a_c7 ^ spec_rotate_rows_and_columns_2_2(a_c0);
    let a_o1: u32 = a_b1 ^ a_c0 ^ a_c7 ^ spec_rotate_rows_and_columns_2_2(a_c1);
    let a_o2: u32 = a_b2 ^ a_c1 ^ spec_rotate_rows_and_columns_2_2(a_c2);
    let a_o3: u32 = a_b3 ^ a_c2 ^ a_c7 ^ spec_rotate_rows_and_columns_2_2(a_c3);
    let a_o4: u32 = a_b4 ^ a_c3 ^ a_c7 ^ spec_rotate_rows_and_columns_2_2(a_c4);
    let a_o5: u32 = a_b5 ^ a_c4 ^ spec_rotate_rows_and_columns_2_2(a_c5);
    let a_o6: u32 = a_b6 ^ a_c5 ^ spec_rotate_rows_and_columns_2_2(a_c6);
    let a_o7: u32 = a_b7 ^ a_c6 ^ spec_rotate_rows_and_columns_2_2(a_c7);
    assert(spec_mix_columns_3(s) == (Words { w0: a_o0, w1: a_o1, w2: a_o2, w3: a_o3, w4: a_o4, w5: a_o5, w6: a_o6, w7: a_o7 }));
    let b_a0: u32 = a_o0;
    let b_a1: u32 = a_o1;
    let b_a2: u32 = a_o2;
    let b_a3: u32 = a_o3;
    let b_a4: u32 = a_o4;
    let b_a5: u32 = a_o5;
    let b_a6: u32 = a_o6;
    let b_a7: u32 = a_o7;
    let b_b0: u32 = spec_rotate_rows_and_columns_1_3(b_a0);
    let b_b1: u32 = spec_rotate_rows_and_columns_1_3(b_a1);
    let b_b2: u32 = spec_rotate_rows_and_columns_1_3(b_a2);
    let b_b3: u32 = spec_rotate_rows_and_columns_1_3(b_a3);
    let b_b4: u32 = spec_rotate_rows_and_columns_1_3(b_a4);
    let b_b5: u32 = spec_rotate_rows_and_columns_1_3(b_a5);
    let b_b6: u32 = spec_rotate_rows_and_columns_1_3(b_a6);
    let b_b7: u32 = spec_rotate_rows_and_columns_1_3(b_a7);
    let b_c0: u32 = b_a0 ^ b_b0;
    let b_c1: u32 = b_a1 ^ b_b1;
    let b_c2: u32 = b_a2 ^ b_b2;
    let b_c3: u32 = b_a3 ^ b_b3;
    let b_c4: u32 = b_a4 ^ b_b4;
    let b_c5: u32 = b_a5 ^ b_b5;
    let b_c6: u32 = b_a6 ^ b_b6;
    let b_c7: u32 = b_a7 ^ b_b7;
    let b_d0: u32 = b_a0 ^ b_c7;
    let b_d1: u32 = b_a1 ^ b_c0 ^ b_c7;
    let b_d2: u32 = b_a2 ^ b_c1;
    let b_d3: u32 = b_a3 ^ b_c2 ^ b_c7;
    let b_d4: u32 = b_a4 ^ b_c3 ^ b_c7;
    let b_d5: u32 = b_a5 ^ b_c4;
    let b_d6: u32 = b_a6 ^ b_c5;
    let b_d7: u32 = b_a7 ^ b_c6;
    let b_e0: u32 = b_c0 ^ b_d6;
    let b_e1: u32 = b_c1 ^ b_d6 ^ b_d7;
    let b_e2: u32 = b_c2 ^ b_d0 ^ b_d7;
    let b_e3: u32 = b_c3 ^ b_d1 ^ b_d6;
    let b_e4: u32 = b_c4 ^ b_d2 ^ b_d6 ^ b_d7;
    let b_e5: u32 = b_c5 ^ b_d3 ^ b_d7;
    let b_e6: u32 = b_c6 ^ b_d4;
    let b_e7: u32 = b_c7 ^ b_d5;
    let b_o0: u32 = b_d0 ^ b_e0 ^ spec_rotate_rows_and_columns_2_2(b_e0);
    let b_o1: u32 = b_d1 ^ b_e1 ^ spec_rotate_rows_and_columns_2_2(b_e1);
    let b_o2: u32 = b_d2 ^ b_e2 ^ spec_rotate_rows_and_columns_2_2(b_e2);
    let b_o3: u32 = b_d3 ^ b_e3 ^ spec_rotate_rows_and_columns_2_2(b_e3);
    let b_o4: u32 = b_d4 ^ b_e4 ^ spec_rotate_rows_and_columns_2_2(b_e4);
    let b_o5: u32 = b_d5 ^ b_e5 ^ spec_rotate_rows_and_columns_2_2(b_e5);
    let b_o6: u32 = b_d6 ^ b_e6 ^ spec_rotate_rows_and_columns_2_2(b_e6);
    let b_o7: u32 = b_d7 ^ b_e7 ^ spec_rotate_rows_and_columns_2_2(b_e7);
    assert(spec_inv_mix_columns_3(Words { w0: a_o0, w1: a_o1, w2: a_o2, w3: a_o3, w4: a_o4, w5: a_o5, w6: a_o6, w7: a_o7 }) == (Words { w0: b_o0, w1: b_o1, w2: b_o2, w3: b_o3, w4: b_o4, w5: b_o5, w6: b_o6, w7: b_o7 }));
    assert(b_o0 == a_a0 && b_o1 == a_a1 && b_o2 == a_a2 && b_o3 == a_a3 && b_o4 == a_a4 && b_o5 == a_a5 && b_o6 == a_a6 && b_o7 == a_a7) by (bit_vector)
        requires
            b_a0 == a_o0,
            b_a1 == a_o1,
            b_a2 == a_o2,
            b_a3 == a_o3,
            b_a4 == a_o4,
            b_a5 == a_o5,
            b_a6 == a_o6,
            b_a7 == a_o7,
            a_b0 == spec_rotate_rows_and_columns_1_3(a_a0),
            a_b1 == spec_rotate_rows_and_columns_1_3(a_a1),
            a_b2 == spec_rotate_rows_and_columns_1_3(a_a2),
            a_b3 == spec_rotate_rows_and_columns_1_3(a_a3),
            a_b4 == spec_rotate_rows_and_columns_1_3(a_a4),
            a_b5 == spec_rotate_rows_and_columns_1_3(a_a5),
            a_b6 == spec_rotate_rows_and_columns_1_3(a_a6),
            a_b7 == spec_rotate_rows_and_columns_1_3(a_a7),
            a_c0 == a_a0 ^ a_b0,
            a_c1 == a_a1 ^ a_b1,
            a_c2 == a_a2 ^ a_b2,
            a_c3 == a_a3 ^ a_b3,
            a_c4 == a_a4 ^ a_b4,
            a_c5 == a_a5 ^ a_b5,
            a_c6 == a_a6 ^ a_b6,
            a_c7 == a_a7 ^ a_b7,
            a_o0 == a_b0 ^ a_c7 ^ spec_rotate_rows_and_columns_2_2(a_c0),
            a_o1 == a_b1 ^ a_c0 ^ a_c7 ^ spec_rotate_rows_and_columns_2_2(a_c1),
            a_o2 == a_b2 ^ a_c1 ^ spec_rotate_rows_and_columns_2_2(a_c2),
            a_o3 == a_b3 ^ a_c2 ^ a_c7 ^ spec_rotate_rows_and_columns_2_2(a_c3),
            a_o4 == a_b4 ^ a_c3 ^ a_c7 ^ spec_rotate_rows_and_columns_2_2(a_c4),
            a_o5 == a_b5 ^ a_c4 ^ spec_rotate_rows_and_columns_2_2(a_c5),
            a_o6 == a_b6 ^ a_c5 ^ spec_rotate_rows_and_columns_2_2(a_c6),
            a_o7 == a_b7 ^ a_c6 ^ spec_rotate_rows_and_columns_2_2(a_c7),
            b_b0 == spec_rotate_rows_and_columns_1_3(b_a0),
            b_b1 == spec_rotate_rows_and_columns_1_3(b_a1),
            b_b2 == spec_rotate_rows_and_columns_1_3(b_a2),
            b_b3 == spec_rotate_rows_and_columns_1_3(b_a3),
            b_b4 == spec_rotate_rows_and_columns_1_3(b_a4),
            b_b5 == spec_rotate_rows_and_columns_1_3(b_a5),
            b_b6 == spec_rotate_rows_and_columns_1_3(b_a6),
            b_b7 == spec_rotate_rows_and_columns_1_3(b_a7),
            b_c0 == b_a0 ^ b_b0,
            b_c1 == b_a1 ^ b_b1,
            b_c2 == b_a2 ^ b_b2,
            b_c3 == b_a3 ^ b_b3,
            b_c4 == b_a4 ^ b_b4,
            b_c5 == b_a5 ^ b_b5,
            b_c6 == b_a6 ^ b_b6,
            b_c7 == b_a7 ^ b_b7,
            b_d0 == b_a0 ^ b_c7,
            b_d1 == b_a1 ^ b_c0 ^ b_c7,
            b_d2 == b_a2 ^ b_c1,
            b_d3 == b_a3 ^ b_c2 ^ b_c7,
            b_d4 == b_a4 ^ b_c3 ^ b_c7,
            b_d5 == b_a5 ^ b_c4,
            b_d6 == b_a6 ^ b_c5,
            b_d7 == b_a7 ^ b_c6,
            b_e0 == b_c0 ^ b_d6,
            b_e1 == b_c1 ^ b_d6 ^ b_d7,
            b_e2 == b_c2 ^ b_d0 ^ b_d7,
            b_e3 == b_c3 ^ b_d1 ^ b_d6,
            b_e4 == b_c4 ^ b_d2 ^ b_d6 ^ b_d7,
            b_e5 == b_c5 ^ b_d3 ^ b_d7,
            b_e6 == b_c6 ^ b_d4,
            b_e7 == b_c7 ^ b_d5,
            b_o0 == b_d0 ^ b_e0 ^ spec_rotate_rows_and_columns_2_2(b_e0),
            b_o1 == b_d1 ^ b_e1 ^ spec_rotate_rows_and_columns_2_2(b_e1),
            b_o2 == b_d2 ^ b_e2 ^ spec_rotate_rows_and_columns_2_2(b_e2),
            b_o3 == b_d3 ^ b_e3 ^ spec_rotate_rows_and_columns_2_2(b_e3),
            b_o4 == b_d4 ^ b_e4 ^ spec_rotate_rows_and_columns_2_2(b_e4),
            b_o5 == b_d5 ^ b_e5 ^ spec_rotate_rows_and_columns_2_2(b_e5),
            b_o6 == b_d6 ^ b_e6 ^ spec_rotate_rows_and_columns_2_2(b_e6),
            b_o7 == b_d7 ^ b_e7 ^ spec_rotate_rows_and_columns_2_2(b_e7),
    ;
    assert(spec_inv_mix_columns_3(spec_mix_columns_3(s)) == s);
}

/// The forward MixColumns variant undoes the inverse one.
#[verifier::rlimit(100)]
proof fn lemma_mix_columns_3_of_inv(s: Words)
    ensures
        spec_mix_columns_3(spec_inv_mix_columns_3(s)) == s,
{
    let a_a0: u32 = s.w0;
    let a_a1: u32 = s.w1;
    let a_a2: u32 = s.w2;
    let a_a3: u32 = s.w3;
    let a_a4: u32 = s.w4;
    let a_a5: u32 = s.w5;
    let a_a6: u32 = s.w6;
    let a_a7: u32 = s.w7;
    let a_b0: u32 = spec_rotate_rows_and_columns_1_3(a_a0);
    let a_b1: u32 = spec_rotate_rows_and_columns_1_3(a_a1);
    let a_b2: u32 = spec_rotate_rows_and_columns_1_3(a_a2);
    let a_b3: u32 = spec_rotate_rows_and_columns_1_3(a_a3);
    let a_b4: u32 = spec_rotate_rows_and_columns_1_3(a_a4);
    let a_b5: u32 = spec_rotate_rows_and_columns_1_3(a_a5);
    let a_b6: u32 = spec_rotate_rows_and_columns_1_3(a_a6);
    let a_b7: u32 = spec_rotate_rows_and_columns_1_3(a_a7);
    let a_c0: u32 = a_a0 ^ a_b0;
    let a_c1: u32 = a_a1 ^ a_b1;
    let a_c2: u32 = a_a2 ^ a_b2;
    let a_c3: u32 = a_a3 ^ a_b3;
    let a_c4: u32 = a_a4 ^ a_b4;
    let a_c5: u32 = a_a5 ^ a_b5;
    let a_c6: u32 = a_a6 ^ a_b6;
    let a_c7: u32 = a_a7 ^ a_b7;
    let a_d0: u32 = a_a0 ^ a_c7;
    let a_d1: u32 = a_a1 ^ a_c0 ^ a_c7;
    let a_d2: u32 = a_a2 ^ a_c1;
    let a_d3: u32 = a_a3 ^ a_c2 ^ a_c7;
    let a_d4: u32 = a_a4 ^ a_c3 ^ a_c7;
    let a_d5: u32 = a_a5 ^ a_c4;
    let a_d6: u32 = a_a6 ^ a_c5;
    let a_d7: u32 = a_a7 ^ a_c6;
    let a_e0: u32 = a_c0 ^ a_d6;
    let a_e1: u32 = a_c1 ^ a_d6 ^ a_d7;
    let a_e2: u32 = a_c2 ^ a_d0 ^ a_d7;
    let a_e3: u32 = a_c3 ^ a_d1 ^ a_d6;
    let a_e4: u32 = a_c4 ^ a_d2 ^ a_d6 ^ a_d7;
    let a_e5: u32 = a_c5 ^ a_d3 ^ a_d7;
    let a_e6: u32 = a_c6 ^ a_d4;
    let a_e7: u32 = a_c7 ^ a_d5;
    let a_o0: u32 = a_d0 ^ a_e0 ^ spec_rotate_rows_and_columns_2_2(a_e0);
    let a_o1: u32 = a_d1 ^ a_e1 ^ spec_rotate_rows_and_columns_2_2(a_e1);
    let a_o2: u32 = a_d2 ^ a_e2 ^ spec_rotate_rows_and_columns_2_2(a_e2);
    let a_o3: u32 = a_d3 ^ a_e3 ^ spec_rotate_rows_and_columns_2_2(a_e3);
    let a_o4: u32 = a_d4 ^ a_e4 ^ spec_rotate_rows_and_columns_2_2(a_e4);
    let a_o5: u32 = a_d5 ^ a_e5 ^ spec_rotate_rows_and_columns_2_2(a_e5);
    let a_o6: u32 = a_d6 ^ a_e6 ^ spec_rotate_rows_and_columns_2_2(a_e6);
    let a_o7: u32 = a_d7 ^ a_e7 ^ spec_rotate_rows_and_columns_2_2(a_e7);
    assert(spec_inv_mix_columns_3(s) == (Words { w0: a_o0, w1: a_o1, w2: a_o2, w3: a_o3, w4: a_o4, w5: a_o5, w6: a_o6, w7: a_o7 }));
    let b_a0: u32 = a_o0;
    let b_a1: u32 = a_o1;
    let b_a2: u32 = a_o2;
    let b_a3: u32 = a_o3;
    let b_a4: u32 = a_o4;
    let b_a5: u32 = a_o5;
    let b_a6: u32 = a_o6;
    let b_a7: u32 = a_o7;
    let b_b0: u32 = spec_rotate_rows_and_columns_1_3(b_a0);
    let b_b1: u32 = spec_rotate_rows_and_columns_1_3(b_a1);
    let b_b2: u32 = spec_rotate_rows_and_columns_1_3(b_a2);
    let b_b3: u32 = spec_rotate_rows_and_columns_1_3(b_a3);
    let b_b4: u32 = spec_rotate_rows_and_columns_1_3(b_a4);
    let b_b5: u32 = spec_rotate_rows_and_columns_1_3(b_a5);
    let b_b6: u32 = spec_rotate_rows_and_columns_1_3(b_a6);
    let b_b7: u32 = spec_rotate_rows_and_columns_1_3(b_a7);
    let b_c0: u32 = b_a0 ^ b_b0;
    let b_c1: u32 = b_a1 ^ b_b1;
    let b_c2: u32 = b_a2 ^ b_b2;
    let b_c3: u32 = b_a3 ^ b_b3;
    let b_c4: u32 = b_a4 ^ b_b4;
    let b_c5: u32 = b_a5 ^ b_b5;
    let b_c6: u32 = b_a6 ^ b_b6;
    let b_c7: u32 = b_a7 ^ b_b7;
    let b_o0: u32 = b_b0 ^ b_c7 ^ spec_rotate_rows_and_columns_2_2(b_c0);
    let b_o1: u32 = b_b1 ^ b_c0 ^ b_c7 ^ spec_rotate_rows_and_columns_2_2(b_c1);
    let b_o2: u32 = b_b2 ^ b_c1 ^ spec_rotate_rows_and_columns_2_2(b_c2);
    let b_o3: u32 = b_b3 ^ b_c2 ^ b_c7 ^ spec_rotate_rows_and_columns_2_2(b_c3);
    let b_o4: u32 = b_b4 ^ b_c3 ^ b_c7 ^ spec_rotate_rows_and_columns_2_2(b_c4);
    let b_o5: u32 = b_b5 ^ b_c4 ^ spec_rotate_rows_and_columns_2_2(b_c5);
    let b_o6: u32 = b_b6 ^ b_c5 ^ spec_rotate_rows_and_columns_2_2(b_c6);
    let b_o7: u32 = b_b7 ^ b_c6 ^ spec_rotate_rows_and_columns_2_2(b_c7);
    assert(spec_mix_columns_3(Words { w0: a_o0, w1: a_o1, w2: a_o2, w3: a_o3, w4: a_o4, w5: a_o5, w6: a_o6, w7: a_o7 }) == (Words { w0: b_o0, w1: b_o1, w2: b_o2, w3: b_o3, w4: b_o4, w5: b_o5, w6: b_o6, w7: b_o7 }));
    assert(b_o0 == a_a0 && b_o1 == a_a1 && b_o2 == a_a2 && b_o3 == a_a3 && b_o4 == a_a4 && b_o5 == a_a5 && b_o6 == a_a6 && b_o7 == a_a7) by (bit_vector)
        requires
            b_a0 == a_o0,
            b_a1 == a_o1,
            b_a2 == a_o2,
            b_a3 == a_o3,
            b_a4 == a_o4,
            b_a5 == a_o5,
            b_a6 == a_o6,
            b_a7 == a_o7,
            a_b0 == spec_rotate_rows_and_columns_1_3(a_a0),
            a_b1 == spec_rotate_rows_and_columns_1_3(a_a1),
            a_b2 == spec_rotate_rows_and_columns_1_3(a_a2),
            a_b3 == spec_rotate_rows_and_columns_1_3(a_a3),
            a_b4 == spec_rotate_rows_and_columns_1_3(a_a4),
            a_b5 == spec_rotate_rows_and_columns_1_3(a_a5),
            a_b6 == spec_rotate_rows_and_columns_1_3(a_a6),
            a_b7 == spec_rotate_rows_and_columns_1_3(a_a7),
            a_c0 == a_a0 ^ a_b0,
            a_c1 == a_a1 ^ a_b1,
            a_c2 == a_a2 ^ a_b2,
            a_c3 == a_a3 ^ a_b3,
            a_c4 == a_a4 ^ a_b4,
            a_c5 == a_a5 ^ a_b5,
            a_c6 == a_a6 ^ a_b6,
            a_c7 == a_a7 ^ a_b7,
            a_d0 == a_a0 ^ a_c7,
            a_d1 == a_a1 ^ a_c0 ^ a_c7,
            a_d2 == a_a2 ^ a_c1,
            a_d3 == a_a3 ^ a_c2 ^ a_c7,
            a_d4 == a_a4 ^ a_c3 ^ a_c7,
            a_d5 == a_a5 ^ a_c4,
            a_d6 == a_a6 ^ a_c5,
            a_d7 == a_a7 ^ a_c6,
            a_e0 == a_c0 ^ a_d6,
            a_e1 == a_c1 ^ a_d6 ^ a_d7,
            a_e2 == a_c2 ^ a_d0 ^ a_d7,
            a_e3 == a_c3 ^ a_d1 ^ a_d6,
            a_e4 == a_c4 ^ a_d2 ^ a_d6 ^ a_d7,
            a_e5 == a_c5 ^ a_d3 ^ a_d7,
            a_e6 == a_c6 ^ a_d4,
            a_e7 == a_c7 ^ a_d5,
            a_o0 == a_d0 ^ a_e0 ^ spec_rotate_rows_and_columns_2_2(a_e0),
            a_o1 == a_d1 ^ a_e1 ^ spec_rotate_rows_and_columns_2_2(a_e1),
            a_o2 == a_d2 ^ a_e2 ^ spec_rotate_rows_and_columns_2_2(a_e2),
            a_o3 == a_d3 ^ a_e3 ^ spec_rotate_rows_and_columns_2_2(a_e3),
            a_o4 == a_d4 ^ a_e4 ^ spec_rotate_rows_and_columns_2_2(a_e4),
            a_o5 == a_d5 ^ a_e5 ^ spec_rotate_rows_and_columns_2_2(a_e5),
            a_o6 == a_d6 ^ a_e6 ^ spec_rotate_rows_and_columns_2_2(a_e6),
            a_o7 == a_d7 ^ a_e7 ^ spec_rotate_rows_and_columns_2_2(a_e7),
            b_b0 == spec_rotate_rows_and_columns_1_3(b_a0),
            b_b1 == spec_rotate_rows_and_columns_1_3(b_a1),
            b_b2 == spec_rotate_rows_and_columns_1_3(b_a2),
            b_b3 == spec_rotate_rows_and_columns_1_3(b_a3),
            b_b4 == spec_rotate_rows_and_columns_1_3(b_a4),
            b_b5 == spec_rotate_rows_and_columns_1_3(b_a5),
            b_b6 == spec_rotate_rows_and_columns_1_3(b_a6),
            b_b7 == spec_rotate_rows_and_columns_1_3(b_a7),
            b_c0 == b_a0 ^ b_b0,
            b_c1 == b_a1 ^ b_b1,
            b_c2 == b_a2 ^ b_b2,
            b_c3 == b_a3 ^ b_b3,
            b_c4 == b_a4 ^ b_b4,
            b_c5 == b_a5 ^ b_b5,
            b_c6 == b_a6 ^ b_b6,
            b_c7 == b_a7 ^ b_b7,
            b_o0 == b_b0 ^ b_c7 ^ spec_rotate_rows_and_columns_2_2(b_c0),
            b_o1 == b_b1 ^ b_c0 ^ b_c7 ^ spec_rotate_rows_and_columns_2_2(b_c1),
            b_o2 == b_b2 ^ b_c1 ^ spec_rotate_rows_and_columns_2_2(b_c2),
            b_o3 == b_b3 ^ b_c2 ^ b_c7 ^ spec_rotate_rows_and_columns_2_2(b_c3),
            b_o4 == b_b4 ^ b_c3 ^ b_c7 ^ spec_rotate_rows_and_columns_2_2(b_c4),
            b_o5 == b_b5 ^ b_c4 ^ spec_rotate_rows_and_columns_2_2(b_c5),
            b_o6 == b_b6 ^ b_c5 ^ spec_rotate_rows_and_columns_2_2(b_c6),
            b_o7 == b_b7 ^ b_c6 ^ spec_rotate_rows_and_columns_2_2(b_c7),
    ;
    assert(spec_mix_columns_3(spec_inv_mix_columns_3(s)) == s);
}

// ---------------------------------------------------------------------------
// Bitslicing: packing bytes into words and the bit-index swap network
// ---------------------------------------------------------------------------

pub open spec fn spec_bit_index_swap(s: Words) -> Words {
    let t0_1: u32 = spec_delta_swap_2_a(s.w1, s.w0, 1, 0x55555555);
    let t0_0: u32 = spec_delta_swap_2_b(s.w1, s.w0, 1, 0x55555555);
    let t1_3: u32 = spec_delta_swap_2_a(s.w3, s.w2, 1, 0x55555555);
    let t1_2: u32 = spec_delta_swap_2_b(s.w3, s.w2, 1, 0x55555555);
    let t2_5: u32 = spec_delta_swap_2_a(s.w5, s.w4, 1, 0x55555555);
    let t2_4: u32 = spec_delta_swap_2_b(s.w5, s.w4, 1, 0x55555555);
    let t3_7: u32 = spec_delta_swap_2_a(s.w7, s.w6, 1, 0x55555555);
    let t3_6: u32 = spec_delta_swap_2_b(s.w7, s.w6, 1, 0x55555555);
    let t4_2: u32 = spec_delta_swap_2_a(t1_2, t0_0, 2, 0x33333333);
    let t4_0: u32 = spec_delta_swap_2_b(t1_2, t0_0, 2, 0x33333333);
    let t5_3: u32 = spec_delta_swap_2_a(t1_3, t0_1, 2, 0x33333333);
    let t5_1: u32 = spec_delta_swap_2_b(t1_3, t0_1, 2, 0x33333333);
    let t6_6: u32 = spec_delta_swap_2_a(t3_6, t2_4, 2, 0x33333333);
    let t6_4: u32 = spec_delta_swap_2_b(t3_6, t2_4, 2, 0x33333333);
    let t7_7: u32 = spec_delta_swap_2_a(t3_7, t2_5, 2, 0x33333333);
    let t7_5: u32 = spec_delta_swap_2_b(t3_7, t2_5, 2, 0x33333333);
    let t8_4: u32 = spec_delta_swap_2_a(t6_4, t4_0, 4, 0x0f0f0f0f);
    let t8_0: u32 = spec_delta_swap_2_b(t6_4, t4_0, 4, 0x0f0f0f0f);
    let t9_5: u32 = spec_delta_swap_2_a(t7_5, t5_1, 4, 0x0f0f0f0f);
    let t9_1: u32 = spec_delta_swap_2_b(t7_5, t5_1, 4, 0x0f0f0f0f);
    let t10_6: u32 = spec_delta_swap_2_a(t6_6, t4_2, 4, 0x0f0f0f0f);
    let t10_2: u32 = spec_delta_swap_2_b(t6_6, t4_2, 4, 0x0f0f0f0f);
    let t11_7: u32 = spec_delta_swap_2_a(t7_7, t5_3, 4, 0x0f0f0f0f);
    let t11_3: u32 = spec_delta_swap_2_b(t7_7, t5_3, 4, 0x0f0f0f0f);
    Words {
        w0: t8_0,
        w1: t9_1,
        w2: t10_2,
        w3: t11_3,
        w4: t8_4,
        w5: t9_5,
        w6: t10_6,
        w7: t11_7,
    }
}

/// Applies the bit-index swap network to the eight state words.
pub fn bit_index_swap(s: Words) -> (r: Words)
    ensures
        r == spec_bit_index_swap(s),
{
    let mut v0: u32 = s.w0;
    let mut v1: u32 = s.w1;
    let mut v2: u32 = s.w2;
    let mut v3: u32 = s.w3;
    let mut v4: u32 = s.w4;
    let mut v5: u32 = s.w5;
    let mut v6: u32 = s.w6;
    let mut v7: u32 = s.w7;
    let p: (u32, u32) = delta_swap_2(v1, v0, 1, 0x55555555);
    v1 = p.0;
    v0 = p.1;
    let p: (u32, u32) = delta_swap_2(v3, v2, 1, 0x55555555);
    v3 = p.0;
    v2 = p.1;
    let p: (u32, u32) = delta_swap_2(v5, v4, 1, 0x55555555);
    v5 = p.0;
    v4 = p.1;
    let p: (u32, u32) = delta_swap_2(v7, v6, 1, 0x55555555);
    v7 = p.0;
    v6 = p.1;
    let p: (u32, u32) = delta_swap_2(v2, v0, 2, 0x33333333);
    v2 = p.0;
    v0 = p.1;
    let p: (u32, u32) = delta_swap_2(v3, v1, 2, 0x33333333);
    v3 = p.0;
    v1 = p.1;
    let p: (u32, u32) = delta_swap_2(v6, v4, 2, 0x33333333);
    v6 = p.0;
    v4 = p.1;
    let p: (u32, u32) = delta_swap_2(v7, v5, 2, 0x33333333);
    v7 = p.0;
    v5 = p.1;
    let p: (u32, u32) = delta_swap_2(v4, v0, 4, 0x0f0f0f0f);
    v4 = p.0;
    v0 = p.1;
    let p: (u32, u32) = delta_swap_2(v5, v1, 4, 0x0f0f0f0f);
    v5 = p.0;
    v1 = p.1;
    let p: (u32, u32) = delta_swap_2(v6, v2, 4, 0x0f0f0f0f);
    v6 = p.0;
    v2 = p.1;
    let p: (u32, u32) = delta_swap_2(v7, v3, 4, 0x0f0f0f0f);
    v7 = p.0;
    v3 = p.1;
    Words { w0: v0, w1: v1, w2: v2, w3: v3, w4: v4, w5: v5, w6: v6, w7: v7 }
}

/// The bit-index swap network is its own inverse.
#[verifier::rlimit(60)]
proof fn lemma_bit_index_swap_involution(s: Words)
    ensures
        spec_bit_index_swap(spec_bit_index_swap(s)) == s,
{
    let x0: u32 = s.w0;
    let x1: u32 = s.w1;
    let x2: u32 = s.w2;
    let x3: u32 = s.w3;
    let x4: u32 = s.w4;
    let x5: u32 = s.w5;
    let x6: u32 = s.w6;
    let x7: u32 = s.w7;
    let f0_1: u32 = spec_delta_swap_2_a(x1, x0, 1, 0x55555555);
    let f0_0: u32 = spec_delta_swap_2_b(x1, x0, 1, 0x55555555);
    let f1_3: u32 = spec_delta_swap_2_a(x3, x2, 1, 0x55555555);
    let f1_2: u32 = spec_delta_swap_2_b(x3, x2, 1, 0x55555555);
    let f2_5: u32 = spec_delta_swap_2_a(x5, x4, 1, 0x55555555);
    let f2_4: u32 = spec_delta_swap_2_b(x5, x4, 1, 0x55555555);
    let f3_7: u32 = spec_delta_swap_2_a(x7, x6, 1, 0x55555555);
    let f3_6: u32 = spec_delta_swap_2_b(x7, x6, 1, 0x55555555);
    let f4_2: u32 = spec_delta_swap_2_a(f1_2, f0_0, 2, 0x33333333);
    let f4_0: u32 = spec_delta_swap_2_b(f1_2, f0_0, 2, 0x33333333);
    let f5_3: u32 = spec_delta_swap_2_a(f1_3, f0_1, 2, 0x33333333);
    let f5_1: u32 = spec_delta_swap_2_b(f1_3, f0_1, 2, 0x33333333);
    let f6_6: u32 = spec_delta_swap_2_a(f3_6, f2_4, 2, 0x33333333);
    let f6_4: u32 = spec_delta_swap_2_b(f3_6, f2_4, 2, 0x33333333);
    let f7_7: u32 = spec_delta_swap_2_a(f3_7, f2_5, 2, 0x33333333);
    let f7_5: u32 = spec_delta_swap_2_b(f3_7, f2_5, 2, 0x33333333);
    let f8_4: u32 = spec_delta_swap_2_a(f6_4, f4_0, 4, 0x0f0f0f0f);
    let f8_0: u32 = spec_delta_swap_2_b(f6_4, f4_0, 4, 0x0f0f0f0f);
    let f9_5: u32 = spec_delta_swap_2_a(f7_5, f5_1, 4, 0x0f0f0f0f);
    let f9_1: u32 = spec_delta_swap_2_b(f7_5, f5_1, 4, 0x0f0f0f0f);
    let f10_6: u32 = spec_delta_swap_2_a(f6_6, f4_2, 4, 0x0f0f0f0f);
    let f10_2: u32 = spec_delta_swap_2_b(f6_6, f4_2, 4, 0x0f0f0f0f);
    let f11_7: u32 = spec_delta_swap_2_a(f7_7, f5_3, 4, 0x0f0f0f0f);
    let f11_3: u32 = spec_delta_swap_2_b(f7_7, f5_3, 4, 0x0f0f0f0f);
    assert(spec_bit_index_swap(s) == (Words { w0: f8_0, w1: f9_1, w2: f10_2, w3: f11_3, w4: f8_4, w5: f9_5, w6: f10_6, w7: f11_7 }));
    let g0_1: u32 = spec_delta_swap_2_a(f9_1, f8_0, 1, 0x55555555);
    let g0_0: u32 = spec_delta_swap_2_b(f9_1, f8_0, 1, 0x55555555);
    let g1_3: u32 = spec_delta_swap_2_a(f11_3, f10_2, 1, 0x55555555);
    let g1_2: u32 = spec_delta_swap_2_b(f11_3, f10_2, 1, 0x55555555);
    let g2_5: u32 = spec_delta_swap_2_a(f9_5, f8_4, 1, 0x55555555);
    let g2_4: u32 = spec_delta_swap_2_b(f9_5, f8_4, 1, 0x55555555);
    let g3_7: u32 = spec_delta_swap_2_a(f11_7, f10_6, 1, 0x55555555);
    let g3_6: u32 = spec_delta_swap_2_b(f11_7, f10_6, 1, 0x55555555);
    let g4_2: u32 = spec_delta_swap_2_a(g1_2, g0_0, 2, 0x33333333);
    let g4_0: u32 = spec_delta_swap_2_b(g1_2, g0_0, 2, 0x33333333);
    let g5_3: u32 = spec_delta_swap_2_a(g1_3, g0_1, 2, 0x33333333);
    let g5_1: u32 = spec_delta_swap_2_b(g1_3, g0_1, 2, 0x33333333);
    let g6_6: u32 = spec_delta_swap_2_a(g3_6, g2_4, 2, 0x33333333);
    let g6_4: u32 = spec_delta_swap_2_b(g3_6, g2_4, 2, 0x33333333);
    let g7_7: u32 = spec_delta_swap_2_a(g3_7, g2_5, 2, 0x33333333);
    let g7_5: u32 = spec_delta_swap_2_b(g3_7, g2_5, 2, 0x33333333);
    let g8_4: u32 = spec_delta_swap_2_a(g6_4, g4_0, 4, 0x0f0f0f0f);
    let g8_0: u32 = spec_delta_swap_2_b(g6_4, g4_0, 4, 0x0f0f0f0f);
    let g9_5: u32 = spec_delta_swap_2_a(g7_5, g5_1, 4, 0x0f0f0f0f);
    let g9_1: u32 = spec_delta_swap_2_b(g7_5, g5_1, 4, 0x0f0f0f0f);
    let g10_6: u32 = spec_delta_swap_2_a(g6_6, g4_2, 4, 0x0f0f0f0f);
    let g10_2: u32 = spec_delta_swap_2_b(g6_6, g4_2, 4, 0x0f0f0f0f);
    let g11_7: u32 = spec_delta_swap_2_a(g7_7, g5_3, 4, 0x0f0f0f0f);
    let g11_3: u32 = spec_delta_swap_2_b(g7_7, g5_3, 4, 0x0f0f0f0f);
    assert(spec_bit_index_swap(Words { w0: f8_0, w1: f9_1, w2: f10_2, w3: f11_3, w4: f8_4, w5: f9_5, w6: f10_6, w7: f11_7 }) == (Words { w0: g8_0, w1: g9_1, w2: g10_2, w3: g11_3, w4: g8_4, w5: g9_5, w6: g10_6, w7: g11_7 }));
    assert(g8_0 == x0 && g9_1 == x1 && g10_2 == x2 && g11_3 == x3 && g8_4 == x4 && g9_5 == x5 && g10_6 == x6 && g11_7 == x7) by (bit_vector)
        requires
            f0_1 == spec_delta_swap_2_a(x1, x0, 1, 0x55555555),
            f0_0 == spec_delta_swap_2_b(x1, x0, 1, 0x55555555),
            f1_3 == spec_delta_swap_2_a(x3, x2, 1, 0x55555555),
            f1_2 == spec_delta_swap_2_b(x3, x2, 1, 0x55555555),
            f2_5 == spec_delta_swap_2_a(x5, x4, 1, 0x55555555),
            f2_4 == spec_delta_swap_2_b(x5, x4, 1, 0x55555555),
            f3_7 == spec_delta_swap_2_a(x7, x6, 1, 0x55555555),
            f3_6 == spec_delta_swap_2_b(x7, x6, 1, 0x55555555),
            f4_2 == spec_delta_swap_2_a(f1_2, f0_0, 2, 0x33333333),
            f4_0 == spec_delta_swap_2_b(f1_2, f0_0, 2, 0x33333333),
            f5_3 == spec_delta_swap_2_a(f1_3, f0_1, 2, 0x33333333),
            f5_1 == spec_delta_swap_2_b(f1_3, f0_1, 2, 0x33333333),
            f6_6 == spec_delta_swap_2_a(f3_6, f2_4, 2, 0x33333333),
            f6_4 == spec_delta_swap_2_b(f3_6, f2_4, 2, 0x33333333),
            f7_7 == spec_delta_swap_2_a(f3_7, f2_5, 2, 0x33333333),
            f7_5 == spec_delta_swap_2_b(f3_7, f2_5, 2, 0x33333333),
            f8_4 == spec_delta_swap_2_a(f6_4, f4_0, 4, 0x0f0f0f0f),
            f8_0 == spec_delta_swap_2_b(f6_4, f4_0, 4, 0x0f0f0f0f),
            f9_5 == spec_delta_swap_2_a(f7_5, f5_1, 4, 0x0f0f0f0f),
            f9_1 == spec_delta_swap_2_b(f7_5, f5_1, 4, 0x0f0f0f0f),
            f10_6 == spec_delta_swap_2_a(f6_6, f4_2, 4, 0x0f0f0f0f),
            f10_2 == spec_delta_swap_2_b(f6_6, f4_2, 4, 0x0f0f0f0f),
            f11_7 == spec_delta_swap_2_a(f7_7, f5_3, 4, 0x0f0f0f0f),
            f11_3 == spec_delta_swap_2_b(f7_7, f5_3, 4, 0x0f0f0f0f),
            g0_1 == spec_delta_swap_2_a(f9_1, f8_0, 1, 0x55555555),
            g0_0 == spec_delta_swap_2_b(f9_1, f8_0, 1, 0x55555555),
            g1_3 == spec_delta_swap_2_a(f11_3, f10_2, 1, 0x55555555),
            g1_2 == spec_delta_swap_2_b(f11_3, f10_2, 1, 0x55555555),
            g2_5 == spec_delta_swap_2_a(f9_5, f8_4, 1, 0x55555555),
            g2_4 == spec_delta_swap_2_b(f9_5, f8_4, 1, 0x55555555),
            g3_7 == spec_delta_swap_2_a(f11_7, f10_6, 1, 0x55555555),
            g3_6 == spec_delta_swap_2_b(f11_7, f10_6, 1, 0x55555555),
            g4_2 == spec_delta_swap_2_a(g1_2, g0_0, 2, 0x33333333),
            g4_0 == spec_delta_swap_2_b(g1_2, g0_0, 2, 0x33333333),
            g5_3 == spec_delta_swap_2_a(g1_3, g0_1, 2, 0x33333333),
            g5_1 == spec_delta_swap_2_b(g1_3, g0_1, 2, 0x33333333),
            g6_6 == spec_delta_swap_2_a(g3_6, g2_4, 2, 0x33333333),
            g6_4 == spec_delta_swap_2_b(g3_6, g2_4, 2, 0x33333333),
            g7_7 == spec_delta_swap_2_a(g3_7, g2_5, 2, 0x33333333),
            g7_5 == spec_delta_swap_2_b(g3_7, g2_5, 2, 0x33333333),
            g8_4 == spec_delta_swap_2_a(g6_4, g4_0, 4, 0x0f0f0f0f),
            g8_0 == spec_delta_swap_2_b(g6_4, g4_0, 4, 0x0f0f0f0f),
            g9_5 == spec_delta_swap_2_a(g7_5, g5_1, 4, 0x0f0f0f0f),
            g9_1 == spec_delta_swap_2_b(g7_5, g5_1, 4, 0x0f0f0f0f),
            g10_6 == spec_delta_swap_2_a(g6_6, g4_2, 4, 0x0f0f0f0f),
            g10_2 == spec_delta_swap_2_b(g6_6, g4_2, 4, 0x0f0f0f0f),
            g11_7 == spec_delta_swap_2_a(g7_7, g5_3, 4, 0x0f0f0f0f),
            g11_3 == spec_delta_swap_2_b(g7_7, g5_3, 4, 0x0f0f0f0f),
    ;
    assert(spec_bit_index_swap(spec_bit_index_swap(s)) == s);
}

pub open spec fn spec_pack(b0: u8, b1: u8, b2: u8, b3: u8) -> u32 {
    (b0 as u32) | ((b1 as u32) << 8) | ((b2 as u32) << 16) | ((b3 as u32) << 24)
}

pub open spec fn spec_load(b: Seq<u8>) -> Words {
    Words {
        w0: spec_pack(b[0], b[1], b[2], b[3]),
        w1: spec_pack(b[16], b[17], b[18], b[19]),
        w2: spec_pack(b[4], b[5], b[6], b[7]),
        w3: spec_pack(b[20], b[21], b[22], b[23]),
        w4: spec_pack(b[8], b[9], b[10], b[11]),
        w5: spec_pack(b[24], b[25], b[26], b[27]),
        w6: spec_pack(b[12], b[13], b[14], b[15]),
        w7: spec_pack(b[28], b[29], b[30], b[31]),
    }
}

/// The byte at index `i` of the un-bit-sliced state.
pub open spec fn spec_unload_byte(w: Words, i: int) -> u8 {
    if i == 0 {
        ((w.w0 >> 0) & 0xff) as u8
    } else if i == 1 {
        ((w.w0 >> 8) & 0xff) as u8
    } else if i == 2 {
        ((w.w0 >> 16) & 0xff) as u8
    } else if i == 3 {
        ((w.w0 >> 24) & 0xff) as u8
    } else if i == 4 {
        ((w.w2 >> 0) & 0xff) as u8
    } else if i == 5 {
        ((w.w2 >> 8) & 0xff) as u8
    } else if i == 6 {
        ((w.w2 >> 16) & 0xff) as u8
    } else if i == 7 {
        ((w.w2 >> 24) & 0xff) as u8
    } else if i == 8 {
        ((w.w4 >> 0) & 0xff) as u8
    } else if i == 9 {
        ((w.w4 >> 8) & 0xff) as u8
    } else if i == 10 {
        ((w.w4 >> 16) & 0xff) as u8
    } else if i == 11 {
        ((w.w4 >> 24) & 0xff) as u8
    } else if i == 12 {
        ((w.w6 >> 0) & 0xff) as u8
    } else if i == 13 {
        ((w.w6 >> 8) & 0xff) as u8
    } else if i == 14 {
        ((w.w6 >> 16) & 0xff) as u8
    } else if i == 15 {
        ((w.w6 >> 24) & 0xff) as u8
    } else if i == 16 {
        ((w.w1 >> 0) & 0xff) as u8
    } else if i == 17 {
        ((w.w1 >> 8) & 0xff) as u8
    } else if i == 18 {
        ((w.w1 >> 16) & 0xff) as u8
    } else if i == 19 {
        ((w.w1 >> 24) & 0xff) as u8
    } else if i == 20 {
        ((w.w3 >> 0) & 0xff) as u8
    } else if i == 21 {
        ((w.w3 >> 8) & 0xff) as u8
    } else if i == 22 {
        ((w.w3 >> 16) & 0xff) as u8
    } else if i == 23 {
        ((w.w3 >> 24) & 0xff) as u8
    } else if i == 24 {
        ((w.w5 >> 0) & 0xff) as u8
    } else if i == 25 {
        ((w.w5 >> 8) & 0xff) as u8
    } else if i == 26 {
        ((w.w5 >> 16) & 0xff) as u8
    } else if i == 27 {
        ((w.w5 >> 24) & 0xff) as u8
    } else if i == 28 {
        ((w.w7 >> 0) & 0xff) as u8
    } else if i == 29 {
        ((w.w7 >> 8) & 0xff) as u8
    } else if i == 30 {
        ((w.w7 >> 16) & 0xff) as u8
    } else if i == 31 {
        ((w.w7 >> 24) & 0xff) as u8
    } else {
        0u8
    }
}

pub open spec fn spec_unload(w: Words) -> Seq<u8> {
    Seq::new(32, |i: int| spec_unload_byte(w, i))
}

/// Packing 32 bytes into words and unpacking them restores the bytes.
#[verifier::rlimit(60)]
proof fn lemma_unload_of_load(b: Seq<u8>)
    requires
        b.len() == 32,
    ensures
        spec_unload(spec_load(b)) == b,
{
    let x0: u8 = b[0];
    let x1: u8 = b[1];
    let x2: u8 = b[2];
    let x3: u8 = b[3];
    let x4: u8 = b[4];
    let x5: u8 = b[5];
    let x6: u8 = b[6];
    let x7: u8 = b[7];
    let x8: u8 = b[8];
    let x9: u8 = b[9];
    let x10: u8 = b[10];
    let x11: u8 = b[11];
    let x12: u8 = b[12];
    let x13: u8 = b[13];
    let x14: u8 = b[14];
    let x15: u8 = b[15];
    let x16: u8 = b[16];
    let x17: u8 = b[17];
    let x18: u8 = b[18];
    let x19: u8 = b[19];
    let x20: u8 = b[20];
    let x21: u8 = b[21];
    let x22: u8 = b[22];
    let x23: u8 = b[23];
    let x24: u8 = b[24];
    let x25: u8 = b[25];
    let x26: u8 = b[26];
    let x27: u8 = b[27];
    let x28: u8 = b[28];
    let x29: u8 = b[29];
    let x30: u8 = b[30];
    let x31: u8 = b[31];
    let w0: u32 = spec_pack(x0, x1, x2, x3);
    let w1: u32 = spec_pack(x16, x17, x18, x19);
    let w2: u32 = spec_pack(x4, x5, x6, x7);
    let w3: u32 = spec_pack(x20, x21, x22, x23);
    let w4: u32 = spec_pack(x8, x9, x10, x11);
    let w5: u32 = spec_pack(x24, x25, x26, x27);
    let w6: u32 = spec_pack(x12, x13, x14, x15);
    let w7: u32 = spec_pack(x28, x29, x30, x31);
    assert(spec_load(b) == (Words { w0: w0, w1: w1, w2: w2, w3: w3, w4: w4, w5: w5, w6: w6, w7: w7 }));
    assert(((w0 >> 0) & 0xff) as u8 == x0 && ((w0 >> 8) & 0xff) as u8 == x1 && ((w0 >> 16) & 0xff) as u8 == x2 && ((w0 >> 24) & 0xff) as u8 == x3 && ((w2 >> 0) & 0xff) as u8 == x4 && ((w2 >> 8) & 0xff) as u8 == x5 && ((w2 >> 16) & 0xff) as u8 == x6 && ((w2 >> 24) & 0xff) as u8 == x7 && ((w4 >> 0) & 0xff) as u8 == x8 && ((w4 >> 8) & 0xff) as u8 == x9 && ((w4 >> 16) & 0xff) as u8 == x10 && ((w4 >> 24) & 0xff) as u8 == x11 && ((w6 >> 0) & 0xff) as u8 == x12 && ((w6 >> 8) & 0xff) as u8 == x13 && ((w6 >> 16) & 0xff) as u8 == x14 && ((w6 >> 24) & 0xff) as u8 == x15 && ((w1 >> 0) & 0xff) as u8 == x16 && ((w1 >> 8) & 0xff) as u8 == x17 && ((w1 >> 16) & 0xff) as u8 == x18 && ((w1 >> 24) & 0xff) as u8 == x19 && ((w3 >> 0) & 0xff) as u8 == x20 && ((w3 >> 8) & 0xff) as u8 == x21 && ((w3 >> 16) & 0xff) as u8 == x22 && ((w3 >> 24) & 0xff) as u8 == x23 && ((w5 >> 0) & 0xff) as u8 == x24 && ((w5 >> 8) & 0xff) as u8 == x25 && ((w5 >> 16) & 0xff) as u8 == x26 && ((w5 >> 24) & 0xff) as u8 == x27 && ((w7 >> 0) & 0xff) as u8 == x28 && ((w7 >> 8) & 0xff) as u8 == x29 && ((w7 >> 16) & 0xff) as u8 == x30 && ((w7 >> 24) & 0xff) as u8 == x31) by (bit_vector)
        requires
            w0 == spec_pack(x0, x1, x2, x3),
            w1 == spec_pack(x16, x17, x18, x19),
            w2 == spec_pack(x4, x5, x6, x7),
            w3 == spec_pack(x20, x21, x22, x23),
            w4 == spec_pack(x8, x9, x10, x11),
            w5 == spec_pack(x24, x25, x26, x27),
            w6 == spec_pack(x12, x13, x14, x15),
            w7 == spec_pack(x28, x29, x30, x31),
    ;
    assert(spec_unload(spec_load(b))[0] == b[0]);
    assert(spec_unload(spec_load(b))[1] == b[1]);
    assert(spec_unload(spec_load(b))[2] == b[2]);
    assert(spec_unload(spec_load(b))[3] == b[3]);
    assert(spec_unload(spec_load(b))[4] == b[4]);
    assert(spec_unload(spec_load(b))[5] == b[5]);
    assert(spec_unload(spec_load(b))[6] == b[6]);
    assert(spec_unload(spec_load(b))[7] == b[7]);
    assert(spec_unload(spec_load(b))[8] == b[8]);
    assert(spec_unload(spec_load(b))[9] == b[9]);
    assert(spec_unload(spec_load(b))[10] == b[10]);
    assert(spec_unload(spec_load(b))[11] == b[11]);
    assert(spec_unload(spec_load(b))[12] == b[12]);
    assert(spec_unload(spec_load(b))[13] == b[13]);
    assert(spec_unload(spec_load(b))[14] == b[14]);
    assert(spec_unload(spec_load(b))[15] == b[15]);
    assert(spec_unload(spec_load(b))[16] == b[16]);
    assert(spec_unload(spec_load(b))[17] == b[17]);
    assert(spec_unload(spec_load(b))[18] == b[18]);
    assert(spec_unload(spec_load(b))[19] == b[19]);
    assert(spec_unload(spec_load(b))[20] == b[20]);
    assert(spec_unload(spec_load(b))[21] == b[21]);
    assert(spec_unload(spec_load(b))[22] == b[22]);
    assert(spec_unload(spec_load(b))[23] == b[23]);
    assert(spec_unload(spec_load(b))[24] == b[24]);
    assert(spec_unload(spec_load(b))[25] == b[25]);
    assert(spec_unload(spec_load(b))[26] == b[26]);
    assert(spec_unload(spec_load(b))[27] == b[27]);
    assert(spec_unload(spec_load(b))[28] == b[28]);
    assert(spec_unload(spec_load(b))[29] == b[29]);
    assert(spec_unload(spec_load(b))[30] == b[30]);
    assert(spec_unload(spec_load(b))[31] == b[31]);
    assert(spec_unload(spec_load(b)) =~= b);
}

/// Unpacking the words into bytes and packing them again restores the words.
#[verifier::rlimit(60)]
proof fn lemma_load_of_unload(w: Words)
    ensures
        spec_load(spec_unload(w)) == w,
{
    let v0: u32 = w.w0;
    let v1: u32 = w.w1;
    let v2: u32 = w.w2;
    let v3: u32 = w.w3;
    let v4: u32 = w.w4;
    let v5: u32 = w.w5;
    let v6: u32 = w.w6;
    let v7: u32 = w.w7;
    let y0: u8 = ((v0 >> 0) & 0xff) as u8;
    let y1: u8 = ((v0 >> 8) & 0xff) as u8;
    let y2: u8 = ((v0 >> 16) & 0xff) as u8;
    let y3: u8 = ((v0 >> 24) & 0xff) as u8;
    let y4: u8 = ((v2 >> 0) & 0xff) as u8;
    let y5: u8 = ((v2 >> 8) & 0xff) as u8;
    let y6: u8 = ((v2 >> 16) & 0xff) as u8;
    let y7: u8 = ((v2 >> 24) & 0xff) as u8;
    let y8: u8 = ((v4 >> 0) & 0xff) as u8;
    let y9: u8 = ((v4 >> 8) & 0xff) as u8;
    let y10: u8 = ((v4 >> 16) & 0xff) as u8;
    let y11: u8 = ((v4 >> 24) & 0xff) as u8;
    let y12: u8 = ((v6 >> 0) & 0xff) as u8;
    let y13: u8 = ((v6 >> 8) & 0xff) as u8;
    let y14: u8 = ((v6 >> 16) & 0xff) as u8;
    let y15: u8 = ((v6 >> 24) & 0xff) as u8;
    let y16: u8 = ((v1 >> 0) & 0xff) as u8;
    let y17: u8 = ((v1 >> 8) & 0xff) as u8;
    let y18: u8 = ((v1 >> 16) & 0xff) as u8;
    let y19: u8 = ((v1 >> 24) & 0xff) as u8;
    let y20: u8 = ((v3 >> 0) & 0xff) as u8;
    let y21: u8 = ((v3 >> 8) & 0xff) as u8;
    let y22: u8 = ((v3 >> 16) & 0xff) as u8;
    let y23: u8 = ((v3 >> 24) & 0xff) as u8;
    let y24: u8 = ((v5 >> 0) & 0xff) as u8;
    let y25: u8 = ((v5 >> 8) & 0xff) as u8;
    let y26: u8 = ((v5 >> 16) & 0xff) as u8;
    let y27: u8 = ((v5 >> 24) & 0xff) as u8;
    let y28: u8 = ((v7 >> 0) & 0xff) as u8;
    let y29: u8 = ((v7 >> 8) & 0xff) as u8;
    let y30: u8 = ((v7 >> 16) & 0xff) as u8;
    let y31: u8 = ((v7 >> 24) & 0xff) as u8;
    assert(spec_unload(w)[0] == y0);
    assert(spec_unload(w)[1] == y1);
    assert(spec_unload(w)[2] == y2);
    assert(spec_unload(w)[3] == y3);
    assert(spec_unload(w)[4] == y4);
    assert(spec_unload(w)[5] == y5);
    assert(spec_unload(w)[6] == y6);
    assert(spec_unload(w)[7] == y7);
    assert(spec_unload(w)[8] == y8);
    assert(spec_unload(w)[9] == y9);
    assert(spec_unload(w)[10] == y10);
    assert(spec_unload(w)[11] == y11);
    assert(spec_unload(w)[12] == y12);
    assert(spec_unload(w)[13] == y13);
    assert(spec_unload(w)[14] == y14);
    assert(spec_unload(w)[15] == y15);
    assert(spec_unload(w)[16] == y16);
    assert(spec_unload(w)[17] == y17);
    assert(spec_unload(w)[18] == y18);
    assert(spec_unload(w)[19] == y19);
    assert(spec_unload(w)[20] == y20);
    assert(spec_unload(w)[21] == y21);
    assert(spec_unload(w)[22] == y22);
    assert(spec_unload(w)[23] == y23);
    assert(spec_unload(w)[24] == y24);
    assert(spec_unload(w)[25] == y25);
    assert(spec_unload(w)[26] == y26);
    assert(spec_unload(w)[27] == y27);
    assert(spec_unload(w)[28] == y28);
    assert(spec_unload(w)[29] == y29);
    assert(spec_unload(w)[30] == y30);
    assert(spec_unload(w)[31] == y31);
    assert(spec_pack(y0, y1, y2, y3) == v0 && spec_pack(y16, y17, y18, y19) == v1 && spec_pack(y4, y5, y6, y7) == v2 && spec_pack(y20, y21, y22, y23) == v3 && spec_pack(y8, y9, y10, y11) == v4 && spec_pack(y24, y25, y26, y27) == v5 && spec_pack(y12, y13, y14, y15) == v6 && spec_pack(y28, y29, y30, y31) == v7) by (bit_vector)
        requires
            y0 == ((v0 >> 0) & 0xff) as u8,
            y1 == ((v0 >> 8) & 0xff) as u8,
            y2 == ((v0 >> 16) & 0xff) as u8,
            y3 == ((v0 >> 24) & 0xff) as u8,
            y4 == ((v2 >> 0) & 0xff) as u8,
            y5 == ((v2 >> 8) & 0xff) as u8,
            y6 == ((v2 >> 16) & 0xff) as u8,
            y7 == ((v2 >> 24) & 0xff) as u8,
            y8 == ((v4 >> 0) & 0xff) as u8,
            y9 == ((v4 >> 8) & 0xff) as u8,
            y10 == ((v4 >> 16) & 0xff) as u8,
            y11 == ((v4 >> 24) & 0xff) as u8,
            y12 == ((v6 >> 0) & 0xff) as u8,
            y13 == ((v6 >> 8) & 0xff) as u8,
            y14 == ((v6 >> 16) & 0xff) as u8,
            y15 == ((v6 >> 24) & 0xff) as u8,
            y16 == ((v1 >> 0) & 0xff) as u8,
            y17 == ((v1 >> 8) & 0xff) as u8,
            y18 == ((v1 >> 16) & 0xff) as u8,
            y19 == ((v1 >> 24) & 0xff) as u8,
            y20 == ((v3 >> 0) & 0xff) as u8,
            y21 == ((v3 >> 8) & 0xff) as u8,
            y22 == ((v3 >> 16) & 0xff) as u8,
            y23 == ((v3 >> 24) & 0xff) as u8,
            y24 == ((v5 >> 0) & 0xff) as u8,
            y25 == ((v5 >> 8) & 0xff) as u8,
            y26 == ((v5 >> 16) & 0xff) as u8,
            y27 == ((v5 >> 24) & 0xff) as u8,
            y28 == ((v7 >> 0) & 0xff) as u8,
            y29 == ((v7 >> 8) & 0xff) as u8,
            y30 == ((v7 >> 16) & 0xff) as u8,
            y31 == ((v7 >> 24) & 0xff) as u8,
    ;
    assert(spec_load(spec_unload(w)) == w);
}

pub open spec fn spec_bitslice(b: Seq<u8>) -> Words {
    spec_bit_index_swap(spec_load(b))
}

pub open spec fn spec_inv_bitslice(w: Words) -> Seq<u8> {
    spec_unload(spec_bit_index_swap(w))
}

/// Packs 32 bytes into the bit-sliced state.
pub fn bitslice(x: &[u8; 32]) -> (r: Words)
    ensures
        r == spec_bitslice(x@),
{
    let w0: u32 = (x[0] as u32) | ((x[1] as u32) << 8) | ((x[2] as u32) << 16) | ((x[3] as u32) << 24);
    let w1: u32 = (x[16] as u32) | ((x[17] as u32) << 8) | ((x[18] as u32) << 16) | ((x[19] as u32) << 24);
    let w2: u32 = (x[4] as u32) | ((x[5] as u32) << 8) | ((x[6] as u32) << 16) | ((x[7] as u32) << 24);
    let w3: u32 = (x[20] as u32) | ((x[21] as u32) << 8) | ((x[22] as u32) << 16) | ((x[23] as u32) << 24);
    let w4: u32 = (x[8] as u32) | ((x[9] as u32) << 8) | ((x[10] as u32) << 16) | ((x[11] as u32) << 24);
    let w5: u32 = (x[24] as u32) | ((x[25] as u32) << 8) | ((x[26] as u32) << 16) | ((x[27] as u32) << 24);
    let w6: u32 = (x[12] as u32) | ((x[13] as u32) << 8) | ((x[14] as u32) << 16) | ((x[15] as u32) << 24);
    let w7: u32 = (x[28] as u32) | ((x[29] as u32) << 8) | ((x[30] as u32) << 16) | ((x[31] as u32) << 24);
    let loaded: Words = Words { w0: w0, w1: w1, w2: w2, w3: w3, w4: w4, w5: w5, w6: w6, w7: w7 };
    assert(loaded == spec_load(x@));
    bit_index_swap(loaded)
}

/// Unpacks the bit-sliced state into 32 bytes.
pub fn inv_bitslice(w: Words) -> (r: [u8; 32])
    ensures
        r@ == spec_inv_bitslice(w),
{
    let t: Words = bit_index_swap(w);
    let mut out: [u8; 32] = [0u8; 32];
    out[0] = ((t.w0 >> 0) & 0xff) as u8;
    out[1] = ((t.w0 >> 8) & 0xff) as u8;
    out[2] = ((t.w0 >> 16) & 0xff) as u8;
    out[3] = ((t.w0 >> 24) & 0xff) as u8;
    out[4] = ((t.w2 >> 0) & 0xff) as u8;
    out[5] = ((t.w2 >> 8) & 0xff) as u8;
    out[6] = ((t.w2 >> 16) & 0xff) as u8;
    out[7] = ((t.w2 >> 24) & 0xff) as u8;
    out[8] = ((t.w4 >> 0) & 0xff) as u8;
    out[9] = ((t.w4 >> 8) & 0xff) as u8;
    out[10] = ((t.w4 >> 16) & 0xff) as u8;
    out[11] = ((t.w4 >> 24) & 0xff) as u8;
    out[12] = ((t.w6 >> 0) & 0xff) as u8;
    out[13] = ((t.w6 >> 8) & 0xff) as u8;
    out[14] = ((t.w6 >> 16) & 0xff) as u8;
    out[15] = ((t.w6 >> 24) & 0xff) as u8;
    out[16] = ((t.w1 >> 0) & 0xff) as u8;
    out[17] = ((t.w1 >> 8) & 0xff) as u8;
    out[18] = ((t.w1 >> 16) & 0xff) as u8;
    out[19] = ((t.w1 >> 24) & 0xff) as u8;
    out[20] = ((t.w3 >> 0) & 0xff) as u8;
    out[21] = ((t.w3 >> 8) & 0xff) as u8;
    out[22] = ((t.w3 >> 16) & 0xff) as u8;
    out[23] = ((t.w3 >> 24) & 0xff) as u8;
    out[24] = ((t.w5 >> 0) & 0xff) as u8;
    out[25] = ((t.w5 >> 8) & 0xff) as u8;
    out[26] = ((t.w5 >> 16) & 0xff) as u8;
    out[27] = ((t.w5 >> 24) & 0xff) as u8;
    out[28] = ((t.w7 >> 0) & 0xff) as u8;
    out[29] = ((t.w7 >> 8) & 0xff) as u8;
    out[30] = ((t.w7 >> 16) & 0xff) as u8;
    out[31] = ((t.w7 >> 24) & 0xff) as u8;
    assert(out@[0] == spec_unload_byte(spec_bit_index_swap(w), 0));
    assert(out@[1] == spec_unload_byte(spec_bit_index_swap(w), 1));
    assert(out@[2] == spec_unload_byte(spec_bit_index_swap(w), 2));
    assert(out@[3] == spec_unload_byte(spec_bit_index_swap(w), 3));
    assert(out@[4] == spec_unload_byte(spec_bit_index_swap(w), 4));
    assert(out@[5] == spec_unload_byte(spec_bit_index_swap(w), 5));
    assert(out@[6] == spec_unload_byte(spec_bit_index_swap(w), 6));
    assert(out@[7] == spec_unload_byte(spec_bit_index_swap(w), 7));
    assert(out@[8] == spec_unload_byte(spec_bit_index_swap(w), 8));
    assert(out@[9] == spec_unload_byte(spec_bit_index_swap(w), 9));
    assert(out@[10] == spec_unload_byte(spec_bit_index_swap(w), 10));
    assert(out@[11] == spec_unload_byte(spec_bit_index_swap(w), 11));
    assert(out@[12] == spec_unload_byte(spec_bit_index_swap(w), 12));
    assert(out@[13] == spec_unload_byte(spec_bit_index_swap(w), 13));
    assert(out@[14] == spec_unload_byte(spec_bit_index_swap(w), 14));
    assert(out@[15] == spec_unload_byte(spec_bit_index_swap(w), 15));
    assert(out@[16] == spec_unload_byte(spec_bit_index_swap(w), 16));
    assert(out@[17] == spec_unload_byte(spec_bit_index_swap(w), 17));
    assert(out@[18] == spec_unload_byte(spec_bit_index_swap(w), 18));
    assert(out@[19] == spec_unload_byte(spec_bit_index_swap(w), 19));
    assert(out@[20] == spec_unload_byte(spec_bit_index_swap(w), 20));
    assert(out@[21] == spec_unload_byte(spec_bit_index_swap(w), 21));
    assert(out@[22] == spec_unload_byte(spec_bit_index_swap(w), 22));
    assert(out@[23] == spec_unload_byte(spec_bit_index_swap(w), 23));
    assert(out@[24] == spec_unload_byte(spec_bit_index_swap(w), 24));
    assert(out@[25] == spec_unload_byte(spec_bit_index_swap(w), 25));
    assert(out@[26] == spec_unload_byte(spec_bit_index_swap(w), 26));
    assert(out@[27] == spec_unload_byte(spec_bit_index_swap(w), 27));
    assert(out@[28] == spec_unload_byte(spec_bit_index_swap(w), 28));
    assert(out@[29] == spec_unload_byte(spec_bit_index_swap(w), 29));
    assert(out@[30] == spec_unload_byte(spec_bit_index_swap(w), 30));
    assert(out@[31] == spec_unload_byte(spec_bit_index_swap(w), 31));
    assert(out@ =~= spec_inv_bitslice(w));
    out
}

// ---------------------------------------------------------------------------
// The hard-coded round-key schedule: part of the permutation, not a secret
// ---------------------------------------------------------------------------

pub open spec fn spec_round_key(r: int) -> Words {
    if r == 0 {
        Words {
            w0: 4026744588,
            w1: 3486268428,
            w2: 1070592816,
            w3: 3488874492,
            w4: 3486512112,
            w5: 4042460931,
            w6: 4090232883,
            w7: 192,
        }
    } else if r == 1 {
        Words {
            w0: 3274911744,
            w1: 214749180,
            w2: 4228117296,
            w3: 1006841919,
            w4: 3473870067,
            w5: 3272601843,
            w6: 4231790787,
            w7: 3237792975,
        }
    } else if r == 2 {
        Words {
            w0: 67059459,
            w1: 3284352771,
            w2: 1060961295,
            w3: 1020212019,
            w4: 1010629680,
            w5: 4231057152,
            w6: 63176463,
            w7: 4278255552,
        }
    } else if r == 3 {
        Words {
            w0: 1060899891,
            w1: 252657408,
            w2: 3236967408,
            w3: 1057964019,
            w4: 821886768,
            w5: 1060163331,
            w6: 205468659,
            w7: 3982275,
        }
    } else if r == 4 {
        Words {
            w0: 3288269772,
            w1: 3222012723,
            w2: 3473685756,
            w3: 3234066447,
            w4: 3237200880,
            w5: 4030529331,
            w6: 3272343759,
            w7: 855651264,
        }
    } else if r == 5 {
        Words {
            w0: 3275689923,
            w1: 4231004211,
            w2: 3274764495,
            w3: 268225584,
            w4: 3234018288,
            w5: 3274900275,
            w6: 3436168188,
            w7: 4278979647,
        }
    } else if r == 6 {
        Words {
            w0: 3237950223,
            w1: 3224384451,
            w2: 3288088371,
            w3: 213974268,
            w4: 204534576,
            w5: 3477012675,
            w6: 1070583024,
            w7: 4043247423,
        }
    } else if r == 7 {
        Words {
            w0: 3224371980,
            w1: 4080219075,
            w2: 4076864451,
            w3: 3476831472,
            w4: 4290834480,
            w5: 3234069699,
            w6: 268419072,
            w7: 871628787,
        }
    } else if r == 8 {
        Words {
            w0: 3489610800,
            w1: 818136051,
            w2: 4090286064,
            w3: 1061143347,
            w4: 1057950735,
            w5: 4290786060,
            w6: 66064380,
            w7: 4231254003,
        }
    } else if r == 9 {
        Words {
            w0: 255016752,
            w1: 12829452,
            w2: 3422555328,
            w3: 4092837936,
            w4: 858784752,
            w5: 4042460403,
            w6: 4227871692,
            w7: 4039167183,
        }
    } else if r == 10 {
        Words {
            w0: 4043305788,
            w1: 3287531523,
            w2: 4240653519,
            w3: 3237153807,
            w4: 1073492220,
            w5: 4279026480,
            w6: 872153856,
            w7: 856671183,
        }
    } else if r == 11 {
        Words {
            w0: 4240687932,
            w1: 3438493488,
            w2: 1006698432,
            w3: 4039164687,
            w4: 268382256,
            w5: 3473683452,
            w6: 4080221199,
            w7: 4231019715,
        }
    } else if r == 12 {
        Words {
            w0: 3472933056,
            w1: 1057173708,
            w2: 1019265219,
            w3: 4231020540,
            w4: 3476291532,
            w5: 4291772220,
            w6: 1023394764,
            w7: 4026790851,
        }
    } else if r == 13 {
        Words {
            w0: 821247807,
            w1: 267648828,
            w2: 1073689407,
            w3: 63959811,
            w4: 808649712,
            w5: 3233858559,
            w6: 4290972720,
            w7: 4227907647,
        }
    } else if r == 14 {
        Words {
            w0: 4039904268,
            w1: 1070349327,
            w2: 4081041471,
            w3: 856624179,
            w4: 3272553276,
            w5: 1032384,
            w6: 1057027056,
            w7: 3489607743,
        }
    } else {
        Words { w0: 0, w1: 0, w2: 0, w3: 0, w4: 0, w5: 0, w6: 0, w7: 0 }
    }
}

/// The bit-sliced round key of round `r`.
pub fn round_key(r: usize) -> (k: Words)
    requires
        r < 15,
    ensures
        k == spec_round_key(r as int),
{
    if r == 0 {
        Words {
            w0: 4026744588,
            w1: 3486268428,
            w2: 1070592816,
            w3: 3488874492,
            w4: 3486512112,
            w5: 4042460931,
            w6: 4090232883,
            w7: 192,
        }
    } else if r == 1 {
        Words {
            w0: 3274911744,
            w1: 214749180,
            w2: 4228117296,
            w3: 1006841919,
            w4: 3473870067,
            w5: 3272601843,
            w6: 4231790787,
            w7: 3237792975,
        }
    } else if r == 2 {
        Words {
            w0: 67059459,
            w1: 3284352771,
            w2: 1060961295,
            w3: 1020212019,
            w4: 1010629680,
            w5: 4231057152,
            w6: 63176463,
            w7: 4278255552,
        }
    } else if r == 3 {
        Words {
            w0: 1060899891,
            w1: 252657408,
            w2: 3236967408,
            w3: 1057964019,
            w4: 821886768,
            w5: 1060163331,
            w6: 205468659,
            w7: 3982275,
        }
    } else if r == 4 {
        Words {
            w0: 3288269772,
            w1: 3222012723,
            w2: 3473685756,
            w3: 3234066447,
            w4: 3237200880,
            w5: 4030529331,
            w6: 3272343759,
            w7: 855651264,
        }
    } else if r == 5 {
        Words {
            w0: 3275689923,
            w1: 4231004211,
            w2: 3274764495,
            w3: 268225584,
            w4: 3234018288,
            w5: 3274900275,
            w6: 3436168188,
            w7: 4278979647,
        }
    } else if r == 6 {
        Words {
            w0: 3237950223,
            w1: 3224384451,
            w2: 3288088371,
            w3: 213974268,
            w4: 204534576,
            w5: 3477012675,
            w6: 1070583024,
            w7: 4043247423,
        }
    } else if r == 7 {
        Words {
            w0: 3224371980,
            w1: 4080219075,
            w2: 4076864451,
            w3: 3476831472,
            w4: 4290834480,
            w5: 3234069699,
            w6: 268419072,
            w7: 871628787,
        }
    } else if r == 8 {
        Words {
            w0: 3489610800,
            w1: 818136051,
            w2: 4090286064,
            w3: 1061143347,
            w4: 1057950735,
            w5: 4290786060,
            w6: 66064380,
            w7: 4231254003,
        }
    } else if r == 9 {
        Words {
            w0: 255016752,
            w1: 12829452,
            w2: 3422555328,
            w3: 4092837936,
            w4: 858784752,
            w5: 4042460403,
            w6: 4227871692,
            w7: 4039167183,
        }
    } else if r == 10 {
        Words {
            w0: 4043305788,
            w1: 3287531523,
            w2: 4240653519,
            w3: 3237153807,
            w4: 1073492220,
            w5: 4279026480,
            w6: 872153856,
            w7: 856671183,
        }
    } else if r == 11 {
        Words {
            w0: 4240687932,
            w1: 3438493488,
            w2: 1006698432,
            w3: 4039164687,
            w4: 268382256,
            w5: 3473683452,
            w6: 4080221199,
            w7: 4231019715,
        }
    } else if r == 12 {
        Words {
            w0: 3472933056,
            w1: 1057173708,
            w2: 1019265219,
            w3: 4231020540,
            w4: 3476291532,
            w5: 4291772220,
            w6: 1023394764,
            w7: 4026790851,
        }
    } else if r == 13 {
        Words {
            w0: 821247807,
            w1: 267648828,
            w2: 1073689407,
            w3: 63959811,
            w4: 808649712,
            w5: 3233858559,
            w6: 4290972720,
            w7: 4227907647,
        }
    } else if r == 14 {
        Words {
            w0: 4039904268,
            w1: 1070349327,
            w2: 4081041471,
            w3: 856624179,
            w4: 3272553276,
            w5: 1032384,
            w6: 1057027056,
            w7: 3489607743,
        }
    } else {
        Words { w0: 0, w1: 0, w2: 0, w3: 0, w4: 0, w5: 0, w6: 0, w7: 0 }
    }
}

// ---------------------------------------------------------------------------
// The full 14-round cipher on the bit-sliced state
// ---------------------------------------------------------------------------

pub open spec fn spec_encrypt_words(s: Words) -> Words {
    let s0: Words = spec_add_round_key(s, spec_round_key(0));
    let s1: Words = spec_add_round_key(spec_mix_columns_1(spec_sub_bytes(s0)), spec_round_key(1));
    let s2: Words = spec_add_round_key(spec_mix_columns_2(spec_sub_bytes(s1)), spec_round_key(2));
    let s3: Words = spec_add_round_key(spec_mix_columns_3(spec_sub_bytes(s2)), spec_round_key(3));
    let s4: Words = spec_add_round_key(spec_mix_columns_0(spec_sub_bytes(s3)), spec_round_key(4));
    let s5: Words = spec_add_round_key(spec_mix_columns_1(spec_sub_bytes(s4)), spec_round_key(5));
    let s6: Words = spec_add_round_key(spec_mix_columns_2(spec_sub_bytes(s5)), spec_round_key(6));
    let s7: Words = spec_add_round_key(spec_mix_columns_3(spec_sub_bytes(s6)), spec_round_key(7));
    let s8: Words = spec_add_round_key(spec_mix_columns_0(spec_sub_bytes(s7)), spec_round_key(8));
    let s9: Words = spec_add_round_key(spec_mix_columns_1(spec_sub_bytes(s8)), spec_round_key(9));
    let s10: Words = spec_add_round_key(spec_mix_columns_2(spec_sub_bytes(s9)), spec_round_key(10));
    let s11: Words = spec_add_round_key(spec_mix_columns_3(spec_sub_bytes(s10)), spec_round_key(11));
    let s12: Words = spec_add_round_key(spec_mix_columns_0(spec_sub_bytes(s11)), spec_round_key(12));
    let s13: Words = spec_add_round_key(spec_mix_columns_1(spec_sub_bytes(s12)), spec_round_key(13));
    spec_add_round_key(spec_sub_bytes(spec_shift_rows_2(s13)), spec_round_key(14))
}

pub open spec fn spec_decrypt_words(s: Words) -> Words {
    let d13: Words = spec_shift_rows_2(spec_inv_sub_bytes(spec_add_round_key(s, spec_round_key(14))));
    let d12: Words = spec_inv_sub_bytes(spec_inv_mix_columns_1(spec_add_round_key(d13, spec_round_key(13))));
    let d11: Words = spec_inv_sub_bytes(spec_inv_mix_columns_0(spec_add_round_key(d12, spec_round_key(12))));
    let d10: Words = spec_inv_sub_bytes(spec_inv_mix_columns_3(spec_add_round_key(d11, spec_round_key(11))));
    let d9: Words = spec_inv_sub_bytes(spec_inv_mix_columns_2(spec_add_round_key(d10, spec_round_key(10))));
    let d8: Words = spec_inv_sub_bytes(spec_inv_mix_columns_1(spec_add_round_key(d9, spec_round_key(9))));
    let d7: Words = spec_inv_sub_bytes(spec_inv_mix_columns_0(spec_add_round_key(d8, spec_round_key(8))));
    let d6: Words = spec_inv_sub_bytes(spec_inv_mix_columns_3(spec_add_round_key(d7, spec_round_key(7))));
    let d5: Words = spec_inv_sub_bytes(spec_inv_mix_columns_2(spec_add_round_key(d6, spec_round_key(6))));
    let d4: Words = spec_inv_sub_bytes(spec_inv_mix_columns_1(spec_add_round_key(d5, spec_round_key(5))));
    let d3: Words = spec_inv_sub_bytes(spec_inv_mix_columns_0(spec_add_round_key(d4, spec_round_key(4))));
    let d2: Words = spec_inv_sub_bytes(spec_inv_mix_columns_3(spec_add_round_key(d3, spec_round_key(3))));
    let d1: Words = spec_inv_sub_bytes(spec_inv_mix_columns_2(spec_add_round_key(d2, spec_round_key(2))));
    let d0: Words = spec_inv_sub_bytes(spec_inv_mix_columns_1(spec_add_round_key(d1, spec_round_key(1))));
    spec_add_round_key(d0, spec_round_key(0))
}

/// One evaluation of the bit-sliced AES-256 encryption under the fixed schedule.
pub fn aes256_encrypt(s: Words) -> (r: Words)
    ensures
        r == spec_encrypt_words(s),
{
    let s0: Words = add_round_key(s, round_key(0));
    let s1: Words = add_round_key(mix_columns_1(sub_bytes(s0)), round_key(1));
    let s2: Words = add_round_key(mix_columns_2(sub_bytes(s1)), round_key(2));
    let s3: Words = add_round_key(mix_columns_3(sub_bytes(s2)), round_key(3));
    let s4: Words = add_round_key(mix_columns_0(sub_bytes(s3)), round_key(4));
    let s5: Words = add_round_key(mix_columns_1(sub_bytes(s4)), round_key(5));
    let s6: Words = add_round_key(mix_columns_2(sub_bytes(s5)), round_key(6));
    let s7: Words = add_round_key(mix_columns_3(sub_bytes(s6)), round_key(7));
    let s8: Words = add_round_key(mix_columns_0(sub_bytes(s7)), round_key(8));
    let s9: Words = add_round_key(mix_columns_1(sub_bytes(s8)), round_key(9));
    let s10: Words = add_round_key(mix_columns_2(sub_bytes(s9)), round_key(10));
    let s11: Words = add_round_key(mix_columns_3(sub_bytes(s10)), round_key(11));
    let s12: Words = add_round_key(mix_columns_0(sub_bytes(s11)), round_key(12));
    let s13: Words = add_round_key(mix_columns_1(sub_bytes(s12)), round_key(13));
    add_round_key(sub_bytes(shift_rows_2(s13)), round_key(14))
}

/// One evaluation of the bit-sliced AES-256 decryption under the fixed schedule.
pub fn aes256_decrypt(s: Words) -> (r: Words)
    ensures
        r == spec_decrypt_words(s),
{
    let d13: Words = shift_rows_2(inv_sub_bytes(add_round_key(s, round_key(14))));
    let d12: Words = inv_sub_bytes(inv_mix_columns_1(add_round_key(d13, round_key(13))));
    let d11: Words = inv_sub_bytes(inv_mix_columns_0(add_round_key(d12, round_key(12))));
    let d10: Words = inv_sub_bytes(inv_mix_columns_3(add_round_key(d11, round_key(11))));
    let d9: Words = inv_sub_bytes(inv_mix_columns_2(add_round_key(d10, round_key(10))));
    let d8: Words = inv_sub_bytes(inv_mix_columns_1(add_round_key(d9, round_key(9))));
    let d7: Words = inv_sub_bytes(inv_mix_columns_0(add_round_key(d8, round_key(8))));
    let d6: Words = inv_sub_bytes(inv_mix_columns_3(add_round_key(d7, round_key(7))));
    let d5: Words = inv_sub_bytes(inv_mix_columns_2(add_round_key(d6, round_key(6))));
    let d4: Words = inv_sub_bytes(inv_mix_columns_1(add_round_key(d5, round_key(5))));
    let d3: Words = inv_sub_bytes(inv_mix_columns_0(add_round_key(d4, round_key(4))));
    let d2: Words = inv_sub_bytes(inv_mix_columns_3(add_round_key(d3, round_key(3))));
    let d1: Words = inv_sub_bytes(inv_mix_columns_2(add_round_key(d2, round_key(2))));
    let d0: Words = inv_sub_bytes(inv_mix_columns_1(add_round_key(d1, round_key(1))));
    add_round_key(d0, round_key(0))
}

/// Decryption undoes encryption on the bit-sliced state.
proof fn lemma_decrypt_of_encrypt(s: Words)
    ensures
        spec_decrypt_words(spec_encrypt_words(s)) == s,
{
    let s0: Words = spec_add_round_key(s, spec_round_key(0));
    let s1: Words = spec_add_round_key(spec_mix_columns_1(spec_sub_bytes(s0)), spec_round_key(1));
    let s2: Words = spec_add_round_key(spec_mix_columns_2(spec_sub_bytes(s1)), spec_round_key(2));
    let s3: Words = spec_add_round_key(spec_mix_columns_3(spec_sub_bytes(s2)), spec_round_key(3));
    let s4: Words = spec_add_round_key(spec_mix_columns_0(spec_sub_bytes(s3)), spec_round_key(4));
    let s5: Words = spec_add_round_key(spec_mix_columns_1(spec_sub_bytes(s4)), spec_round_key(5));
    let s6: Words = spec_add_round_key(spec_mix_columns_2(spec_sub_bytes(s5)), spec_round_key(6));
    let s7: Words = spec_add_round_key(spec_mix_columns_3(spec_sub_bytes(s6)), spec_round_key(7));
    let s8: Words = spec_add_round_key(spec_mix_columns_0(spec_sub_bytes(s7)), spec_round_key(8));
    let s9: Words = spec_add_round_key(spec_mix_columns_1(spec_sub_bytes(s8)), spec_round_key(9));
    let s10: Words = spec_add_round_key(spec_mix_columns_2(spec_sub_bytes(s9)), spec_round_key(10));
    let s11: Words = spec_add_round_key(spec_mix_columns_3(spec_sub_bytes(s10)), spec_round_key(11));
    let s12: Words = spec_add_round_key(spec_mix_columns_0(spec_sub_bytes(s11)), spec_round_key(12));
    let s13: Words = spec_add_round_key(spec_mix_columns_1(spec_sub_bytes(s12)), spec_round_key(13));
    let s14: Words = spec_add_round_key(spec_sub_bytes(spec_shift_rows_2(s13)), spec_round_key(14));
    assert(spec_encrypt_words(s) == s14);
    lemma_add_round_key_involution(spec_sub_bytes(spec_shift_rows_2(s13)), spec_round_key(14));
    lemma_inv_sub_bytes_of_sub_bytes(spec_shift_rows_2(s13));
    lemma_shift_rows_2_involution(s13);
    assert(spec_shift_rows_2(spec_inv_sub_bytes(spec_add_round_key(s14, spec_round_key(14)))) == s13);
    lemma_add_round_key_involution(spec_mix_columns_1(spec_sub_bytes(s12)), spec_round_key(13));
    lemma_inv_mix_columns_1_of_mix(spec_sub_bytes(s12));
    lemma_inv_sub_bytes_of_sub_bytes(s12);
    assert(spec_inv_sub_bytes(spec_inv_mix_columns_1(spec_add_round_key(s13, spec_round_key(13)))) == s12);
    lemma_add_round_key_involution(spec_mix_columns_0(spec_sub_bytes(s11)), spec_round_key(12));
    lemma_inv_mix_columns_0_of_mix(spec_sub_bytes(s11));
    lemma_inv_sub_bytes_of_sub_bytes(s11);
    assert(spec_inv_sub_bytes(spec_inv_mix_columns_0(spec_add_round_key(s12, spec_round_key(12)))) == s11);
    lemma_add_round_key_involution(spec_mix_columns_3(spec_sub_bytes(s10)), spec_round_key(11));
    lemma_inv_mix_columns_3_of_mix(spec_sub_bytes(s10));
    lemma_inv_sub_bytes_of_sub_bytes(s10);
    assert(spec_inv_sub_bytes(spec_inv_mix_columns_3(spec_add_round_key(s11, spec_round_key(11)))) == s10);
    lemma_add_round_key_involution(spec_mix_columns_2(spec_sub_bytes(s9)), spec_round_key(10));
    lemma_inv_mix_columns_2_of_mix(spec_sub_bytes(s9));
    lemma_inv_sub_bytes_of_sub_bytes(s9);
    assert(spec_inv_sub_bytes(spec_inv_mix_columns_2(spec_add_round_key(s10, spec_round_key(10)))) == s9);
    lemma_add_round_key_involution(spec_mix_columns_1(spec_sub_bytes(s8)), spec_round_key(9));
    lemma_inv_mix_columns_1_of_mix(spec_sub_bytes(s8));
    lemma_inv_sub_bytes_of_sub_bytes(s8);
    assert(spec_inv_sub_bytes(spec_inv_mix_columns_1(spec_add_round_key(s9, spec_round_key(9)))) == s8);
    lemma_add_round_key_involution(spec_mix_columns_0(spec_sub_bytes(s7)), spec_round_key(8));
    lemma_inv_mix_columns_0_of_mix(spec_sub_bytes(s7));
    lemma_inv_sub_bytes_of_sub_bytes(s7);
    assert(spec_inv_sub_bytes(spec_inv_mix_columns_0(spec_add_round_key(s8, spec_round_key(8)))) == s7);
    lemma_add_round_key_involution(spec_mix_columns_3(spec_sub_bytes(s6)), spec_round_key(7));
    lemma_inv_mix_columns_3_of_mix(spec_sub_bytes(s6));
    lemma_inv_sub_bytes_of_sub_bytes(s6);
    assert(spec_inv_sub_bytes(spec_inv_mix_columns_3(spec_add_round_key(s7, spec_round_key(7)))) == s6);
    lemma_add_round_key_involution(spec_mix_columns_2(spec_sub_bytes(s5)), spec_round_key(6));
    lemma_inv_mix_columns_2_of_mix(spec_sub_bytes(s5));
    lemma_inv_sub_bytes_of_sub_bytes(s5);
    assert(spec_inv_sub_bytes(spec_inv_mix_columns_2(spec_add_round_key(s6, spec_round_key(6)))) == s5);
    lemma_add_round_key_involution(spec_mix_columns_1(spec_sub_bytes(s4)), spec_round_key(5));
    lemma_inv_mix_columns_1_of_mix(spec_sub_bytes(s4));
    lemma_inv_sub_bytes_of_sub_bytes(s4);
    assert(spec_inv_sub_bytes(spec_inv_mix_columns_1(spec_add_round_key(s5, spec_round_key(5)))) == s4);
    lemma_add_round_key_involution(spec_mix_columns_0(spec_sub_bytes(s3)), spec_round_key(4));
    lemma_inv_mix_columns_0_of_mix(spec_sub_bytes(s3));
    lemma_inv_sub_bytes_of_sub_bytes(s3);
    assert(spec_inv_sub_bytes(spec_inv_mix_columns_0(spec_add_round_key(s4, spec_round_key(4)))) == s3);
    lemma_add_round_key_involution(spec_mix_columns_3(spec_sub_bytes(s2)), spec_round_key(3));
    lemma_inv_mix_columns_3_of_mix(spec_sub_bytes(s2));
    lemma_inv_sub_bytes_of_sub_bytes(s2);
    assert(spec_inv_sub_bytes(spec_inv_mix_columns_3(spec_add_round_key(s3, spec_round_key(3)))) == s2);
    lemma_add_round_key_involution(spec_mix_columns_2(spec_sub_bytes(s1)), spec_round_key(2));
    lemma_inv_mix_columns_2_of_mix(spec_sub_bytes(s1));
    lemma_inv_sub_bytes_of_sub_bytes(s1);
    assert(spec_inv_sub_bytes(spec_inv_mix_columns_2(spec_add_round_key(s2, spec_round_key(2)))) == s1);
    lemma_add_round_key_involution(spec_mix_columns_1(spec_sub_bytes(s0)), spec_round_key(1));
    lemma_inv_mix_columns_1_of_mix(spec_sub_bytes(s0));
    lemma_inv_sub_bytes_of_sub_bytes(s0);
    assert(spec_inv_sub_bytes(spec_inv_mix_columns_1(spec_add_round_key(s1, spec_round_key(1)))) == s0);
    lemma_add_round_key_involution(s, spec_round_key(0));
    assert(spec_decrypt_words(s14) == s);
}

/// Encryption undoes decryption on the bit-sliced state.
proof fn lemma_encrypt_of_decrypt(s: Words)
    ensures
        spec_encrypt_words(spec_decrypt_words(s)) == s,
{
    let d13: Words = spec_shift_rows_2(spec_inv_sub_bytes(spec_add_round_key(s, spec_round_key(14))));
    let d12: Words = spec_inv_sub_bytes(spec_inv_mix_columns_1(spec_add_round_key(d13, spec_round_key(13))));
    let d11: Words = spec_inv_sub_bytes(spec_inv_mix_columns_0(spec_add_round_key(d12, spec_round_key(12))));
    let d10: Words = spec_inv_sub_bytes(spec_inv_mix_columns_3(spec_add_round_key(d11, spec_round_key(11))));
    let d9: Words = spec_inv_sub_bytes(spec_inv_mix_columns_2(spec_add_round_key(d10, spec_round_key(10))));
    let d8: Words = spec_inv_sub_bytes(spec_inv_mix_columns_1(spec_add_round_key(d9, spec_round_key(9))));
    let d7: Words = spec_inv_sub_bytes(spec_inv_mix_columns_0(spec_add_round_key(d8, spec_round_key(8))));
    let d6: Words = spec_inv_sub_bytes(spec_inv_mix_columns_3(spec_add_round_key(d7, spec_round_key(7))));
    let d5: Words = spec_inv_sub_bytes(spec_inv_mix_columns_2(spec_add_round_key(d6, spec_round_key(6))));
    let d4: Words = spec_inv_sub_bytes(spec_inv_mix_columns_1(spec_add_round_key(d5, spec_round_key(5))));
    let d3: Words = spec_inv_sub_bytes(spec_inv_mix_columns_0(spec_add_round_key(d4, spec_round_key(4))));
    let d2: Words = spec_inv_sub_bytes(spec_inv_mix_columns_3(spec_add_round_key(d3, spec_round_key(3))));
    let d1: Words = spec_inv_sub_bytes(spec_inv_mix_columns_2(spec_add_round_key(d2, spec_round_key(2))));
    let d0: Words = spec_inv_sub_bytes(spec_inv_mix_columns_1(spec_add_round_key(d1, spec_round_key(1))));
    let d: Words = spec_add_round_key(d0, spec_round_key(0));
    assert(spec_decrypt_words(s) == d);
    lemma_add_round_key_involution(d0, spec_round_key(0));
    assert(spec_add_round_key(d, spec_round_key(0)) == d0);
    lemma_sub_bytes_of_inv_sub_bytes(spec_inv_mix_columns_1(spec_add_round_key(d1, spec_round_key(1))));
    lemma_mix_columns_1_of_inv(spec_add_round_key(d1, spec_round_key(1)));
    lemma_add_round_key_involution(d1, spec_round_key(1));
    assert(spec_add_round_key(spec_mix_columns_1(spec_sub_bytes(d0)), spec_round_key(1)) == d1);
    lemma_sub_bytes_of_inv_sub_bytes(spec_inv_mix_columns_2(spec_add_round_key(d2, spec_round_key(2))));
    lemma_mix_columns_2_of_inv(spec_add_round_key(d2, spec_round_key(2)));
    lemma_add_round_key_involution(d2, spec_round_key(2));
    assert(spec_add_round_key(spec_mix_columns_2(spec_sub_bytes(d1)), spec_round_key(2)) == d2);
    lemma_sub_bytes_of_inv_sub_bytes(spec_inv_mix_columns_3(spec_add_round_key(d3, spec_round_key(3))));
    lemma_mix_columns_3_of_inv(spec_add_round_key(d3, spec_round_key(3)));
    lemma_add_round_key_involution(d3, spec_round_key(3));
    assert(spec_add_round_key(spec_mix_columns_3(spec_sub_bytes(d2)), spec_round_key(3)) == d3);
    lemma_sub_bytes_of_inv_sub_bytes(spec_inv_mix_columns_0(spec_add_round_key(d4, spec_round_key(4))));
    lemma_mix_columns_0_of_inv(spec_add_round_key(d4, spec_round_key(4)));
    lemma_add_round_key_involution(d4, spec_round_key(4));
    assert(spec_add_round_key(spec_mix_columns_0(spec_sub_bytes(d3)), spec_round_key(4)) == d4);
    lemma_sub_bytes_of_inv_sub_bytes(spec_inv_mix_columns_1(spec_add_round_key(d5, spec_round_key(5))));
    lemma_mix_columns_1_of_inv(spec_add_round_key(d5, spec_round_key(5)));
    lemma_add_round_key_involution(d5, spec_round_key(5));
    assert(spec_add_round_key(spec_mix_columns_1(spec_sub_bytes(d4)), spec_round_key(5)) == d5);
    lemma_sub_bytes_of_inv_sub_bytes(spec_inv_mix_columns_2(spec_add_round_key(d6, spec_round_key(6))));
    lemma_mix_columns_2_of_inv(spec_add_round_key(d6, spec_round_key(6)));
    lemma_add_round_key_involution(d6, spec_round_key(6));
    assert(spec_add_round_key(spec_mix_columns_2(spec_sub_bytes(d5)), spec_round_key(6)) == d6);
    lemma_sub_bytes_of_inv_sub_bytes(spec_inv_mix_columns_3(spec_add_round_key(d7, spec_round_key(7))));
    lemma_mix_columns_3_of_inv(spec_add_round_key(d7, spec_round_key(7)));
    lemma_add_round_key_involution(d7, spec_round_key(7));
    assert(spec_add_round_key(spec_mix_columns_3(spec_sub_bytes(d6)), spec_round_key(7)) == d7);
    lemma_sub_bytes_of_inv_sub_bytes(spec_inv_mix_columns_0(spec_add_round_key(d8, spec_round_key(8))));
    lemma_mix_columns_0_of_inv(spec_add_round_key(d8, spec_round_key(8)));
    lemma_add_round_key_involution(d8, spec_round_key(8));
    assert(spec_add_round_key(spec_mix_columns_0(spec_sub_bytes(d7)), spec_round_key(8)) == d8);
    lemma_sub_bytes_of_inv_sub_bytes(spec_inv_mix_columns_1(spec_add_round_key(d9, spec_round_key(9))));
    lemma_mix_columns_1_of_inv(spec_add_round_key(d9, spec_round_key(9)));
    lemma_add_round_key_involution(d9, spec_round_key(9));
    assert(spec_add_round_key(spec_mix_columns_1(spec_sub_bytes(d8)), spec_round_key(9)) == d9);
    lemma_sub_bytes_of_inv_sub_bytes(spec_inv_mix_columns_2(spec_add_round_key(d10, spec_round_key(10))));
    lemma_mix_columns_2_of_inv(spec_add_round_key(d10, spec_round_key(10)));
    lemma_add_round_key_involution(d10, spec_round_key(10));
    assert(spec_add_round_key(spec_mix_columns_2(spec_sub_bytes(d9)), spec_round_key(10)) == d10);
    lemma_sub_bytes_of_inv_sub_bytes(spec_inv_mix_columns_3(spec_add_round_key(d11, spec_round_key(11))));
    lemma_mix_columns_3_of_inv(spec_add_round_key(d11, spec_round_key(11)));
    lemma_add_round_key_involution(d11, spec_round_key(11));
    assert(spec_add_round_key(spec_mix_columns_3(spec_sub_bytes(d10)), spec_round_key(11)) == d11);
    lemma_sub_bytes_of_inv_sub_bytes(spec_inv_mix_columns_0(spec_add_round_key(d12, spec_round_key(12))));
    lemma_mix_columns_0_of_inv(spec_add_round_key(d12, spec_round_key(12)));
    lemma_add_round_key_involution(d12, spec_round_key(12));
    assert(spec_add_round_key(spec_mix_columns_0(spec_sub_bytes(d11)), spec_round_key(12)) == d12);
    lemma_sub_bytes_of_inv_sub_bytes(spec_inv_mix_columns_1(spec_add_round_key(d13, spec_round_key(13))));
    lemma_mix_columns_1_of_inv(spec_add_round_key(d13, spec_round_key(13)));
    lemma_add_round_key_involution(d13, spec_round_key(13));
    assert(spec_add_round_key(spec_mix_columns_1(spec_sub_bytes(d12)), spec_round_key(13)) == d13);
    lemma_shift_rows_2_involution(spec_inv_sub_bytes(spec_add_round_key(s, spec_round_key(14))));
    lemma_sub_bytes_of_inv_sub_bytes(spec_add_round_key(s, spec_round_key(14)));
    lemma_add_round_key_involution(s, spec_round_key(14));
    assert(spec_add_round_key(spec_sub_bytes(spec_shift_rows_2(d13)), spec_round_key(14)) == s);
    assert(spec_encrypt_words(d) == s);
}

// ---------------------------------------------------------------------------
// The public permutation
// ---------------------------------------------------------------------------

#[verifier::opaque]
pub open spec fn spec_inverse_permute(b: Seq<u8>) -> Seq<u8> {
    spec_inv_bitslice(spec_encrypt_words(spec_bitslice(b)))
}

#[verifier::opaque]
pub open spec fn spec_permute(b: Seq<u8>) -> Seq<u8> {
    spec_inv_bitslice(spec_decrypt_words(spec_bitslice(b)))
}

/// The inverse of the fixed public permutation on 32-byte strings.
pub fn inverse_permute(rep: [u8; 32]) -> (r: [u8; 32])
    ensures
        r@ == spec_inverse_permute(rep@),
{
    proof {
        reveal(spec_inverse_permute);
    }
    inv_bitslice(aes256_encrypt(bitslice(&rep)))
}

/// The fixed public permutation on 32-byte strings.
pub fn permute(byte_list: [u8; 32]) -> (r: [u8; 32])
    ensures
        r@ == spec_permute(byte_list@),
{
    proof {
        reveal(spec_permute);
    }
    inv_bitslice(aes256_decrypt(bitslice(&byte_list)))
}

/// Round trips through byte packing: slicing what was unsliced restores the state.
proof fn lemma_bitslice_of_inv_bitslice(w: Words)
    ensures
        spec_bitslice(spec_inv_bitslice(w)) == w,
{
    lemma_load_of_unload(spec_bit_index_swap(w));
    lemma_bit_index_swap_involution(w);
}

/// Round trips through byte packing: unslicing what was sliced restores the bytes.
proof fn lemma_inv_bitslice_of_bitslice(b: Seq<u8>)
    requires
        b.len() == 32,
    ensures
        spec_inv_bitslice(spec_bitslice(b)) == b,
{
    lemma_bit_index_swap_involution(spec_load(b));
    lemma_unload_of_load(b);
}

/// The fixed public permutation is a bijection on the full 256-bit space:
/// `permute` and `inverse_permute` undo one another on every 32-byte string.
pub proof fn lemma_permutation_bijective(b: Seq<u8>)
    requires
        b.len() == 32,
    ensures
        spec_permute(spec_inverse_permute(b)) == b,
        spec_inverse_permute(spec_permute(b)) == b,
{
    reveal(spec_permute);
    reveal(spec_inverse_permute);
    lemma_bitslice_of_inv_bitslice(spec_encrypt_words(spec_bitslice(b)));
    lemma_decrypt_of_encrypt(spec_bitslice(b));
    lemma_inv_bitslice_of_bitslice(b);
    lemma_bitslice_of_inv_bitslice(spec_decrypt_words(spec_bitslice(b)));
    lemma_encrypt_of_decrypt(spec_bitslice(b));
}

// ---------------------------------------------------------------------------
// The byte-level reference: the bit-sliced circuit computes the AES S-box
// ---------------------------------------------------------------------------

/// The AES S-box (the FIPS-197 substitution table).
pub open spec fn aes_sbox(b: u8) -> u8 {
    if b == 0 {
        99
    } else if b == 1 {
        124
    } else if b == 2 {
        119
    } else if b == 3 {
        123
    } else if b == 4 {
        242
    } else if b == 5 {
        107
    } else if b == 6 {
        111
    } else if b == 7 {
        197
    } else if b == 8 {
        48
    } else if b == 9 {
        1
    } else if b == 10 {
        103
    } else if b == 11 {
        43
    } else if b == 12 {
        254
    } else if b == 13 {
        215
    } else if b == 14 {
        171
    } else if b == 15 {
        118
    } else if b == 16 {
        202
    } else if b == 17 {
        130
    } else if b == 18 {
        201
    } else if b == 19 {
        125
    } else if b == 20 {
        250
    } else if b == 21 {
        89
    } else if b == 22 {
        71
    } else if b == 23 {
        240
    } else if b == 24 {
        173
    } else if b == 25 {
        212
    } else if b == 26 {
        162
    } else if b == 27 {
        175
    } else if b == 28 {
        156
    } else if b == 29 {
        164
    } else if b == 30 {
        114
    } else if b == 31 {
        192
    } else if b == 32 {
        183
    } else if b == 33 {
        253
    } else if b == 34 {
        147
    } else if b == 35 {
        38
    } else if b == 36 {
        54
    } else if b == 37 {
        63
    } else if b == 38 {
        247
    } else if b == 39 {
        204
    } else if b == 40 {
        52
    } else if b == 41 {
        165
    } else if b == 42 {
        229
    } else if b == 43 {
        241
    } else if b == 44 {
        113
    } else if b == 45 {
        216
    } else if b == 46 {
        49
    } else if b == 47 {
        21
    } else if b == 48 {
        4
    } else if b == 49 {
        199
    } else if b == 50 {
        35
    } else if b == 51 {
        195
    } else if b == 52 {
        24
    } else if b == 53 {
        150
    } else if b == 54 {
        5
    } else if b == 55 {
        154
    } else if b == 56 {
        7
    } else if b == 57 {
        18
    } else if b == 58 {
        128
    } else if b == 59 {
        226
    } else if b == 60 {
        235
    } else if b == 61 {
        39
    } else if b == 62 {
        178
    } else if b == 63 {
        117
    } else if b == 64 {
        9
    } else if b == 65 {
        131
    } else if b == 66 {
        44
    } else if b == 67 {
        26
    } else if b == 68 {
        27
    } else if b == 69 {
        110
    } else if b == 70 {
        90
    } else if b == 71 {
        160
    } else if b == 72 {
        82
    } else if b == 73 {
        59
    } else if b == 74 {
        214
    } else if b == 75 {
        179
    } else if b == 76 {
        41
    } else if b == 77 {
        227
    } else if b == 78 {
        47
    } else if b == 79 {
        132
    } else if b == 80 {
        83
    } else if b == 81 {
        209
    } else if b == 82 {
        0
    } else if b == 83 {
        237
    } else if b == 84 {
        32
    } else if b == 85 {
        252
    } else if b == 86 {
        177
    } else if b == 87 {
        91
    } else if b == 88 {
        106
    } else if b == 89 {
        203
    } else if b == 90 {
        190
    } else if b == 91 {
        57
    } else if b == 92 {
        74
    } else if b == 93 {
        76
    } else if b == 94 {
        88
    } else if b == 95 {
        207
    } else if b == 96 {
        208
    } else if b == 97 {
        239
    } else if b == 98 {
        170
    } else if b == 99 {
        251
    } else if b == 100 {
        67
    } else if b == 101 {
        77
    } else if b == 102 {
        51
    } else if b == 103 {
        133
    } else if b == 104 {
        69
    } else if b == 105 {
        249
    } else if b == 106 {
        2
    } else if b == 107 {
        127
    } else if b == 108 {
        80
    } else if b == 109 {
        60
    } else if b == 110 {
        159
    } else if b == 111 {
        168
    } else if b == 112 {
        81
    } else if b == 113 {
        163
    } else if b == 114 {
        64
    } else if b == 115 {
        143
    } else if b == 116 {
        146
    } else if b == 117 {
        157
    } else if b == 118 {
        56
    } else if b == 119 {
        245
    } else if b == 120 {
        188
    } else if b == 121 {
        182
    } else if b == 122 {
        218
    } else if b == 123 {
        33
    } else if b == 124 {
        16
    } else if b == 125 {
        255
    } else if b == 126 {
        243
    } else if b == 127 {
        210
    } else if b == 128 {
        205
    } else if b == 129 {
        12
    } else if b == 130 {
        19
    } else if b == 131 {
        236
    } else if b == 132 {
        95
    } else if b == 133 {
        151
    } else if b == 134 {
        68
    } else if b == 135 {
        23
    } else if b == 136 {
        196
    } else if b == 137 {
        167
    } else if b == 138 {
        126
    } else if b == 139 {
        61
    } else if b == 140 {
        100
    } else if b == 141 {
        93
    } else if b == 142 {
        25
    } else if b == 143 {
        115
    } else if b == 144 {
        96
    } else if b == 145 {
        129
    } else if b == 146 {
        79
    } else if b == 147 {
        220
    } else if b == 148 {
        34
    } else if b == 149 {
        42
    } else if b == 150 {
        144
    } else if b == 151 {
        136
    } else if b == 152 {
        70
    } else if b == 153 {
        238
    } else if b == 154 {
        184
    } else if b == 155 {
        20
    } else if b == 156 {
        222
    } else if b == 157 {
        94
    } else if b == 158 {
        11
    } else if b == 159 {
        219
    } else if b == 160 {
        224
    } else if b == 161 {
        50
    } else if b == 162 {
        58
    } else if b == 163 {
        10
    } else if b == 164 {
        73
    } else if b == 165 {
        6
    } else if b == 166 {
        36
    } else if b == 167 {
        92
    } else if b == 168 {
        194
    } else if b == 169 {
        211
    } else if b == 170 {
        172
    } else if b == 171 {
        98
    } else if b == 172 {
        145
    } else if b == 173 {
        149
    } else if b == 174 {
        228
    } else if b == 175 {
        121
    } else if b == 176 {
        231
    } else if b == 177 {
        200
    } else if b == 178 {
        55
    } else if b == 179 {
        109
    } else if b == 180 {
        141
    } else if b == 181 {
        213
    } else if b == 182 {
        78
    } else if b == 183 {
        169
    } else if b == 184 {
        108
    } else if b == 185 {
        86
    } else if b == 186 {
        244
    } else if b == 187 {
        234
    } else if b == 188 {
        101
    } else if b == 189 {
        122
    } else if b == 190 {
        174
    } else if b == 191 {
        8
    } else if b == 192 {
        186
    } else if b == 193 {
        120
    } else if b == 194 {
        37
    } else if b == 195 {
        46
    } else if b == 196 {
        28
    } else if b == 197 {
        166
    } else if b == 198 {
        180
    } else if b == 199 {
        198
    } else if b == 200 {
        232
    } else if b == 201 {
        221
    } else if b == 202 {
        116
    } else if b == 203 {
        31
    } else if b == 204 {
        75
    } else if b == 205 {
        189
    } else if b == 206 {
        139
    } else if b == 207 {
        138
    } else if b == 208 {
        112
    } else if b == 209 {
        62
    } else if b == 210 {
        181
    } else if b == 211 {
        102
    } else if b == 212 {
        72
    } else if b == 213 {
        3
    } else if b == 214 {
        246
    } else if b == 215 {
        14
    } else if b == 216 {
        97
    } else if b == 217 {
        53
    } else if b == 218 {
        87
    } else if b == 219 {
        185
    } else if b == 220 {
        134
    } else if b == 221 {
        193
    } else if b == 222 {
        29
    } else if b == 223 {
        158
    } else if b == 224 {
        225
    } else if b == 225 {
        248
    } else if b == 226 {
        152
    } else if b == 227 {
        17
    } else if b == 228 {
        105
    } else if b == 229 {
        217
    } else if b == 230 {
        142
    } else if b == 231 {
        148
    } else if b == 232 {
        155
    } else if b == 233 {
        30
    } else if b == 234 {
        135
    } else if b == 235 {
        233
    } else if b == 236 {
        206
    } else if b == 237 {
        85
    } else if b == 238 {
        40
    } else if b == 239 {
        223
    } else if b == 240 {
        140
    } else if b == 241 {
        161
    } else if b == 242 {
        137
    } else if b == 243 {
        13
    } else if b == 244 {
        191
    } else if b == 245 {
        230
    } else if b == 246 {
        66
    } else if b == 247 {
        104
    } else if b == 248 {
        65
    } else if b == 249 {
        153
    } else if b == 250 {
        45
    } else if b == 251 {
        15
    } else if b == 252 {
        176
    } else if b == 253 {
        84
    } else if b == 254 {
        187
    } else {
        22
    }
}

/// The byte held in bit-sliced slot `p`: bit `i` of the byte is bit `p` of
/// word `i` of the state.
pub open spec fn slot_byte(s: Words, p: u32) -> u8 {
    (((s.w0 >> p) & 1) | (((s.w1 >> p) & 1) << 1) | (((s.w2 >> p) & 1) << 2) | (((s.w3 >> p) & 1) << 3) | (((s.w4 >> p) & 1) << 4) | (((s.w5 >> p) & 1) << 5) | (((s.w6 >> p) & 1) << 6) | (((s.w7 >> p) & 1) << 7)) as u8
}

/// In every one of the 32 bit-sliced slots, the circuit substitutes the
/// byte exactly as the AES (FIPS-197) S-box does, up to the fixed constant
/// 0x63: the S-box's four inverter gates are folded into the hard-coded
/// round-key schedule, as the key schedule's construction expects.
#[verifier::rlimit(100)]
pub proof fn lemma_sub_bytes_is_aes_sbox(s: Words, p: u32)
    requires
        p < 32,
    ensures
        slot_byte(spec_sub_bytes(s), p) == aes_sbox(slot_byte(s, p)) ^ 0x63,
{
    let a_u7: u32 = s.w0;
    let a_u6: u32 = s.w1;
    let a_u5: u32 = s.w2;
    let a_u4: u32 = s.w3;
    let a_u3: u32 = s.w4;
    let a_u2: u32 = s.w5;
    let a_u1: u32 = s.w6;
    let a_u0: u32 = s.w7;
    let a_y14: u32 = a_u3 ^ a_u5;
    let a_y13: u32 = a_u0 ^ a_u6;
    let a_y12: u32 = a_y13 ^ a_y14;
    let a_t1: u32 = a_u4 ^ a_y12;
    let a_y15: u32 = a_t1 ^ a_u5;
    let a_t2: u32 = a_y12 & a_y15;
    let a_y6: u32 = a_y15 ^ a_u7;
    let a_y20: u32 = a_t1 ^ a_u1;
    let a_y9: u32 = a_u0 ^ a_u3;
    let a_y11: u32 = a_y20 ^ a_y9;
    let a_t12: u32 = a_y9 & a_y11;
    let a_y7: u32 = a_u7 ^ a_y11;
    let a_y8: u32 = a_u0 ^ a_u5;
    let a_t0: u32 = a_u1 ^ a_u2;
    let a_y10: u32 = a_y15 ^ a_t0;
    let a_y17: u32 = a_y10 ^ a_y11;
    let a_t13: u32 = a_y14 & a_y17;
    let a_t14: u32 = a_t13 ^ a_t12;
    let a_y19: u32 = a_y10 ^ a_y8;
    let a_t15: u32 = a_y8 & a_y10;
    let a_t16: u32 = a_t15 ^ a_t12;
    let a_y16: u32 = a_t0 ^ a_y11;
    let a_y21: u32 = a_y13 ^ a_y16;
    let a_t7: u32 = a_y13 & a_y16;
    let a_y18: u32 = a_u0 ^ a_y16;
    let a_y1: u32 = a_t0 ^ a_u7;
    let a_y4: u32 = a_y1 ^ a_u3;
    let a_t5: u32 = a_y4 & a_u7;
    let a_t6: u32 = a_t5 ^ a_t2;
    let a_t18: u32 = a_t6 ^ a_t16;
    let a_t22: u32 = a_t18 ^ a_y19;
    let a_y2: u32 = a_y1 ^ a_u0;
    let a_t10: u32 = a_y2 & a_y7;
    let a_t11: u32 = a_t10 ^ a_t7;
    let a_t20: u32 = a_t11 ^ a_t16;
    let a_t24: u32 = a_t20 ^ a_y18;
    let a_y5: u32 = a_y1 ^ a_u6;
    let a_t8: u32 = a_y5 & a_y1;
    let a_t9: u32 = a_t8 ^ a_t7;
    let a_t19: u32 = a_t9 ^ a_t14;
    let a_t23: u32 = a_t19 ^ a_y21;
    let a_y3: u32 = a_y5 ^ a_y8;
    let a_t3: u32 = a_y3 & a_y6;
    let a_t4: u32 = a_t3 ^ a_t2;
    let a_t17: u32 = a_t4 ^ a_y20;
    let a_t21: u32 = a_t17 ^ a_t14;
    let a_t26: u32 = a_t21 & a_t23;
    let a_t27: u32 = a_t24 ^ a_t26;
    let a_t31: u32 = a_t22 ^ a_t26;
    let a_t25: u32 = a_t21 ^ a_t22;
    let a_t28: u32 = a_t25 & a_t27;
    let a_t29: u32 = a_t28 ^ a_t22;
    let a_z14: u32 = a_t29 & a_y2;
    let a_z5: u32 = a_t29 & a_y7;
    let a_t30: u32 = a_t23 ^ a_t24;
    let a_t32: u32 = a_t31 & a_t30;
    let a_t33: u32 = a_t32 ^ a_t24;
    let a_t35: u32 = a_t27 ^ a_t33;
    let a_t36: u32 = a_t24 & a_t35;
    let a_t38: u32 = a_t27 ^ a_t36;
    let a_t39: u32 = a_t29 & a_t38;
    let a_t40: u32 = a_t25 ^ a_t39;
    let a_t43: u32 = a_t29 ^ a_t40;
    let a_z3: u32 = a_t43 & a_y16;
    let a_tc12: u32 = a_z3 ^ a_z5;
    let a_z12: u32 = a_t43 & a_y13;
    let a_z13: u32 = a_t40 & a_y5;
    let a_z4: u32 = a_t40 & a_y1;
    let a_tc6: u32 = a_z3 ^ a_z4;
    let a_t34: u32 = a_t23 ^ a_t33;
    let a_t37: u32 = a_t36 ^ a_t34;
    let a_t41: u32 = a_t40 ^ a_t37;
    let a_z8: u32 = a_t41 & a_y10;
    let a_z17: u32 = a_t41 & a_y8;
    let a_t44: u32 = a_t33 ^ a_t37;
    let a_z0: u32 = a_t44 & a_y15;
    let a_z9: u32 = a_t44 & a_y12;
    let a_z10: u32 = a_t37 & a_y3;
    let a_z1: u32 = a_t37 & a_y6;
    let a_tc5: u32 = a_z1 ^ a_z0;
    let a_tc11: u32 = a_tc6 ^ a_tc5;
    let a_z11: u32 = a_t33 & a_y4;
    let a_t42: u32 = a_t29 ^ a_t33;
    let a_t45: u32 = a_t42 ^ a_t41;
    let a_z7: u32 = a_t45 & a_y17;
    let a_tc8: u32 = a_z7 ^ a_tc6;
    let a_z16: u32 = a_t45 & a_y14;
    let a_z6: u32 = a_t42 & a_y11;
    let a_tc16: u32 = a_z6 ^ a_tc8;
    let a_z15: u32 = a_t42 & a_y9;
    let a_tc20: u32 = a_z15 ^ a_tc16;
    let a_tc1: u32 = a_z15 ^ a_z16;
    let a_tc2: u32 = a_z10 ^ a_tc1;
    let a_tc21: u32 = a_tc2 ^ a_z11;
    let a_tc3: u32 = a_z9 ^ a_tc2;
    let a_s0: u32 = a_tc3 ^ a_tc16;
    let a_s3: u32 = a_tc3 ^ a_tc11;
    let a_s1: u32 = a_s3 ^ a_tc16;
    let a_tc13: u32 = a_z13 ^ a_tc1;
    let a_z2: u32 = a_t33 & a_u7;
    let a_tc4: u32 = a_z0 ^ a_z2;
    let a_tc7: u32 = a_z12 ^ a_tc4;
    let a_tc9: u32 = a_z8 ^ a_tc7;
    let a_tc10: u32 = a_tc8 ^ a_tc9;
    let a_tc17: u32 = a_z14 ^ a_tc10;
    let a_s5: u32 = a_tc21 ^ a_tc17;
    let a_tc26: u32 = a_tc17 ^ a_tc20;
    let a_s2: u32 = a_tc26 ^ a_z17;
    let a_tc14: u32 = a_tc4 ^ a_tc12;
    let a_tc18: u32 = a_tc13 ^ a_tc14;
    let a_s6: u32 = a_tc10 ^ a_tc18;
    let a_s7: u32 = a_z12 ^ a_tc18;
    let a_s4: u32 = a_tc14 ^ a_s3;
    assert(spec_sub_bytes(s) == (Words { w0: a_s7, w1: a_s6, w2: a_s5, w3: a_s4, w4: a_s3, w5: a_s2, w6: a_s1, w7: a_s0 }));
    assert((((a_s7 >> p) & 1) | (((a_s6 >> p) & 1) << 1) | (((a_s5 >> p) & 1) << 2) | (((a_s4 >> p) & 1) << 3) | (((a_s3 >> p) & 1) << 4) | (((a_s2 >> p) & 1) << 5) | (((a_s1 >> p) & 1) << 6) | (((a_s0 >> p) & 1) << 7)) as u8 == aes_sbox((((a_u7 >> p) & 1) | (((a_u6 >> p) & 1) << 1) | (((a_u5 >> p) & 1) << 2) | (((a_u4 >> p) & 1) << 3) | (((a_u3 >> p) & 1) << 4) | (((a_u2 >> p) & 1) << 5) | (((a_u1 >> p) & 1) << 6) | (((a_u0 >> p) & 1) << 7)) as u8) ^ 0x63) by (bit_vector)
        requires
            p < 32,
            a_y14 == a_u3 ^ a_u5,
            a_y13 == a_u0 ^ a_u6,
            a_y12 == a_y13 ^ a_y14,
            a_t1 == a_u4 ^ a_y12,
            a_y15 == a_t1 ^ a_u5,
            a_t2 == a_y12 & a_y15,
            a_y6 == a_y15 ^ a_u7,
            a_y20 == a_t1 ^ a_u1,
            a_y9 == a_u0 ^ a_u3,
            a_y11 == a_y20 ^ a_y9,
            a_t12 == a_y9 & a_y11,
            a_y7 == a_u7 ^ a_y11,
            a_y8 == a_u0 ^ a_u5,
            a_t0 == a_u1 ^ a_u2,
            a_y10 == a_y15 ^ a_t0,
            a_y17 == a_y10 ^ a_y11,
            a_t13 == a_y14 & a_y17,
            a_t14 == a_t13 ^ a_t12,
            a_y19 == a_y10 ^ a_y8,
            a_t15 == a_y8 & a_y10,
            a_t16 == a_t15 ^ a_t12,
            a_y16 == a_t0 ^ a_y11,
            a_y21 == a_y13 ^ a_y16,
            a_t7 == a_y13 & a_y16,
            a_y18 == a_u0 ^ a_y16,
            a_y1 == a_t0 ^ a_u7,
            a_y4 == a_y1 ^ a_u3,
            a_t5 == a_y4 & a_u7,
            a_t6 == a_t5 ^ a_t2,
            a_t18 == a_t6 ^ a_t16,
            a_t22 == a_t18 ^ a_y19,
            a_y2 == a_y1 ^ a_u0,
            a_t10 == a_y2 & a_y7,
            a_t11 == a_t10 ^ a_t7,
            a_t20 == a_t11 ^ a_t16,
            a_t24 == a_t20 ^ a_y18,
            a_y5 == a_y1 ^ a_u6,
            a_t8 == a_y5 & a_y1,
            a_t9 == a_t8 ^ a_t7,
            a_t19 == a_t9 ^ a_t14,
            a_t23 == a_t19 ^ a_y21,
            a_y3 == a_y5 ^ a_y8,
            a_t3 == a_y3 & a_y6,
            a_t4 == a_t3 ^ a_t2,
            a_t17 == a_t4 ^ a_y20,
            a_t21 == a_t17 ^ a_t14,
            a_t26 == a_t21 & a_t23,
            a_t27 == a_t24 ^ a_t26,
            a_t31 == a_t22 ^ a_t26,
            a_t25 == a_t21 ^ a_t22,
            a_t28 == a_t25 & a_t27,
            a_t29 == a_t28 ^ a_t22,
            a_z14 == a_t29 & a_y2,
            a_z5 == a_t29 & a_y7,
            a_t30 == a_t23 ^ a_t24,
            a_t32 == a_t31 & a_t30,
            a_t33 == a_t32 ^ a_t24,
            a_t35 == a_t27 ^ a_t33,
            a_t36 == a_t24 & a_t35,
            a_t38 == a_t27 ^ a_t36,
            a_t39 == a_t29 & a_t38,
            a_t40 == a_t25 ^ a_t39,
            a_t43 == a_t29 ^ a_t40,
            a_z3 == a_t43 & a_y16,
            a_tc12 == a_z3 ^ a_z5,
            a_z12 == a_t43 & a_y13,
            a_z13 == a_t40 & a_y5,
            a_z4 == a_t40 & a_y1,
            a_tc6 == a_z3 ^ a_z4,
            a_t34 == a_t23 ^ a_t33,
            a_t37 == a_t36 ^ a_t34,
            a_t41 == a_t40 ^ a_t37,
            a_z8 == a_t41 & a_y10,
            a_z17 == a_t41 & a_y8,
            a_t44 == a_t33 ^ a_t37,
            a_z0 == a_t44 & a_y15,
            a_z9 == a_t44 & a_y12,
            a_z10 == a_t37 & a_y3,
            a_z1 == a_t37 & a_y6,
            a_tc5 == a_z1 ^ a_z0,
            a_tc11 == a_tc6 ^ a_tc5,
            a_z11 == a_t33 & a_y4,
            a_t42 == a_t29 ^ a_t33,
            a_t45 == a_t42 ^ a_t41,
            a_z7 == a_t45 & a_y17,
            a_tc8 == a_z7 ^ a_tc6,
            a_z16 == a_t45 & a_y14,
            a_z6 == a_t42 & a_y11,
            a_tc16 == a_z6 ^ a_tc8,
            a_z15 == a_t42 & a_y9,
            a_tc20 == a_z15 ^ a_tc16,
            a_tc1 == a_z15 ^ a_z16,
            a_tc2 == a_z10 ^ a_tc1,
            a_tc21 == a_tc2 ^ a_z11,
            a_tc3 == a_z9 ^ a_tc2,
            a_s0 == a_tc3 ^ a_tc16,
            a_s3 == a_tc3 ^ a_tc11,
            a_s1 == a_s3 ^ a_tc16,
            a_tc13 == a_z13 ^ a_tc1,
            a_z2 == a_t33 & a_u7,
            a_tc4 == a_z0 ^ a_z2,
            a_tc7 == a_z12 ^ a_tc4,
            a_tc9 == a_z8 ^ a_tc7,
            a_tc10 == a_tc8 ^ a_tc9,
            a_tc17 == a_z14 ^ a_tc10,
            a_s5 == a_tc21 ^ a_tc17,
            a_tc26 == a_tc17 ^ a_tc20,
            a_s2 == a_tc26 ^ a_z17,
            a_tc14 == a_tc4 ^ a_tc12,
            a_tc18 == a_tc13 ^ a_tc14,
            a_s6 == a_tc10 ^ a_tc18,
            a_s7 == a_z12 ^ a_tc18,
            a_s4 == a_tc14 ^ a_s3,
    ;
}


} // verus!
