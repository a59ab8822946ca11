//! Field elements of the curve25519 scalar field, held in canonical 32-byte
//! little-endian form, together with the domain-separated hashing that turns
//! item labels into field elements (H1) and derives final keys (H2).
//!
//! The arithmetic itself is done by the curve library behind small trusted
//! wrappers; every wrapper's contract speaks about the little-endian value of
//! the canonical bytes, so everything built on top is verified against the
//! ordinary mathematics of integers modulo the group order.

use vstd::prelude::*;
use vstd::arithmetic::div_mod::*;
use vstd::arithmetic::power::*;
use vstd::arithmetic::mul::*;
use sha2::Digest;
use vstd::string::StringSliceAdditionalSpecFns;

verus! {

/// The order of the prime-order subgroup of curve25519,
/// 2^252 + 27742317777372353535851937790883648493.
pub open spec fn group_order() -> nat {
    vstd::arithmetic::power2::pow2(252) + 27742317777372353535851937790883648493nat
}

/// The little-endian value of a byte string.
pub open spec fn le_bytes_nat(s: Seq<u8>) -> nat
    decreases s.len(),
{
    if s.len() == 0 {
        0
    } else {
        (s[0] + 256 * le_bytes_nat(s.subrange(1, s.len() as int))) as nat
    }
}

/// The canonical `k`-byte little-endian encoding of `n`.
pub open spec fn le_bytes_of(n: nat, k: nat) -> Seq<u8>
    decreases k,
{
    if k == 0 {
        Seq::empty()
    } else {
        seq![(n % 256) as u8] + le_bytes_of(n / 256, (k - 1) as nat)
    }
}

pub proof fn lemma_le_bytes_of_len(n: nat, k: nat)
    ensures
        le_bytes_of(n, k).len() == k,
    decreases k,
{
    if k > 0 {
        lemma_le_bytes_of_len(n / 256, (k - 1) as nat);
    }
}

/// Encoding then decoding restores the value, for values that fit.
pub proof fn lemma_le_bytes_of_value(n: nat, k: nat)
    requires
        n < pow(256, k),
    ensures
        le_bytes_nat(le_bytes_of(n, k)) == n,
    decreases k,
{
    if k == 0 {
        reveal(pow);
        assert(n == 0);
    } else {
        let s = le_bytes_of(n, k);
        let tail = le_bytes_of(n / 256, (k - 1) as nat);
        lemma_le_bytes_of_len(n / 256, (k - 1) as nat);
        assert(s.subrange(1, s.len() as int) =~= tail);
        reveal(pow);
        assert(pow(256, k) == 256 * pow(256, (k - 1) as nat));
        assert(n / 256 < pow(256, (k - 1) as nat)) by {
            lemma_multiply_divide_lt(n as int, 256, pow(256, (k - 1) as nat) as int);
        }
        lemma_le_bytes_of_value(n / 256, (k - 1) as nat);
        lemma_fundamental_div_mod(n as int, 256);
    }
}

/// A byte string of zeros has value zero.
pub proof fn lemma_le_bytes_nat_zero(s: Seq<u8>)
    requires
        forall|i: int| 0 <= i < s.len() ==> s[i] == 0u8,
    ensures
        le_bytes_nat(s) == 0,
    decreases s.len(),
{
    if s.len() > 0 {
        lemma_le_bytes_nat_zero(s.subrange(1, s.len() as int));
    }
}

/// The little-endian value is bounded by 256 to the length.
pub proof fn lemma_le_bytes_nat_bound(s: Seq<u8>)
    ensures
        le_bytes_nat(s) < pow(256, s.len()),
    decreases s.len(),
{
    reveal(pow);
    if s.len() > 0 {
        lemma_le_bytes_nat_bound(s.subrange(1, s.len() as int));
        let t = le_bytes_nat(s.subrange(1, s.len() as int));
        assert(256 * t <= 256 * (pow(256, (s.len() - 1) as nat) - 1)) by {
            lemma_mul_inequality(t as int, pow(256, (s.len() - 1) as nat) - 1, 256);
        }
    }
}

/// Equal-length byte strings with the same little-endian value are equal.
pub proof fn lemma_le_bytes_nat_injective(s: Seq<u8>, t: Seq<u8>)
    requires
        s.len() == t.len(),
        le_bytes_nat(s) == le_bytes_nat(t),
    ensures
        s =~= t,
    decreases s.len(),
{
    if s.len() > 0 {
        let sv = le_bytes_nat(s.subrange(1, s.len() as int));
        let tv = le_bytes_nat(t.subrange(1, t.len() as int));
        assert(s[0] == le_bytes_nat(s) % 256 && sv == le_bytes_nat(s) / 256) by {
            lemma_fundamental_div_mod_converse(le_bytes_nat(s) as int, 256, sv as int, s[0] as int);
        }
        assert(t[0] == le_bytes_nat(t) % 256 && tv == le_bytes_nat(t) / 256) by {
            lemma_fundamental_div_mod_converse(le_bytes_nat(t) as int, 256, tv as int, t[0] as int);
        }
        lemma_le_bytes_nat_injective(s.subrange(1, s.len() as int), t.subrange(1, t.len() as int));
        assert forall|i: int| 0 <= i < s.len() implies s[i] == t[i] by {
            if i > 0 {
                assert(s[i] == s.subrange(1, s.len() as int)[i - 1]);
                assert(t[i] == t.subrange(1, t.len() as int)[i - 1]);
            }
        }
        assert(s =~= t);
    } else {
        assert(s =~= t);
    }
}

/// An element of the curve25519 scalar field in canonical little-endian form.
#[derive(Clone, Copy, PartialEq, Eq, Debug)]
pub struct Scalar {
    pub bytes: [u8; 32],
}

impl Scalar {
    /// The value of the element as an integer.
    pub open spec fn as_nat(&self) -> nat {
        le_bytes_nat(self.bytes@)
    }

    /// A well-formed element is reduced: its value is below the group order.
    pub open spec fn wf(&self) -> bool {
        self.as_nat() < group_order()
    }

    /// The canonical 32-byte little-endian encoding of the element.
    pub fn to_bytes(&self) -> (r: [u8; 32])
        ensures
            r@ == self.bytes@,
    {
        self.bytes
    }

    /// The zero element.
    pub fn zero() -> (r: Scalar)
        ensures
            r.wf(),
            r.as_nat() == 0,
    {
        let r = Scalar { bytes: [0u8; 32] };
        proof {
            lemma_le_bytes_nat_zero(r.bytes@);
        }
        r
    }

    /// The one element.
    pub fn one() -> (r: Scalar)
        ensures
            r.wf(),
            r.as_nat() == 1,
    {
        let mut bytes: [u8; 32] = [0u8; 32];
        bytes[0] = 1;
        let r = Scalar { bytes };
        proof {
            lemma_le_bytes_nat_zero(r.bytes@.subrange(1, 32));
            assert(r.as_nat() == 1);
            vstd::arithmetic::power2::lemma_pow2_pos(252);
        }
        r
    }

    /// Compares two elements; equal bytes mean equal values and conversely.
    pub fn equals(&self, other: &Scalar) -> (r: bool)
        ensures
            r <==> self.bytes@ =~= other.bytes@,
            r <==> self.as_nat() == other.as_nat(),
    {
        proof {
            if self.as_nat() == other.as_nat() {
                lemma_le_bytes_nat_injective(self.bytes@, other.bytes@);
            }
        }
        let mut i: usize = 0;
        while i < 32
            invariant
                i <= 32,
                forall|j: int| 0 <= j < i ==> self.bytes@[j] == other.bytes@[j],
            decreases 32 - i,
        {
            if self.bytes[i] != other.bytes[i] {
                proof {
                    assert(!(self.bytes@ =~= other.bytes@));
                    if self.as_nat() == other.as_nat() {
                        lemma_le_bytes_nat_injective(self.bytes@, other.bytes@);
                    }
                }
                return false;
            }
            i += 1;
        }
        assert(self.bytes@ =~= other.bytes@);
        true
    }
}

// ---------------------------------------------------------------------------
// Trusted wrappers around the curve library's scalar arithmetic
// ---------------------------------------------------------------------------

/// Relies on curve25519 `Scalar::from_bytes_mod_order` and `Scalar::to_bytes`:
/// the bytes are read as a 256-bit little-endian integer, reduced modulo the
/// group order, and written back in canonical form.
#[verifier::external_body]
pub fn scalar_reduce(b: &[u8; 32]) -> (r: Scalar)
    ensures
        r.wf(),
        r.as_nat() == le_bytes_nat(b@) % group_order(),
{
    let s = curve25519_elligator2::Scalar::from_bytes_mod_order(*b);
    Scalar { bytes: s.to_bytes() }
}

/// Relies on curve25519 `Scalar: From<u64>`: a 64-bit value embeds directly
/// into the field, since it is far below the group order.
#[verifier::external_body]
pub fn scalar_from_u64(x: u64) -> (r: Scalar)
    ensures
        r.wf(),
        r.as_nat() == x,
{
    let s = curve25519_elligator2::Scalar::from(x);
    Scalar { bytes: s.to_bytes() }
}

impl Scalar {
    /// Relies on curve25519 scalar addition: the sum of two reduced scalars,
    /// reduced modulo the group order.
    #[verifier::external_body]
    pub fn add(&self, other: &Scalar) -> (r: Scalar)
        requires
            self.wf(),
            other.wf(),
        ensures
            r.wf(),
            r.as_nat() == (self.as_nat() + other.as_nat()) % group_order(),
    {
        let a = curve25519_elligator2::Scalar::from_bytes_mod_order(self.bytes);
        let b = curve25519_elligator2::Scalar::from_bytes_mod_order(other.bytes);
        Scalar { bytes: (a + b).to_bytes() }
    }

    /// Relies on curve25519 scalar subtraction: the difference of two reduced
    /// scalars, reduced modulo the group order.
    #[verifier::external_body]
    pub fn sub(&self, other: &Scalar) -> (r: Scalar)
        requires
            self.wf(),
            other.wf(),
        ensures
            r.wf(),
            r.as_nat() == ((self.as_nat() + group_order() - other.as_nat()) % group_order() as int) as nat,
    {
        let a = curve25519_elligator2::Scalar::from_bytes_mod_order(self.bytes);
        let b = curve25519_elligator2::Scalar::from_bytes_mod_order(other.bytes);
        Scalar { bytes: (a - b).to_bytes() }
    }

    /// Relies on curve25519 scalar multiplication: the product of two reduced
    /// scalars, reduced modulo the group order.
    #[verifier::external_body]
    pub fn mul(&self, other: &Scalar) -> (r: Scalar)
        requires
            self.wf(),
            other.wf(),
        ensures
            r.wf(),
            r.as_nat() == (self.as_nat() * other.as_nat()) % group_order(),
    {
        let a = curve25519_elligator2::Scalar::from_bytes_mod_order(self.bytes);
        let b = curve25519_elligator2::Scalar::from_bytes_mod_order(other.bytes);
        Scalar { bytes: (a * b).to_bytes() }
    }

    /// Relies on curve25519 scalar negation: the additive inverse modulo the
    /// group order.
    #[verifier::external_body]
    pub fn neg(&self) -> (r: Scalar)
        requires
            self.wf(),
        ensures
            r.wf(),
            r.as_nat() == ((group_order() - self.as_nat()) % group_order() as int) as nat,
    {
        let a = curve25519_elligator2::Scalar::from_bytes_mod_order(self.bytes);
        Scalar { bytes: (-a).to_bytes() }
    }

    /// Relies on curve25519 `Scalar::invert`: for a nonzero reduced scalar it
    /// returns the multiplicative inverse modulo the (prime) group order.
    #[verifier::external_body]
    pub fn invert(&self) -> (r: Scalar)
        requires
            self.wf(),
        ensures
            r.wf(),
            self.as_nat() != 0 ==> (self.as_nat() * r.as_nat()) % group_order() == 1,
    {
        let a = curve25519_elligator2::Scalar::from_bytes_mod_order(self.bytes);
        Scalar { bytes: a.invert().to_bytes() }
    }
}

// ---------------------------------------------------------------------------
// Hashing
// ---------------------------------------------------------------------------

/// The SHA-256 digest of a byte string, named so that contracts can speak of
/// it; the digest itself is computed by the hash library.
pub uninterp spec fn sha256_of(data: Seq<u8>) -> Seq<u8>;

/// Relies on sha2 `Sha256`: the digest is a function of the input bytes
/// alone, and is 32 bytes long.
#[verifier::external_body]
pub fn sha256(data: &Vec<u8>) -> (r: [u8; 32])
    ensures
        r@ == sha256_of(data@),
{
    let mut hasher = sha2::Sha256::new();
    hasher.update(data.as_slice());
    let digest = hasher.finalize();
    digest.into()
}

/// The field element H1 hashes a label to: the SHA-256 digest of its UTF-8
/// bytes, read as a 256-bit little-endian integer and reduced modulo the
/// group order.
pub open spec fn h1_of(label: Seq<char>) -> nat {
    le_bytes_nat(sha256_of(vstd::utf8::encode_utf8(label))) % group_order()
}

/// The final key H2 derives from a label and a compressed point: the SHA-256
/// digest of their concatenation.
pub open spec fn h2_of(label_bytes: Seq<u8>, point_bytes: Seq<u8>) -> Seq<u8> {
    sha256_of(label_bytes + point_bytes)
}

/// Hashes the concatenation of the given byte strings with SHA-256.
pub fn hash(data: Vec<&[u8]>) -> (r: [u8; 32])
    ensures
        r@ == sha256_of(data@.map_values(|s: &[u8]| s@).flatten()),
{
    broadcast use vstd::seq_lib::group_seq_lib_default;

    let ghost all: Seq<Seq<u8>> = data@.map_values(|s: &[u8]| s@);
    let mut buf: Vec<u8> = Vec::new();
    let mut i: usize = 0;
    while i < data.len()
        invariant
            i <= data.len(),
            all == data@.map_values(|s: &[u8]| s@),
            buf@ == all.subrange(0, i as int).flatten(),
        decreases data.len() - i,
    {
        buf.extend_from_slice(data[i]);
        proof {
            assert(all.subrange(0, i + 1 as int).drop_last() =~= all.subrange(0, i as int));
            all.subrange(0, i + 1 as int).lemma_flatten_and_flatten_alt_are_equivalent();
            all.subrange(0, i as int).lemma_flatten_and_flatten_alt_are_equivalent();
        }
        i += 1;
    }
    proof {
        assert(all.subrange(0, data@.len() as int) =~= all);
    }
    sha256(&buf)
}

// ---------------------------------------------------------------------------
// Conversions between byte arrays, labels, and field elements
// ---------------------------------------------------------------------------

/// Reads each 32-byte buffer as a little-endian integer reduced modulo the
/// group order.
pub fn to_scalar(z: Vec<[u8; 32]>) -> (r: Vec<Scalar>)
    ensures
        r@.len() == z@.len(),
        forall|i: int|
            0 <= i < z@.len() ==> (#[trigger] r@[i]).wf() && r@[i].as_nat() == le_bytes_nat(
                z@[i]@,
            ) % group_order(),
{
    let mut r: Vec<Scalar> = Vec::new();
    let mut i: usize = 0;
    while i < z.len()
        invariant
            i <= z.len(),
            r@.len() == i,
            forall|j: int|
                0 <= j < i ==> (#[trigger] r@[j]).wf() && r@[j].as_nat() == le_bytes_nat(
                    z@[j]@,
                ) % group_order(),
        decreases z.len() - i,
    {
        r.push(scalar_reduce(&z[i]));
        i += 1;
    }
    r
}

/// Hashes each label with H1 to produce a field element per item.
pub fn string_to_scalar(z: &Vec<String>) -> (r: Vec<Scalar>)
    ensures
        r@.len() == z@.len(),
        forall|i: int|
            0 <= i < z@.len() ==> (#[trigger] r@[i]).wf() && r@[i].as_nat() == h1_of(
                z@[i]@,
            ),
{
    let mut r: Vec<Scalar> = Vec::new();
    let mut i: usize = 0;
    while i < z.len()
        invariant
            i <= z.len(),
            r@.len() == i,
            forall|j: int|
                0 <= j < i ==> (#[trigger] r@[j]).wf() && r@[j].as_nat() == h1_of(
                    z@[j]@,
                ),
        decreases z.len() - i,
    {
        let mut buf: Vec<u8> = Vec::new();
        buf.extend_from_slice(z[i].as_str().as_bytes());
        assert(buf@ =~= vstd::utf8::encode_utf8(z@[i as int]@));
        let digest = sha256(&buf);
        r.push(scalar_reduce(&digest));
        i += 1;
    }
    r
}

/// Writes each field element back as its canonical 32-byte encoding.
pub fn to_byte_array(scalars: Vec<Scalar>) -> (r: Vec<[u8; 32]>)
    ensures
        r@.len() == scalars@.len(),
        forall|i: int| 0 <= i < scalars@.len() ==> (#[trigger] r@[i])@ == scalars@[i].bytes@,
{
    let mut r: Vec<[u8; 32]> = Vec::new();
    let mut i: usize = 0;
    while i < scalars.len()
        invariant
            i <= scalars.len(),
            r@.len() == i,
            forall|j: int| 0 <= j < i ==> (#[trigger] r@[j])@ == scalars@[j].bytes@,
        decreases scalars.len() - i,
    {
        r.push(scalars[i].to_bytes());
        i += 1;
    }
    r
}

/// Converting bytes to a field element and back is the identity whenever the
/// bytes already encode a value below the group order; together with the
/// contracts of `to_scalar` and `to_byte_array` this is the byte/scalar
/// round trip.
pub proof fn lemma_scalar_bytes_round_trip(s: Scalar, b: Seq<u8>)
    requires
        b.len() == 32,
        le_bytes_nat(b) < group_order(),
        s.as_nat() == le_bytes_nat(b) % group_order(),
    ensures
        s.bytes@ == b,
{
    lemma_small_mod(le_bytes_nat(b), group_order());
    lemma_le_bytes_nat_injective(s.bytes@, b);
}

/// A well-formed element is exactly the canonical encoding of its value.
pub proof fn lemma_scalar_canonical(s: Scalar)
    requires
        s.wf(),
    ensures
        s.bytes@ == le_bytes_of(s.as_nat(), 32),
{
    lemma_le_bytes_nat_bound(s.bytes@);
    lemma_le_bytes_of_len(s.as_nat(), 32);
    lemma_le_bytes_of_value(s.as_nat(), 32);
    lemma_le_bytes_nat_injective(s.bytes@, le_bytes_of(s.as_nat(), 32));
}

} // verus!
