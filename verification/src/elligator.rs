//! The curve-representative mapping: an Elligator2-style bijection between
//! curve points and uniform-looking 32-byte strings, together with ephemeral
//! key sampling.
//!
//! The curve arithmetic itself is done by the curve library behind trusted
//! wrappers.  A point is carried together with its compressed encoding — the
//! u-coordinate (Montgomery) form, so that both parties derive the same
//! bytes for a shared point regardless of Edwards sign conventions — and
//! each wrapper's contract relates the encodings through named functions of
//! the byte strings involved.

use vstd::prelude::*;
use rand::RngCore;
use crate::Error;

verus! {

#[verifier::external_type_specification]
#[verifier::external_body]
pub struct ExEdwardsPoint(curve25519_elligator2::edwards::EdwardsPoint);

/// The representative that the curve library derives from a private key and
/// a tweak, when one exists; a function of the two arguments alone.
pub uninterp spec fn repr_of(key: Seq<u8>, tweak: u8) -> Option<Seq<u8>>;

/// The compressed point that a representative decodes to, when it decodes;
/// a function of the representative alone.
pub uninterp spec fn point_of_repr(rep: Seq<u8>) -> Option<Seq<u8>>;

/// The compressed product of a point with the given encoding and the
/// clamping of the given key bytes.  The u-coordinate encoding identifies a
/// point up to negation, and scalar multiplication commutes with negation,
/// so the product's encoding is a function of the two arguments alone.
pub uninterp spec fn mul_clamped_of(point: Seq<u8>, key: Seq<u8>) -> Seq<u8>;

/// The compressed public-key point the curve library derives from a private
/// key.
pub uninterp spec fn pubkey_of(key: Seq<u8>) -> Seq<u8>;

/// A point on the curve, carried together with its compressed encoding: the
/// 32-byte u-coordinate (Montgomery) form, which both protocol parties
/// derive identically whichever of the two Edwards preimages they hold.
pub struct CurvePoint {
    point: curve25519_elligator2::edwards::EdwardsPoint,
    encoded: [u8; 32],
}

impl CurvePoint {
    /// The compressed encoding of the point.
    pub closed spec fn repr_bytes(&self) -> Seq<u8> {
        self.encoded@
    }

    /// Relies on curve25519 `EdwardsPoint::mul_clamped` together with
    /// `EdwardsPoint::to_montgomery`: multiplication by the clamped key,
    /// encoded by the u-coordinate; a function of the point's own encoding
    /// and the key bytes alone.
    #[verifier::external_body]
    pub fn mul_clamped(&self, key: &[u8; 32]) -> (r: CurvePoint)
        ensures
            r.repr_bytes() == mul_clamped_of(self.repr_bytes(), key@),
    {
        let point = self.point.mul_clamped(*key);
        CurvePoint { encoded: point.to_montgomery().to_bytes(), point }
    }

    /// The canonical 32-byte encoding of the point.
    pub fn compress(&self) -> (r: [u8; 32])
        ensures
            r@ == self.repr_bytes(),
    {
        self.encoded
    }
}

/// Relies on elligator2 `Randomized::mul_base_clamped` together with
/// `EdwardsPoint::to_montgomery`: the public-key point of a private key
/// under this mapping variant, encoded by the u-coordinate.
#[verifier::external_body]
pub fn mul_base_clamped(key: &[u8; 32]) -> (r: CurvePoint)
    ensures
        r.repr_bytes() == pubkey_of(key@),
{
    let point = <curve25519_elligator2::Randomized as curve25519_elligator2::MapToPointVariant>::mul_base_clamped(
        *key,
    );
    CurvePoint { encoded: point.to_montgomery().to_bytes(), point }
}

/// Relies on elligator2 `Randomized::to_representative`: a deterministic
/// function of the key and the tweak, defined for the keys whose public
/// point has a representative; the representative it returns decodes back
/// to the key's public point (`from_representative` inverts it).
#[verifier::external_body]
fn to_representative_raw(key: &[u8; 32], tweak: u8) -> (r: Option<[u8; 32]>)
    ensures
        r is Some <==> repr_of(key@, tweak) is Some,
        r matches Some(rep) ==> rep@ == repr_of(key@, tweak).unwrap(),
        r matches Some(rep) ==> point_of_repr(rep@) == Some(pubkey_of(key@)),
{
    let o: Option<[u8; 32]> = <curve25519_elligator2::Randomized as curve25519_elligator2::MapToPointVariant>::to_representative(
        key,
        tweak,
    ).into();
    o
}

/// Relies on elligator2 `Randomized::from_representative`: a deterministic
/// function of the representative bytes alone, and total — it maps every
/// 32-byte string to a point (the two tweak bits are cleared first).
#[verifier::external_body]
fn from_representative_raw(rep: &[u8; 32]) -> (r: Option<CurvePoint>)
    ensures
        r is Some,
        r is Some <==> point_of_repr(rep@) is Some,
        r matches Some(p) ==> p.repr_bytes() == point_of_repr(rep@).unwrap(),
{
    let o: Option<curve25519_elligator2::edwards::EdwardsPoint> = <curve25519_elligator2::Randomized as curve25519_elligator2::MapToPointVariant>::from_representative(
        rep,
    ).into();
    match o {
        Some(point) => Some(CurvePoint { encoded: point.to_montgomery().to_bytes(), point }),
        None => None,
    }
}

/// Relies on rand `thread_rng` and `fill_bytes`: a fresh 32-byte value;
/// nothing is promised of its contents.
#[verifier::external_body]
fn random_bytes() -> (r: [u8; 32]) {
    let mut b = [0u8; 32];
    rand::thread_rng().fill_bytes(&mut b);
    b
}

/// Relies on rand `thread_rng` and `next_u32`: a fresh byte; nothing is
/// promised of its value.
#[verifier::external_body]
fn random_tweak() -> (r: u8) {
    rand::thread_rng().next_u32() as u8
}

/// The deterministic forward map: the representative of a private key under
/// the given tweak, or `BadScalar` when the key has none.
pub fn inverse_map(privkeyshare: [u8; 32], tweak: u8) -> (r: Result<[u8; 32], Error>)
    ensures
        r is Ok <==> repr_of(privkeyshare@, tweak) is Some,
        r matches Ok(m) ==> m@ == repr_of(privkeyshare@, tweak).unwrap() && point_of_repr(m@)
            == Some(pubkey_of(privkeyshare@)),
        r is Err ==> r == Err::<[u8; 32], Error>(Error::BadScalar),
{
    match to_representative_raw(&privkeyshare, tweak) {
        Some(m) => Ok(m),
        None => Err(Error::BadScalar),
    }
}

/// The inverse map: the curve point a representative decodes to, or
/// `BadRepresentative` when it does not decode.  With this curve library the
/// decoding is total, so the call always succeeds.
pub fn map(rep: [u8; 32]) -> (r: Result<CurvePoint, Error>)
    ensures
        r is Ok,
        r is Ok <==> point_of_repr(rep@) is Some,
        r matches Ok(p) ==> p.repr_bytes() == point_of_repr(rep@).unwrap(),
        r is Err ==> r == Err::<CurvePoint, Error>(Error::BadRepresentative),
{
    match from_representative_raw(&rep) {
        Some(p) => Ok(p),
        None => Err(Error::BadRepresentative),
    }
}

/// Samples an ephemeral private key and tweak whose representative exists,
/// drawing fresh keys up to a fixed retry bound; a failure to find one
/// within the bound signals a broken randomness source.
pub fn key_from_rng() -> (r: Result<([u8; 32], u8), Error>)
    ensures
        r matches Ok(kt) ==> repr_of(kt.0@, kt.1) is Some,
        r is Err ==> r == Err::<([u8; 32], u8), Error>(Error::RepresentationExhausted),
{
    let tweak = random_tweak();
    let mut tries: usize = 0;
    while tries < 64
        invariant
            tries <= 64,
        decreases 64 - tries,
    {
        let key = random_bytes();
        let found = to_representative_raw(&key, tweak);
        if found.is_some() {
            return Ok((key, tweak));
        }
        tries += 1;
    }
    Err(Error::RepresentationExhausted)
}

} // verus!
