//! The protocol state machine: a Sender holding set X and a Receiver holding
//! set Y, each advancing through two rounds.
//!
//! Control flow is Sender round one (a representative `m`), Receiver round
//! one (two polynomials), Sender round two (a shuffled key set), Receiver
//! round two (the intersection, disclosed only to the Receiver).

use vstd::prelude::*;
use vstd::seq_lib::group_seq_lib_default;
use crate::scalar::{
    group_order, h1_of, h2_of, hash, le_bytes_nat, le_bytes_of, lemma_scalar_canonical,
    lemma_le_bytes_of_len, scalar_from_u64, string_to_scalar, to_byte_array, to_scalar, Scalar,
};
use crate::poly::{all_wf, distinct_nats, nats_of, poly_eval, recover_pri_poly, Poly};
use crate::elligator::{
    key_from_rng, inverse_map, mul_clamped_of, point_of_repr, pubkey_of, repr_of,
};
use crate::permutation::{inverse_permute, permute, spec_inverse_permute, spec_permute};
use crate::Error;
use rand::seq::SliceRandom;

verus! {

/// The role a party plays in the protocol.
#[derive(Debug, PartialEq, Eq, Structural, Clone, Copy)]
pub enum Partytype {
    Sender,
    Receiver,
}

/// How far a party has advanced through its rounds.
#[derive(Debug, PartialEq, Eq, Structural, Clone, Copy)]
pub enum Stage {
    Created,
    Round1Done,
    Round2Done,
}

/// One protocol participant: its set, its role, its ephemeral key shares,
/// and its position in the round sequence.
pub struct Party {
    pub set: Vec<String>,
    pub party_type: Partytype,
    pub privkeyshare: Vec<[u8; 32]>,
    pub stage: Stage,
}

// ---------------------------------------------------------------------------
// Specification helpers
// ---------------------------------------------------------------------------

/// The little-endian values of a sequence of coefficient encodings.
pub open spec fn coeff_nats(c: Seq<[u8; 32]>) -> Seq<nat> {
    c.map_values(|a: [u8; 32]| le_bytes_nat(a@))
}

/// The H1 values of a set of labels, in set order.
pub open spec fn h1_seq(set: Seq<String>) -> Seq<nat> {
    Seq::new(set.len(), |i: int| h1_of(set[i]@))
}

/// The body values of a sequence of un-permuted representatives: each read
/// as a little-endian integer and reduced modulo the group order.
pub open spec fn body_seq(fs: Seq<[u8; 32]>) -> Seq<nat> {
    Seq::new(fs.len(), |i: int| le_bytes_nat(fs[i]@) % group_order())
}

/// One receiver sample: the key has a representative under tweak `t`, whose
/// un-permuted bytes split into a body (top byte zeroed) and an extra byte.
pub open spec fn recv1_sample_ok(key: Seq<u8>, t: u8, f: Seq<u8>, extra: nat) -> bool {
    &&& repr_of(key, t) is Some
    &&& f == spec_inverse_permute(repr_of(key, t).unwrap()).update(31, 0u8)
    &&& extra == spec_inverse_permute(repr_of(key, t).unwrap())[31] as nat
}

/// The receiver's first round is faithful for one item: for some tweak, the
/// stored key share's representative splits into a body interpolated by the
/// first polynomial at the item's hash, and an extra byte interpolated by
/// the second polynomial at the body.
pub open spec fn recv1_item_ok(
    label: Seq<char>,
    key: Seq<u8>,
    t: u8,
    c1: Seq<nat>,
    c2: Seq<nat>,
) -> bool {
    &&& repr_of(key, t) is Some
    &&& {
        let f = spec_inverse_permute(repr_of(key, t).unwrap());
        let body = le_bytes_nat(f.update(31, 0u8)) % group_order();
        let extra = f[31] as nat;
        poly_eval(c1, h1_of(label)) == body && poly_eval(c2, body) == extra
    }
}

/// The receiver's first round is faithful for every item of the set, under
/// one tweak per item.
pub open spec fn recv1_all_ok(
    set: Seq<String>,
    keys: Seq<[u8; 32]>,
    tweaks: Seq<u8>,
    c1: Seq<[u8; 32]>,
    c2: Seq<[u8; 32]>,
) -> bool {
    &&& tweaks.len() == set.len()
    &&& forall|i: int|
        #![trigger set[i]]
        0 <= i < set.len() ==> recv1_item_ok(
            set[i]@,
            keys[i]@,
            tweaks[i],
            coeff_nats(c1),
            coeff_nats(c2),
        )
}

/// The key the sender derives for one of its labels, when the evaluated
/// polynomials land on a representative that decodes to a point.
pub open spec fn sender_item_key(
    c1: Seq<nat>,
    c2: Seq<nat>,
    a: Seq<u8>,
    label: Seq<char>,
) -> Option<Seq<u8>> {
    let fx = poly_eval(c1, h1_of(label));
    let fxx = poly_eval(c2, fx);
    let rec = le_bytes_of(fx, 32).update(31, (fxx % 256) as u8);
    let rep = spec_permute(rec);
    match point_of_repr(rep) {
        Some(pb) => Some(h2_of(vstd::utf8::encode_utf8(label), mul_clamped_of(pb, a))),
        None => None,
    }
}

/// The keys the sender derives for its whole set, in set order, keeping only
/// the items whose evaluation decodes to a point.
pub open spec fn sender_keys_of(
    set: Seq<String>,
    c1: Seq<nat>,
    c2: Seq<nat>,
    a: Seq<u8>,
) -> Seq<Seq<u8>>
    decreases set.len(),
{
    if set.len() == 0 {
        Seq::empty()
    } else {
        let rest = sender_keys_of(set.drop_last(), c1, c2, a);
        match sender_item_key(c1, c2, a, set.last()@) {
            Some(kb) => rest.push(kb),
            None => rest,
        }
    }
}

/// The hash the receiver derives for one item from the sender's message.
pub open spec fn recv2_hash(label: Seq<char>, key: Seq<u8>, mp: Seq<u8>) -> Seq<u8> {
    h2_of(vstd::utf8::encode_utf8(label), mul_clamped_of(mp, key))
}

/// Whether the key set contains the given 32 bytes.
pub open spec fn contains_bytes(kset: Seq<[u8; 32]>, h: Seq<u8>) -> bool {
    exists|j: int| 0 <= j < kset.len() && (#[trigger] kset[j])@ == h
}

/// The items of the receiver's set whose derived hash appears in the key
/// set, in set order.
pub open spec fn recv2_selected(
    set: Seq<String>,
    keys: Seq<[u8; 32]>,
    kset: Seq<[u8; 32]>,
    mp: Seq<u8>,
) -> Seq<String>
    decreases set.len(),
{
    if set.len() == 0 {
        Seq::empty()
    } else {
        let rest = recv2_selected(set.drop_last(), keys, kset, mp);
        if contains_bytes(kset, recv2_hash(set.last()@, keys[set.len() - 1]@, mp)) {
            rest.push(set.last())
        } else {
            rest
        }
    }
}

// ---------------------------------------------------------------------------
// Trusted shuffling
// ---------------------------------------------------------------------------

/// Relies on rand `SliceRandom::shuffle`: the elements are permuted in
/// place; which permutation comes out is not promised.
#[verifier::external_body]
fn shuffle_keys(k: &mut Vec<[u8; 32]>)
    ensures
        final(k)@.len() == old(k)@.len(),
        final(k)@.to_multiset() == old(k)@.to_multiset(),
        final(k)@.map_values(|b: [u8; 32]| b@).to_multiset() == old(k)@.map_values(
            |b: [u8; 32]| b@,
        ).to_multiset(),
{
    k.as_mut_slice().shuffle(&mut rand::thread_rng());
}

// ---------------------------------------------------------------------------
// Small executable helpers
// ---------------------------------------------------------------------------

/// Compares two 32-byte strings.
fn bytes32_eq(a: &[u8; 32], b: &[u8; 32]) -> (r: bool)
    ensures
        r <==> a@ =~= b@,
{
    let mut i: usize = 0;
    while i < 32
        invariant
            i <= 32,
            forall|j: int| 0 <= j < i ==> a@[j] == b@[j],
        decreases 32 - i,
    {
        if a[i] != b[i] {
            return false;
        }
        i += 1;
    }
    assert(a@ =~= b@);
    true
}

/// Whether the key set contains the given hash.
fn contains_key(kset: &Vec<[u8; 32]>, h: &[u8; 32]) -> (r: bool)
    ensures
        r <==> contains_bytes(kset@, h@),
{
    let mut i: usize = 0;
    while i < kset.len()
        invariant
            i <= kset@.len(),
            forall|j: int| 0 <= j < i ==> (#[trigger] kset@[j])@ != h@,
        decreases kset@.len() - i,
    {
        if bytes32_eq(&kset[i], h) {
            return true;
        }
        i += 1;
    }
    false
}

/// The H2 hash of a label and a compressed point.
fn final_key(label: &String, point_bytes: &[u8; 32]) -> (r: [u8; 32])
    ensures
        r@ == h2_of(vstd::utf8::encode_utf8(label@), point_bytes@),
{
    broadcast use group_seq_lib_default;

    let lb: &[u8] = label.as_str().as_bytes();
    let pb: &[u8] = point_bytes.as_slice();
    let mut data: Vec<&[u8]> = Vec::new();
    data.push(lb);
    data.push(pb);
    let r = hash(data);
    proof {
        assert(data@ =~= seq![lb, pb]);
        let views = seq![lb@, pb@];
        assert(seq![lb, pb].map_values(|s: &[u8]| s@) =~= views);
        assert(views.drop_first() =~= seq![pb@]);
        assert(seq![pb@].drop_first() =~= Seq::<Seq<u8>>::empty());
        assert(views.flatten() == lb@ + (seq![pb@]).flatten());
        assert((seq![pb@]).flatten() == pb@ + Seq::<Seq<u8>>::empty().flatten());
        assert(views.flatten() =~= lb@ + pb@);
    }
    r
}

// ---------------------------------------------------------------------------
// The party and its rounds
// ---------------------------------------------------------------------------

impl Party {
    /// Creates a party in its initial stage, with an all-zero placeholder in
    /// place of a key share; no round has run yet.
    pub fn new(list: Vec<String>, party_type: Partytype) -> (r: Party)
        ensures
            r.set == list,
            r.party_type == party_type,
            r.privkeyshare@.len() == 1,
            r.privkeyshare@[0]@ =~= Seq::new(32, |i: int| 0u8),
            r.stage == Stage::Created,
    {
        Party { set: list, party_type, privkeyshare: vec![[0u8; 32]], stage: Stage::Created }
    }

    /// The sender's first round: samples one ephemeral scalar and tweak,
    /// stores the scalar as its key share, and returns the representative.
    pub fn send_round1(&mut self) -> (r: Result<[u8; 32], Error>)
        ensures
            !(old(self).party_type == Partytype::Sender && old(self).stage == Stage::Created)
                <==> r == Err::<[u8; 32], Error>(Error::InvalidState),
            r is Err ==> *final(self) == *old(self) && (r == Err::<[u8; 32], Error>(
                Error::InvalidState,
            ) || r == Err::<[u8; 32], Error>(Error::RepresentationExhausted)),
            r matches Ok(m) ==> {
                &&& final(self).set == old(self).set
                &&& final(self).party_type == old(self).party_type
                &&& final(self).stage == Stage::Round1Done
                &&& final(self).privkeyshare@.len() == 1
                &&& exists|t: u8| #[trigger] repr_of(final(self).privkeyshare@[0]@, t) == Some(m@)
                &&& point_of_repr(m@) == Some(pubkey_of(final(self).privkeyshare@[0]@))
            },
    {
        if !(matches!(self.party_type, Partytype::Sender) && matches!(self.stage, Stage::Created)) {
            return Err(Error::InvalidState);
        }
        let (key, tweak) = match key_from_rng() {
            Ok(kt) => kt,
            Err(_) => {
                return Err(Error::RepresentationExhausted);
            },
        };
        match inverse_map(key, tweak) {
            Ok(m) => {
                self.privkeyshare = vec![key];
                self.stage = Stage::Round1Done;
                proof {
                    assert(repr_of(key@, tweak) == Some(m@));
                }
                Ok(m)
            },
            Err(_) => {
                proof {
                    assert(false);
                }
                Err(Error::BadScalar)
            },
        }
    }

    /// The receiver's first round: samples an ephemeral scalar per item,
    /// stores them index-aligned with the set, and interpolates the two
    /// polynomials over the un-permuted representatives.
    pub fn recv_round1(&mut self) -> (r: Result<(Vec<[u8; 32]>, Vec<[u8; 32]>), Error>)
        requires
            old(self).set@.len() + 2 <= usize::MAX,
        ensures
            !(old(self).party_type == Partytype::Receiver && old(self).stage == Stage::Created)
                <==> r == Err::<(Vec<[u8; 32]>, Vec<[u8; 32]>), Error>(Error::InvalidState),
            r is Err ==> *final(self) == *old(self),
            (old(self).party_type == Partytype::Receiver && old(self).stage == Stage::Created
                && old(self).set@.len() == 0) <==> r == Err::<(Vec<[u8; 32]>, Vec<[u8; 32]>), Error>(
                Error::EmptyInput,
            ),
            r is Err ==> (r == Err::<(Vec<[u8; 32]>, Vec<[u8; 32]>), Error>(Error::InvalidState)
                || r == Err::<(Vec<[u8; 32]>, Vec<[u8; 32]>), Error>(Error::EmptyInput) || r
                == Err::<(Vec<[u8; 32]>, Vec<[u8; 32]>), Error>(Error::RepresentationExhausted)
                || r == Err::<(Vec<[u8; 32]>, Vec<[u8; 32]>), Error>(Error::DuplicateAbscissa)),
            (old(self).party_type == Partytype::Receiver && old(self).stage == Stage::Created
                && old(self).set@.len() > 0 && !distinct_nats(h1_seq(old(self).set@))) ==> r
                == Err::<(Vec<[u8; 32]>, Vec<[u8; 32]>), Error>(Error::DuplicateAbscissa),
            r matches Ok(polys) ==> {
                &&& final(self).set == old(self).set
                &&& final(self).party_type == old(self).party_type
                &&& final(self).stage == Stage::Round1Done
                &&& final(self).privkeyshare@.len() == old(self).set@.len()
                &&& distinct_nats(h1_seq(old(self).set@))
                &&& polys.0@.len() <= old(self).set@.len()
                &&& polys.1@.len() <= old(self).set@.len()
                &&& exists|tw: Seq<u8>|
                    #[trigger] recv1_all_ok(
                        old(self).set@,
                        final(self).privkeyshare@,
                        tw,
                        polys.0@,
                        polys.1@,
                    )
            },
    {
        if !(matches!(self.party_type, Partytype::Receiver) && matches!(
            self.stage,
            Stage::Created,
        )) {
            return Err(Error::InvalidState);
        }
        let n = self.set.len();
        if n == 0 {
            return Err(Error::EmptyInput);
        }
        // duplicate item hashes abort deterministically, before any sampling
        let hashed = string_to_scalar(&self.set);
        proof {
            assert(nats_of(hashed@) =~= h1_seq(self.set@));
        }
        if !crate::poly::distinct_scalars(&hashed) {
            return Err(Error::DuplicateAbscissa);
        }
        let mut keys: Vec<[u8; 32]> = Vec::new();
        let mut fs: Vec<[u8; 32]> = Vec::new();
        let mut extras: Vec<Scalar> = Vec::new();
        let ghost mut tweaks: Seq<u8> = Seq::empty();
        let mut i: usize = 0;
        while i < n
            invariant
                *self == *old(self),
                old(self).party_type == Partytype::Receiver,
                old(self).stage == Stage::Created,
                n == old(self).set@.len(),
                n > 0,
                distinct_nats(h1_seq(old(self).set@)),
                i <= n,
                n == self.set@.len(),
                keys@.len() == i,
                fs@.len() == i,
                extras@.len() == i,
                tweaks.len() == i,
                forall|j: int| 0 <= j < i ==> (#[trigger] extras@[j]).wf(),
                forall|j: int|
                    0 <= j < i ==> #[trigger] recv1_sample_ok(
                        keys@[j]@,
                        tweaks[j],
                        fs@[j]@,
                        extras@[j].as_nat(),
                    ),
            decreases n - i,
        {
            let (key, tweak) = match key_from_rng() {
                Ok(kt) => kt,
                Err(_) => {
                    return Err(Error::RepresentationExhausted);
                },
            };
            let m = match inverse_map(key, tweak) {
                Ok(m) => m,
                Err(_) => {
                    proof {
                        assert(false);
                    }
                    return Err(Error::RepresentationExhausted);
                },
            };
            let mut f = inverse_permute(m);
            let extra = scalar_from_u64(f[31] as u64);
            f[31] = 0;
            let ghost pk = keys@;
            let ghost pf = fs@;
            let ghost pe = extras@;
            keys.push(key);
            fs.push(f);
            extras.push(extra);
            proof {
                tweaks = tweaks.push(tweak);
                assert forall|j: int| 0 <= j < i + 1 implies #[trigger] recv1_sample_ok(
                    keys@[j]@,
                    tweaks[j],
                    fs@[j]@,
                    extras@[j].as_nat(),
                ) by {
                    if j == i {
                        assert(keys@[j]@ == key@);
                        assert(fs@[j]@ == f@);
                        assert(extras@[j] == extra);
                        assert(recv1_sample_ok(keys@[j]@, tweak, fs@[j]@, extras@[j].as_nat()));
                    } else {
                        assert(recv1_sample_ok(pk[j]@, tweaks[j], pf[j]@, pe[j].as_nat()));
                        assert(keys@[j] == pk[j] && fs@[j] == pf[j] && extras@[j] == pe[j]);
                    }
                }
            }
            i += 1;
        }
        let ghost keysv = keys@;
        let ghost fsv = fs@;
        let ghost extrasv = extras@;
        let ghost tweaksv = tweaks;
        let polys = match build_round1_polys(&self.set, &fs, extras) {
            Ok(p) => p,
            Err(_) => {
                return Err(Error::DuplicateAbscissa);
            },
        };
        self.privkeyshare = keys;
        self.stage = Stage::Round1Done;
        proof {
            assert forall|i0: int|
                #![trigger old(self).set@[i0]]
                0 <= i0 < old(self).set@.len() implies recv1_item_ok(
                old(self).set@[i0]@,
                self.privkeyshare@[i0]@,
                tweaksv[i0],
                coeff_nats(polys.0@),
                coeff_nats(polys.1@),
            ) by {
                let t = tweaksv[i0];
                assert(recv1_sample_ok(keysv[i0]@, t, fsv[i0]@, extrasv[i0].as_nat()));
                assert(self.privkeyshare@[i0] == keysv[i0]);
                assert(poly_eval(coeff_nats(polys.0@), h1_of(old(self).set@[i0]@))
                    == le_bytes_nat(fsv[i0]@) % group_order());
                assert(poly_eval(coeff_nats(polys.1@), le_bytes_nat(fsv[i0]@) % group_order())
                    == extrasv[i0].as_nat());
            }
            assert(recv1_all_ok(
                old(self).set@,
                self.privkeyshare@,
                tweaksv,
                polys.0@,
                polys.1@,
            ));
        }
        Ok(polys)
    }

    /// The sender's second round: evaluates the receiver's polynomials at
    /// each of its own items, reconstructs and re-permutes the representative
    /// bytes, derives one key per item that decodes to a point, and returns
    /// the keys in uniformly shuffled order.
    #[verifier::rlimit(100)]
    pub fn send_round2(&mut self, coeff: (Vec<[u8; 32]>, Vec<[u8; 32]>)) -> (r: Result<
        Vec<[u8; 32]>,
        Error,
    >)
        ensures
            !(old(self).party_type == Partytype::Sender && old(self).stage == Stage::Round1Done
                && old(self).privkeyshare@.len() == 1) <==> r == Err::<Vec<[u8; 32]>, Error>(
                Error::InvalidState,
            ),
            r is Err ==> *final(self) == *old(self),
            (old(self).party_type == Partytype::Sender && old(self).stage == Stage::Round1Done
                && old(self).privkeyshare@.len() == 1 && (coeff.0@.len() < 2 || coeff.1@.len()
                < 2)) <==> r == Err::<Vec<[u8; 32]>, Error>(Error::DegenerateInput),
            r is Err ==> (r == Err::<Vec<[u8; 32]>, Error>(Error::InvalidState) || r == Err::<
                Vec<[u8; 32]>,
                Error,
            >(Error::DegenerateInput)),
            r matches Ok(k) ==> {
                &&& final(self).set == old(self).set
                &&& final(self).party_type == old(self).party_type
                &&& final(self).privkeyshare == old(self).privkeyshare
                &&& final(self).stage == Stage::Round2Done
                &&& k@.len() == old(self).set@.len()
                &&& k@.map_values(|b: [u8; 32]| b@).to_multiset() == sender_keys_of(
                    old(self).set@,
                    coeff_nats(coeff.0@),
                    coeff_nats(coeff.1@),
                    old(self).privkeyshare@[0]@,
                ).to_multiset()
            },
    {
        if !(matches!(self.party_type, Partytype::Sender) && matches!(
            self.stage,
            Stage::Round1Done,
        )) {
            return Err(Error::InvalidState);
        }
        if self.privkeyshare.len() != 1 {
            return Err(Error::InvalidState);
        }
        if coeff.0.len() < 2 || coeff.1.len() < 2 {
            return Err(Error::DegenerateInput);
        }
        let ghost c1n = coeff_nats(coeff.0@);
        let ghost c2n = coeff_nats(coeff.1@);
        let a: [u8; 32] = self.privkeyshare[0];
        let poly1 = Poly { coeffs: to_scalar(coeff.0) };
        let poly2 = Poly { coeffs: to_scalar(coeff.1) };
        proof {
            assert(poly1.nats() =~= c1n.map_values(|v: nat| v % group_order()));
            assert(poly2.nats() =~= c2n.map_values(|v: nat| v % group_order()));
        }
        let n = self.set.len();
        let mut k: Vec<[u8; 32]> = Vec::new();
        let mut i: usize = 0;
        while i < n
            invariant
                *self == *old(self),
                old(self).party_type == Partytype::Sender,
                old(self).stage == Stage::Round1Done,
                old(self).privkeyshare@.len() == 1,
                a@ == old(self).privkeyshare@[0]@,
                i <= n,
                n == self.set@.len(),
                poly1.wf(),
                poly2.wf(),
                poly1.nats() == c1n.map_values(|v: nat| v % group_order()),
                poly2.nats() == c2n.map_values(|v: nat| v % group_order()),
                k@.len() == i,
                k@.map_values(|b: [u8; 32]| b@) == sender_keys_of(
                    self.set@.subrange(0, i as int),
                    c1n,
                    c2n,
                    a@,
                ),
            decreases n - i,
        {
            let ghost prevk = k@;
            let fx = poly1.evaluate(h1_scalar(&self.set[i]));
            let fxx = poly2.evaluate(fx);
            let mut fi = fx.to_bytes();
            let fxxb = fxx.to_bytes();
            fi[31] = fxxb[0];
            proof {
                crate::poly::lemma_eval_reduce(c1n, h1_of(self.set@[i as int]@));
                crate::poly::lemma_eval_reduce(c2n, fx.as_nat());
                lemma_scalar_canonical(fx);
                lemma_scalar_canonical(fxx);
                lemma_le_bytes_of_len(fxx.as_nat(), 32);
                assert(le_bytes_of(fxx.as_nat(), 32)[0] == (fxx.as_nat() % 256) as u8);
                assert(fi@ =~= le_bytes_of(fx.as_nat(), 32).update(
                    31,
                    (fxx.as_nat() % 256) as u8,
                ));
            }
            let rep = permute(fi);
            let ghost lbl = self.set@[i as int]@;
            match crate::elligator::map(rep) {
                Ok(point) => {
                    let kp = point.mul_clamped(&a);
                    let pc = kp.compress();
                    let kb = final_key(&self.set[i], &pc);
                    k.push(kb);
                    proof {
                        assert(sender_item_key(c1n, c2n, a@, lbl) == Some(kb@));
                    }
                },
                Err(_) => {
                    proof {
                        assert(sender_item_key(c1n, c2n, a@, lbl) is None);
                    }
                },
            }
            proof {
                let pre = self.set@.subrange(0, i as int);
                let cur = self.set@.subrange(0, i + 1);
                assert(cur.drop_last() =~= pre);
                assert(cur.last() == self.set@[i as int]);
                match sender_item_key(c1n, c2n, a@, lbl) {
                    Some(kb) => {
                        assert(k@.map_values(|b: [u8; 32]| b@) =~= prevk.map_values(
                            |b: [u8; 32]| b@,
                        ).push(kb));
                    },
                    None => {
                        assert(k@ == prevk);
                    },
                }
            }
            i += 1;
        }
        proof {
            assert(self.set@.subrange(0, n as int) =~= self.set@);
        }
        shuffle_keys(&mut k);
        self.stage = Stage::Round2Done;
        Ok(k)
    }

    /// The receiver's second round: decodes the sender's message once,
    /// derives one hash per item with the stored key shares, and returns the
    /// items whose hash appears in the sender's key set.
    pub fn recv_round2(&mut self, k: Vec<[u8; 32]>, m: [u8; 32]) -> (r: Result<Vec<String>, Error>)
        ensures
            !(old(self).party_type == Partytype::Receiver && old(self).stage == Stage::Round1Done
                && old(self).privkeyshare@.len() == old(self).set@.len()) <==> r == Err::<
                Vec<String>,
                Error,
            >(Error::InvalidState),
            r is Err ==> *final(self) == *old(self),
            (old(self).party_type == Partytype::Receiver && old(self).stage == Stage::Round1Done
                && old(self).privkeyshare@.len() == old(self).set@.len() && point_of_repr(m@)
                is None) <==> r == Err::<Vec<String>, Error>(Error::BadRepresentative),
            r is Err ==> (r == Err::<Vec<String>, Error>(Error::InvalidState) || r == Err::<
                Vec<String>,
                Error,
            >(Error::BadRepresentative)),
            (old(self).party_type == Partytype::Receiver && old(self).stage == Stage::Round1Done
                && old(self).privkeyshare@.len() == old(self).set@.len()) ==> r is Ok,
            r matches Ok(out) ==> {
                &&& final(self).set == old(self).set
                &&& final(self).party_type == old(self).party_type
                &&& final(self).privkeyshare == old(self).privkeyshare
                &&& final(self).stage == Stage::Round2Done
                &&& point_of_repr(m@) is Some
                &&& out@ == recv2_selected(
                    old(self).set@,
                    old(self).privkeyshare@,
                    k@,
                    point_of_repr(m@).unwrap(),
                )
            },
    {
        if !(matches!(self.party_type, Partytype::Receiver) && matches!(
            self.stage,
            Stage::Round1Done,
        )) {
            return Err(Error::InvalidState);
        }
        if self.privkeyshare.len() != self.set.len() {
            return Err(Error::InvalidState);
        }
        let point = match crate::elligator::map(m) {
            Ok(p) => p,
            Err(_) => {
                return Err(Error::BadRepresentative);
            },
        };
        let ghost mp = point_of_repr(m@).unwrap();
        let n = self.set.len();
        let mut out: Vec<String> = Vec::new();
        let mut i: usize = 0;
        while i < n
            invariant
                *self == *old(self),
                old(self).party_type == Partytype::Receiver,
                old(self).stage == Stage::Round1Done,
                old(self).privkeyshare@.len() == old(self).set@.len(),
                point_of_repr(m@) is Some,
                mp == point_of_repr(m@).unwrap(),
                point.repr_bytes() == mp,
                i <= n,
                n == self.set@.len(),
                out@ == recv2_selected(
                    self.set@.subrange(0, i as int),
                    self.privkeyshare@,
                    k@,
                    mp,
                ),
            decreases n - i,
        {
            let ghost prevout = out@;
            let pi = point.mul_clamped(&self.privkeyshare[i]);
            let pc = pi.compress();
            let hi = final_key(&self.set[i], &pc);
            let selected = contains_key(&k, &hi);
            if selected {
                out.push(self.set[i].clone());
            }
            proof {
                let pre = self.set@.subrange(0, i as int);
                let cur = self.set@.subrange(0, i + 1);
                assert(cur.drop_last() =~= pre);
                assert(cur.last() == self.set@[i as int]);
                assert(hi@ == recv2_hash(self.set@[i as int]@, self.privkeyshare@[i as int]@, mp));
                if selected {
                    assert(contains_bytes(k@, recv2_hash(cur.last()@, self.privkeyshare@[
                        cur.len() - 1
                    ]@, mp)));
                    assert(out@ =~= prevout.push(self.set@[i as int]));
                } else {
                    assert(!contains_bytes(k@, recv2_hash(cur.last()@, self.privkeyshare@[
                        cur.len() - 1
                    ]@, mp)));
                }
            }
            i += 1;
        }
        proof {
            assert(self.set@.subrange(0, n as int) =~= self.set@);
        }
        self.stage = Stage::Round2Done;
        Ok(out)
    }
}

/// Reads one 32-byte buffer as a little-endian integer reduced modulo the
/// group order.
fn to_scalar_one(b: &[u8; 32]) -> (r: Scalar)
    ensures
        r.wf(),
        r.as_nat() == le_bytes_nat(b@) % group_order(),
{
    crate::scalar::scalar_reduce(b)
}

/// The field element H1 maps a label to.
fn h1_scalar(label: &String) -> (r: Scalar)
    ensures
        r.wf(),
        r.as_nat() == h1_of(label@),
{
    let mut buf: Vec<u8> = Vec::new();
    buf.extend_from_slice(label.as_str().as_bytes());
    proof {
        assert(buf@ =~= vstd::utf8::encode_utf8(label@));
    }
    let digest = crate::scalar::sha256(&buf);
    crate::scalar::scalar_reduce(&digest)
}

/// Interpolates the receiver's two polynomials from the hashed set, the body
/// bytes, and the extra bytes, and encodes their coefficients.
#[verifier::rlimit(100)]
fn build_round1_polys(set: &Vec<String>, fs: &Vec<[u8; 32]>, extras: Vec<Scalar>) -> (r: Result<
    (Vec<[u8; 32]>, Vec<[u8; 32]>),
    Error,
>)
    requires
        set@.len() + 2 <= usize::MAX,
        set@.len() > 0,
        fs@.len() == set@.len(),
        extras@.len() == set@.len(),
        forall|j: int| 0 <= j < extras@.len() ==> (#[trigger] extras@[j]).wf(),
    ensures
        r is Ok <==> (distinct_nats(h1_seq(set@)) && distinct_nats(body_seq(fs@))),
        r is Err ==> r == Err::<(Vec<[u8; 32]>, Vec<[u8; 32]>), Error>(Error::DuplicateAbscissa),
        r matches Ok(polys) ==> {
            &&& polys.0@.len() <= set@.len()
            &&& polys.1@.len() <= set@.len()
            &&& forall|i: int|
                #![trigger set@[i]]
                0 <= i < set@.len() ==> poly_eval(coeff_nats(polys.0@), h1_of(set@[i]@))
                    == le_bytes_nat(fs@[i]@) % group_order() && poly_eval(
                    coeff_nats(polys.1@),
                    le_bytes_nat(fs@[i]@) % group_order(),
                ) == extras@[i].as_nat()
        },
{
    let ghost fsv = fs@;
    let ghost extrasv = extras@;
    let xs = string_to_scalar(set);
    proof {
        assert(nats_of(xs@) =~= h1_seq(set@));
    }
    let mut ys: Vec<Scalar> = Vec::new();
    let mut ys2: Vec<Scalar> = Vec::new();
    let mut j: usize = 0;
    while j < fs.len()
        invariant
            j <= fs@.len(),
            fs@ == fsv,
            ys@.len() == j,
            ys2@.len() == j,
            forall|t: int|
                0 <= t < j ==> (#[trigger] ys@[t]).wf() && ys@[t].as_nat() == le_bytes_nat(
                    fsv[t]@,
                ) % group_order(),
            forall|t: int| 0 <= t < j ==> ys2@[t] == ys@[t],
        decreases fs@.len() - j,
    {
        let s1 = to_scalar_one(&fs[j]);
        let s2 = to_scalar_one(&fs[j]);
        proof {
            crate::scalar::lemma_le_bytes_nat_injective(s1.bytes@, s2.bytes@);
            assert(s1.bytes@ =~= s2.bytes@);
            assert(s1.bytes =~= s2.bytes);
            assert(s1 == s2);
        }
        ys.push(s1);
        ys2.push(s2);
        j += 1;
    }
    let ghost ysv = ys@;
    proof {
        assert(ys2@ =~= ysv);
        assert(nats_of(ysv) =~= body_seq(fsv));
        assert(all_wf(xs@));
        assert(all_wf(ys@));
        assert(all_wf(extras@));
    }
    let poly1 = match recover_pri_poly(xs, ys) {
        Ok(p) => p,
        Err(e) => {
            proof {
                assert(e == Error::DuplicateAbscissa);
            }
            return Err(Error::DuplicateAbscissa);
        },
    };
    let poly2 = match recover_pri_poly(ys2, extras) {
        Ok(p) => p,
        Err(e) => {
            proof {
                assert(e == Error::DuplicateAbscissa);
            }
            return Err(Error::DuplicateAbscissa);
        },
    };
    let c1 = to_byte_array(poly1.coeffs);
    let c2 = to_byte_array(poly2.coeffs);
    proof {
        assert(coeff_nats(c1@) =~= nats_of(poly1.coeffs@));
        assert(coeff_nats(c2@) =~= nats_of(poly2.coeffs@));
        assert forall|i: int| #![trigger set@[i]] 0 <= i < set@.len() implies poly_eval(
            coeff_nats(c1@),
            h1_of(set@[i]@),
        ) == le_bytes_nat(fs@[i]@) % group_order() && poly_eval(
            coeff_nats(c2@),
            le_bytes_nat(fs@[i]@) % group_order(),
        ) == extrasv[i].as_nat() by {
            assert(nats_of(xs@)[i] == h1_of(set@[i]@));
            assert(nats_of(ysv)[i] == le_bytes_nat(fsv[i]@) % group_order());
            assert(nats_of(extrasv)[i] == extrasv[i].as_nat());
        }
    }
    Ok((c1, c2))
}

} // verus!
