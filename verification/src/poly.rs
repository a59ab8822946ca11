//! Polynomials over the curve25519 scalar field: Lagrange interpolation and
//! evaluation, the oblivious-PRF engine of the protocol.
//!
//! A polynomial is an ordered sequence of field-element coefficients, lowest
//! degree first.  Interpolation is proved exact: the recovered polynomial
//! evaluates to `y[i]` at every `x[i]`.

use vstd::prelude::*;
use vstd::arithmetic::div_mod::{
    lemma_add_mod_noop, lemma_add_mod_noop_right, lemma_mod_bound, lemma_mod_twice,
    lemma_mul_mod_noop, lemma_mul_mod_noop_left, lemma_mul_mod_noop_right, lemma_small_mod,
};
use vstd::arithmetic::mul::{lemma_mul_is_commutative, lemma_mul_is_distributive_add};
use vstd::calc;
use crate::scalar::{group_order, Scalar};
use crate::Error;

verus! {

// ---------------------------------------------------------------------------
// The mathematical model: coefficient sequences of naturals modulo the order
// ---------------------------------------------------------------------------

/// The values of a coefficient vector.
pub open spec fn nats_of(c: Seq<Scalar>) -> Seq<nat> {
    c.map_values(|s: Scalar| s.as_nat())
}

/// Every coefficient is a reduced field element.
pub open spec fn all_wf(c: Seq<Scalar>) -> bool {
    forall|i: int| 0 <= i < c.len() ==> (#[trigger] c[i]).wf()
}

/// Every value is below the group order.
pub open spec fn nats_wf(c: Seq<nat>) -> bool {
    forall|i: int| 0 <= i < c.len() ==> (#[trigger] c[i]) < group_order()
}

/// No two values coincide.
pub open spec fn distinct_nats(s: Seq<nat>) -> bool {
    forall|k: int, l: int| 0 <= k < l < s.len() ==> s[k] != s[l]
}

/// The value of the polynomial with coefficients `c` at `x`, modulo the
/// group order.
pub open spec fn poly_eval(c: Seq<nat>, x: nat) -> nat
    decreases c.len(),
{
    if c.len() == 0 {
        0
    } else {
        ((c[0] + x * poly_eval(c.subrange(1, c.len() as int), x)) % group_order()) as nat
    }
}

/// A coefficient of the padded pointwise sum.
pub open spec fn padded(c: Seq<nat>, i: int) -> nat {
    if 0 <= i < c.len() {
        c[i]
    } else {
        0
    }
}

/// The pointwise sum of two coefficient sequences, padded to the longer one.
pub open spec fn poly_add_nats(a: Seq<nat>, b: Seq<nat>) -> Seq<nat> {
    Seq::new(
        if a.len() >= b.len() {
            a.len()
        } else {
            b.len()
        },
        |i: int| ((padded(a, i) + padded(b, i)) % group_order()) as nat,
    )
}

/// Every coefficient scaled by `c`.
pub open spec fn poly_scale_nats(a: Seq<nat>, c: nat) -> Seq<nat> {
    Seq::new(a.len(), |i: int| ((a[i] * c) % group_order()) as nat)
}

/// The convolution term of rank `i` contributing to coefficient `k`.
pub open spec fn conv_term(a: Seq<nat>, b: Seq<nat>, k: int, i: int) -> nat {
    if 0 <= i < a.len() && 0 <= k - i < b.len() {
        ((a[i] * b[k - i]) % group_order()) as nat
    } else {
        0
    }
}

/// The partial convolution sum over ranks below `i`.
pub open spec fn conv_psum(a: Seq<nat>, b: Seq<nat>, k: int, i: int) -> nat
    decreases i,
{
    if i <= 0 {
        0
    } else {
        ((conv_psum(a, b, k, i - 1) + conv_term(a, b, k, i - 1)) % group_order()) as nat
    }
}

/// The product of two coefficient sequences.
pub open spec fn poly_mul_nats(a: Seq<nat>, b: Seq<nat>) -> Seq<nat>
    recommends
        a.len() >= 1,
        b.len() >= 1,
{
    Seq::new((a.len() + b.len() - 1) as nat, |k: int| conv_psum(a, b, k, a.len() as int))
}

// ---------------------------------------------------------------------------
// Arithmetic helper lemmas
// ---------------------------------------------------------------------------

/// The group order is large; in particular partial sums stay meaningful.
pub proof fn lemma_group_order_large()
    ensures
        group_order() > 1,
{
    vstd::arithmetic::power2::lemma_pow2_pos(252);
}

proof fn lemma_mod_add_l(a: nat, b: nat)
    ensures
        ((a % group_order()) + (b % group_order())) % group_order() == (a + b) % group_order(),
{
    lemma_group_order_large();
    lemma_add_mod_noop(a as int, b as int, group_order() as int);
}

proof fn lemma_mod_add_right_l(a: nat, b: nat)
    ensures
        (a + (b % group_order())) % group_order() == (a + b) % group_order(),
{
    lemma_group_order_large();
    lemma_add_mod_noop_right(a as int, b as int, group_order() as int);
}

proof fn lemma_mod_mul_l(a: nat, b: nat)
    ensures
        ((a % group_order()) * (b % group_order())) % group_order() == (a * b) % group_order(),
{
    lemma_group_order_large();
    lemma_mul_mod_noop(a as int, b as int, group_order() as int);
}

proof fn lemma_mod_mul_left_l(a: nat, b: nat)
    ensures
        ((a % group_order()) * b) % group_order() == (a * b) % group_order(),
{
    lemma_group_order_large();
    lemma_mul_mod_noop_left(a as int, b as int, group_order() as int);
}

proof fn lemma_mod_mul_right_l(a: nat, b: nat)
    ensures
        (a * (b % group_order())) % group_order() == (a * b) % group_order(),
{
    lemma_group_order_large();
    lemma_mul_mod_noop_right(a as int, b as int, group_order() as int);
}

proof fn lemma_mod_small_l(a: nat)
    requires
        a < group_order(),
    ensures
        a % group_order() == a,
{
    lemma_small_mod(a, group_order());
}

proof fn lemma_mod_bound_l(a: nat)
    ensures
        a % group_order() < group_order(),
{
    lemma_group_order_large();
    lemma_mod_bound(a as int, group_order() as int);
}

/// Cancelling a difference against its inverse inside a product of residues.
proof fn lemma_product_cancel(e: nat, a: nat, d: nat, v: nat)
    requires
        (e * a) % group_order() == 1,
        (d * v) % group_order() == 1,
    ensures
        (((e * d) % group_order()) * ((a * v) % group_order())) % group_order() == 1,
{
    let ll = group_order();
    lemma_mod_mul_l(e * d, a * v);
    assert((e * d) * (a * v) == (e * a) * (d * v)) by (nonlinear_arith);
    lemma_mod_mul_l(e * a, d * v);
    assert(((e * a) % ll) * ((d * v) % ll) == 1) by {
        lemma_group_order_large();
    }
    assert((((e * a) % ll) * ((d * v) % ll)) % ll == 1nat % ll);
    lemma_group_order_large();
    lemma_small_mod(1, ll);
}

/// Subtracting a value from itself modulo the order gives zero.
proof fn lemma_self_diff_zero(c: nat)
    requires
        c < group_order(),
    ensures
        (((group_order() - c) % group_order() as int) + c) % group_order() as int == 0,
{
    let ll = group_order() as int;
    lemma_group_order_large();
    if c == 0 {
        assert(ll % ll == 0) by {
            vstd::arithmetic::div_mod::lemma_mod_self_0(ll);
        }
    } else {
        lemma_small_mod((group_order() - c) as nat, group_order());
        assert(((ll - c) + c) % ll == 0) by {
            vstd::arithmetic::div_mod::lemma_mod_self_0(ll);
        }
    }
}

/// Distinct reduced values have a nonzero difference modulo the order.
proof fn lemma_diff_nonzero(a: nat, b: nat)
    requires
        a < group_order(),
        b < group_order(),
        a != b,
    ensures
        (a + group_order() - b) % group_order() as int != 0,
{
    let ll = group_order();
    lemma_group_order_large();
    if a > b {
        let v = (a - b) as nat;
        assert((a + ll - b) == v + ll);
        vstd::arithmetic::div_mod::lemma_mod_add_multiples_vanish(v as int, ll as int);
        lemma_small_mod(v, ll);
    } else {
        let v = (a + ll - b) as nat;
        lemma_small_mod(v, ll);
    }
}

// ---------------------------------------------------------------------------
// Evaluation homomorphism lemmas
// ---------------------------------------------------------------------------

/// Evaluation of a nonempty polynomial is a reduced value; of any polynomial,
/// it is below the group order whenever the order exceeds one.
proof fn lemma_eval_bound(c: Seq<nat>, x: nat)
    ensures
        poly_eval(c, x) < group_order(),
{
    lemma_group_order_large();
    if c.len() == 0 {
    } else {
        lemma_mod_bound_l(c[0] + x * poly_eval(c.subrange(1, c.len() as int), x));
    }
}

/// Evaluating a padded pointwise sum adds the evaluations.
proof fn lemma_eval_add(a: Seq<nat>, b: Seq<nat>, x: nat)
    requires
        nats_wf(a),
        nats_wf(b),
    ensures
        poly_eval(poly_add_nats(a, b), x) == (poly_eval(a, x) + poly_eval(b, x)) % group_order(),
    decreases a.len() + b.len(),
{
    let ll = group_order();
    lemma_group_order_large();
    let s = poly_add_nats(a, b);
    if a.len() == 0 && b.len() == 0 {
        assert(s.len() == 0);
        lemma_small_mod(0, ll);
    } else if a.len() == 0 {
        assert forall|i: int| 0 <= i < b.len() implies s[i] == b[i] by {
            lemma_mod_small_l(b[i]);
        }
        assert(s =~= b);
        lemma_eval_bound(b, x);
        lemma_mod_small_l(poly_eval(b, x));
    } else if b.len() == 0 {
        assert forall|i: int| 0 <= i < a.len() implies s[i] == a[i] by {
            lemma_mod_small_l(a[i]);
        }
        assert(s =~= a);
        lemma_eval_bound(a, x);
        lemma_mod_small_l(poly_eval(a, x));
    } else {
        let at = a.subrange(1, a.len() as int);
        let bt = b.subrange(1, b.len() as int);
        assert(s.subrange(1, s.len() as int) =~= poly_add_nats(at, bt));
        lemma_eval_add(at, bt, x);
        let ea = poly_eval(at, x);
        let eb = poly_eval(bt, x);
        // left side: ((a0 + b0) % ll + x * ((ea + eb) % ll)) % ll
        let a0 = a[0];
        let b0 = b[0];
        assert(poly_eval(s, x) == (((a0 + b0) % ll) + x * ((ea + eb) % ll)) % ll);
        lemma_mod_mul_right_l(x, ea + eb);
        assert((x * ((ea + eb) % ll)) % ll == (x * (ea + eb)) % ll);
        calc! {
            (==)
            ((((a0 + b0) % ll) + x * ((ea + eb) % ll)) % ll); {
                lemma_mod_add_right_l(((a0 + b0) % ll) as nat, x * ((ea + eb) % ll));
            }
            ((((a0 + b0) % ll) + (x * ((ea + eb) % ll)) % ll) % ll); {}
            ((((a0 + b0) % ll) + (x * (ea + eb)) % ll) % ll); {
                lemma_mod_add_l(a0 + b0, x * (ea + eb));
            }
            (((a0 + b0) + x * (ea + eb)) % ll); {
                lemma_mul_is_distributive_add(x as int, ea as int, eb as int);
            }
            (((a0 + x * ea) + (b0 + x * eb)) % ll); {
                lemma_mod_add_l(a0 + x * ea, b0 + x * eb);
            }
            ((((a0 + x * ea) % ll) + ((b0 + x * eb) % ll)) % ll); {}
            ((poly_eval(a, x) + poly_eval(b, x)) % ll);
        }
    }
}

/// Evaluating a scaled polynomial scales the evaluation.
proof fn lemma_eval_scale(a: Seq<nat>, c: nat, x: nat)
    ensures
        poly_eval(poly_scale_nats(a, c), x) == (poly_eval(a, x) * c) % group_order(),
    decreases a.len(),
{
    let ll = group_order();
    lemma_group_order_large();
    let s = poly_scale_nats(a, c);
    if a.len() == 0 {
        assert(s.len() == 0);
        assert((0 * c) % ll == 0) by {
            lemma_small_mod(0, ll);
        }
    } else {
        let at = a.subrange(1, a.len() as int);
        assert(s.subrange(1, s.len() as int) =~= poly_scale_nats(at, c));
        lemma_eval_scale(at, c, x);
        let ea = poly_eval(at, x);
        let a0 = a[0];
        calc! {
            (==)
            (poly_eval(s, x)); {}
            ((((a0 * c) % ll) + x * ((ea * c) % ll)) % ll); {
                lemma_mod_mul_right_l(x, ea * c);
                lemma_mod_add_right_l(((a0 * c) % ll) as nat, x * ((ea * c) % ll));
                lemma_mod_add_right_l(((a0 * c) % ll) as nat, x * (ea * c));
            }
            ((((a0 * c) % ll) + (x * (ea * c)) % ll) % ll); {
                lemma_mod_add_l(a0 * c, x * (ea * c));
            }
            (((a0 * c) + x * (ea * c)) % ll); {
                assert((a0 * c) + x * (ea * c) == (a0 + x * ea) * c) by (nonlinear_arith);
            }
            (((a0 + x * ea) * c) % ll); {
                lemma_mod_mul_left_l(a0 + x * ea, c);
            }
            ((((a0 + x * ea) % ll) * c) % ll); {}
            ((poly_eval(a, x) * c) % ll);
        }
    }
}

/// The shifted polynomial: a zero constant term, then the given coefficients.
spec fn poly_shift_nats(a: Seq<nat>) -> Seq<nat> {
    Seq::new(a.len() + 1, |i: int| if i == 0 { 0nat } else { a[i - 1] })
}

/// Evaluating a shifted polynomial multiplies the evaluation by `x`.
proof fn lemma_eval_shift(a: Seq<nat>, x: nat)
    ensures
        poly_eval(poly_shift_nats(a), x) == (x * poly_eval(a, x)) % group_order(),
{
    let s = poly_shift_nats(a);
    assert(s.subrange(1, s.len() as int) =~= a);
    assert(poly_eval(s, x) == (0 + x * poly_eval(a, x)) % group_order());
}

/// The coefficients of a product with the monomial `c + x`.
proof fn lemma_conv_monomial_psum(a: Seq<nat>, c: nat, k: int, i: int)
    requires
        nats_wf(a),
        a.len() >= 1,
        0 <= k < a.len() + 1,
        0 <= i <= a.len(),
    ensures
        conv_psum(a, seq![c, 1nat], k, i) == ((if 0 <= k - 1 < i && k - 1 < a.len() {
            a[k - 1]
        } else {
            0nat
        }) + (if k < i && k < a.len() {
            (a[k] * c) % group_order()
        } else {
            0nat
        })) % group_order(),
    decreases i,
{
    let ll = group_order();
    let m = seq![c, 1nat];
    lemma_group_order_large();
    if i == 0 {
        lemma_small_mod(0, ll);
    } else {
        lemma_conv_monomial_psum(a, c, k, i - 1);
        let prev = conv_psum(a, m, k, i - 1);
        let t = conv_term(a, m, k, i - 1);
        let aprev: nat = if 0 <= k - 1 && k - 1 < i - 1 && k - 1 < a.len() {
            a[k - 1]
        } else {
            0nat
        };
        let bprev: nat = if k < i - 1 && k < a.len() {
            ((a[k] * c) % ll) as nat
        } else {
            0nat
        };
        assert(prev == (aprev + bprev) % ll);
        lemma_mod_bound_l(aprev + bprev);
        if i - 1 == k - 1 && 0 <= k - 1 && k - 1 < a.len() {
            assert(prev == (0nat + 0nat) % ll);
            lemma_small_mod(0, ll);
            assert(m[1] == 1nat);
            assert(t == (a[k - 1] * 1) % ll);
            assert(a[k - 1] * 1 == a[k - 1]) by (nonlinear_arith);
            lemma_mod_small_l(a[k - 1]);
        } else if i - 1 == k && 0 <= k && k < a.len() {
            assert(m[0] == c);
            assert(t == (a[k] * c) % ll);
            lemma_mod_bound_l((a[k] * c) as nat);
            lemma_mod_small_l(t);
            let av: nat = if 1 <= k {
                a[k - 1]
            } else {
                0nat
            };
            assert(prev == av % ll) by {
                if 1 <= k {
                    lemma_mod_small_l(a[k - 1]);
                } else {
                    lemma_small_mod(0, ll);
                }
            }
            lemma_mod_small_l(av);
            lemma_mod_add_l(av, t);
        } else {
            assert(t == 0);
            lemma_mod_small_l(prev);
        }
    }
}

/// Multiplying by the monomial `c + x` multiplies the evaluation by
/// `(c + x) % group_order()`.
proof fn lemma_eval_mul_monomial(a: Seq<nat>, c: nat, x: nat)
    requires
        nats_wf(a),
        a.len() >= 1,
        c < group_order(),
    ensures
        poly_eval(poly_mul_nats(a, seq![c, 1nat]), x) == (poly_eval(a, x) * ((c + x)
            % group_order())) % group_order(),
{
    let ll = group_order();
    lemma_group_order_large();
    let m = seq![c, 1nat];
    let p = poly_mul_nats(a, m);
    let sc = poly_scale_nats(a, c);
    let sh = poly_shift_nats(a);
    assert(p.len() == a.len() + 1);
    assert(poly_add_nats(sc, sh).len() == a.len() + 1);
    assert forall|k: int| 0 <= k < p.len() implies p[k] == poly_add_nats(sc, sh)[k] by {
        lemma_conv_monomial_psum(a, c, k, a.len() as int);
        if k == 0 {
            lemma_mod_twice((a[0] * c) as int, ll as int);
        } else if k < a.len() {
            lemma_mod_small_l(a[k - 1]);
            lemma_mod_add_l(a[k - 1], (a[k] * c) % ll);
            lemma_mod_twice((a[k] * c) as int, ll as int);
            lemma_mod_add_right_l(a[k - 1], (a[k] * c) % ll);
            lemma_mod_add_right_l(a[k - 1], a[k] * c);
        } else {
            lemma_mod_small_l(a[k - 1]);
        }
    }
    assert(p =~= poly_add_nats(sc, sh));
    assert(nats_wf(sc)) by {
        assert forall|i: int| 0 <= i < sc.len() implies sc[i] < ll by {
            lemma_mod_bound_l((a[i] * c) as nat);
        }
    }
    assert(nats_wf(sh));
    lemma_eval_add(sc, sh, x);
    lemma_eval_scale(a, c, x);
    lemma_eval_shift(a, x);
    let e = poly_eval(a, x);
    calc! {
        (==)
        (poly_eval(p, x)); {}
        (((e * c) % ll + (x * e) % ll) % ll); {
            lemma_mod_add_l(e * c, x * e);
        }
        ((e * c + x * e) % ll); {
            assert(e * c + x * e == e * (c + x)) by (nonlinear_arith);
        }
        ((e * (c + x)) % ll); {
            lemma_mod_mul_right_l(e, c + x);
        }
        ((e * ((c + x) % ll)) % ll);
    }
}

/// Reducing each coefficient modulo the order does not change evaluation.
pub proof fn lemma_eval_reduce(a: Seq<nat>, x: nat)
    ensures
        poly_eval(a.map_values(|v: nat| v % group_order()), x) == poly_eval(a, x),
    decreases a.len(),
{
    let ll = group_order();
    lemma_group_order_large();
    let s = a.map_values(|v: nat| v % ll);
    if a.len() == 0 {
        assert(s.len() == 0);
    } else {
        let at = a.subrange(1, a.len() as int);
        assert(s.subrange(1, s.len() as int) =~= at.map_values(|v: nat| v % ll));
        lemma_eval_reduce(at, x);
        let e = poly_eval(at, x);
        calc! {
            (==)
            (poly_eval(s, x)); {}
            (((a[0] % ll) + x * e) % ll); {
                lemma_mod_add_l(a[0], x * e);
                lemma_mod_bound_l((x * e) as nat);
                lemma_mod_small_l(((x * e) % ll) as nat);
                lemma_mod_add_right_l((a[0] % ll) as nat, x * e);
                lemma_mod_add_right_l(a[0], x * e);
            }
            ((a[0] + x * e) % ll);
        }
    }
}

/// Trimming trailing zero coefficients does not change the evaluation.
proof fn lemma_eval_trim(c: Seq<nat>, x: nat)
    ensures
        poly_eval(trim_nats(c), x) == poly_eval(c, x),
    decreases c.len(),
{
    if c.len() > 0 && c.last() == 0 {
        lemma_eval_drop_last_zero(c, x);
        lemma_eval_trim(c.drop_last(), x);
    }
}

/// Evaluating a constant polynomial reduces its constant.
proof fn lemma_eval_singleton(c0: nat, x: nat)
    ensures
        poly_eval(seq![c0], x) == c0 % group_order(),
{
    let s = seq![c0];
    assert(s.len() == 1);
    assert(s[0] == c0);
    let t = s.subrange(1, s.len() as int);
    assert(t =~= Seq::<nat>::empty());
    assert(poly_eval(t, x) == 0);
    assert(x * 0nat == 0) by (nonlinear_arith);
    assert(poly_eval(s, x) == ((c0 + x * poly_eval(t, x)) % group_order()) as nat);
}

/// The coefficients with the maximal trailing run of zeros removed.
pub open spec fn trim_nats(c: Seq<nat>) -> Seq<nat>
    decreases c.len(),
{
    if c.len() > 0 && c.last() == 0 {
        trim_nats(c.drop_last())
    } else {
        c
    }
}

proof fn lemma_trim_len(c: Seq<nat>)
    ensures
        trim_nats(c).len() <= c.len(),
    decreases c.len(),
{
    if c.len() > 0 && c.last() == 0 {
        lemma_trim_len(c.drop_last());
    }
}

/// A trimmed sequence is empty or ends in a nonzero coefficient.
proof fn lemma_trim_normalized(c: Seq<nat>)
    ensures
        trim_nats(c).len() == 0 || trim_nats(c).last() != 0,
    decreases c.len(),
{
    if c.len() > 0 && c.last() == 0 {
        lemma_trim_normalized(c.drop_last());
    }
}

/// Dropping a zero leading coefficient does not change the evaluation.
proof fn lemma_eval_drop_last_zero(c: Seq<nat>, x: nat)
    requires
        c.len() >= 1,
        c.last() == 0,
    ensures
        poly_eval(c, x) == poly_eval(c.drop_last(), x),
    decreases c.len(),
{
    let ll = group_order();
    lemma_group_order_large();
    if c.len() == 1 {
        assert(c[0] == 0);
        assert(c.subrange(1, 1) =~= Seq::<nat>::empty());
        assert(x * 0nat == 0) by (nonlinear_arith);
        lemma_small_mod(0, ll);
        assert(c.drop_last() =~= Seq::<nat>::empty());
    } else {
        let t = c.subrange(1, c.len() as int);
        assert(t.last() == c.last());
        lemma_eval_drop_last_zero(t, x);
        assert(t.drop_last() =~= c.drop_last().subrange(1, c.drop_last().len() as int));
        assert(c.drop_last()[0] == c[0]);
    }
}

// ---------------------------------------------------------------------------
// The executable polynomial
// ---------------------------------------------------------------------------

/// A polynomial over the scalar field; `coeffs[i]` multiplies `x^i`.
#[derive(Debug)]
pub struct Poly {
    pub coeffs: Vec<Scalar>,
}

impl Poly {
    /// The coefficient values.
    pub open spec fn nats(&self) -> Seq<nat> {
        nats_of(self.coeffs@)
    }

    /// All coefficients are reduced field elements.
    pub open spec fn wf(&self) -> bool {
        all_wf(self.coeffs@)
    }

    /// The degree of the polynomial, one less than its coefficient count.
    pub fn degree(&self) -> (r: usize)
        requires
            self.coeffs@.len() >= 1,
        ensures
            r == self.coeffs@.len() - 1,
    {
        self.coeffs.len() - 1
    }

    /// The monomial `x - c`, as the pair of coefficients `(-c, 1)`.
    fn minus_const(c: Scalar) -> (r: Poly)
        requires
            c.wf(),
        ensures
            r.wf(),
            r.nats() =~= seq![
                (((group_order() - c.as_nat()) % group_order() as int) as nat),
                1nat,
            ],
    {
        let neg = c.neg();
        let one = Scalar::one();
        let r = Poly { coeffs: vec![neg, one] };
        proof {
            assert(r.nats() =~= seq![neg.as_nat(), one.as_nat()]);
        }
        r
    }

    /// The padded pointwise sum of two polynomials, with the maximal trailing
    /// run of zero coefficients removed from the result.
    pub fn add(&self, p: &Poly) -> (r: Poly)
        requires
            self.wf(),
            p.wf(),
        ensures
            r.wf(),
            r.nats() =~= trim_nats(poly_add_nats(self.nats(), p.nats())),
            forall|x: nat|
                poly_eval(#[trigger] r.nats(), x) == (poly_eval(self.nats(), x) + poly_eval(
                    p.nats(),
                    x,
                )) % group_order(),
    {
        let ghost target = poly_add_nats(self.nats(), p.nats());
        let n = if self.coeffs.len() >= p.coeffs.len() {
            self.coeffs.len()
        } else {
            p.coeffs.len()
        };
        let mut coeffs: Vec<Scalar> = Vec::new();
        let mut i: usize = 0;
        while i < n
            invariant
                i <= n,
                n == if self.coeffs@.len() >= p.coeffs@.len() {
                    self.coeffs@.len()
                } else {
                    p.coeffs@.len()
                },
                self.wf(),
                p.wf(),
                target == poly_add_nats(self.nats(), p.nats()),
                coeffs@.len() == i,
                forall|j: int|
                    0 <= j < i ==> (#[trigger] coeffs@[j]).wf() && coeffs@[j].as_nat()
                        == poly_add_nats(self.nats(), p.nats())[j],
            decreases n - i,
        {
            let ca = if i < self.coeffs.len() {
                self.coeffs[i]
            } else {
                Scalar::zero()
            };
            let cb = if i < p.coeffs.len() {
                p.coeffs[i]
            } else {
                Scalar::zero()
            };
            coeffs.push(ca.add(&cb));
            i += 1;
        }
        let mut r = Poly { coeffs };
        proof {
            assert(r.nats() =~= target);
        }
        let zero = Scalar::zero();
        while r.coeffs.len() > 0 && r.coeffs[r.coeffs.len() - 1].equals(&zero)
            invariant
                zero.as_nat() == 0,
                r.wf(),
                target == poly_add_nats(self.nats(), p.nats()),
                trim_nats(r.nats()) == trim_nats(target),
            decreases r.coeffs@.len(),
        {
            let ghost oldn = r.nats();
            proof {
                assert(oldn.last() == 0);
            }
            r.coeffs.pop();
            proof {
                assert(r.nats() =~= oldn.drop_last());
            }
        }
        proof {
            assert(r.nats() == trim_nats(r.nats()));
            assert forall|x: nat|
                poly_eval(#[trigger] r.nats(), x) == (poly_eval(self.nats(), x) + poly_eval(
                    p.nats(),
                    x,
                )) % group_order() by {
                assert(nats_wf(self.nats())) by {
                    assert(forall|j: int|
                        0 <= j < self.nats().len() ==> (#[trigger] self.nats()[j])
                            == self.coeffs@[j].as_nat());
                }
                assert(nats_wf(p.nats())) by {
                    assert(forall|j: int|
                        0 <= j < p.nats().len() ==> (#[trigger] p.nats()[j])
                            == p.coeffs@[j].as_nat());
                }
                lemma_eval_trim(target, x);
                lemma_eval_add(self.nats(), p.nats(), x);
            }
        }
        r
    }

    /// The product of two polynomials, by convolution of their coefficients.
    pub fn mul(&self, q: &Poly) -> (r: Poly)
        requires
            self.wf(),
            q.wf(),
            self.coeffs@.len() >= 1,
            q.coeffs@.len() >= 1,
            self.coeffs@.len() + q.coeffs@.len() <= usize::MAX,
        ensures
            r.wf(),
            r.coeffs@.len() == self.coeffs@.len() + q.coeffs@.len() - 1,
            r.nats() =~= poly_mul_nats(self.nats(), q.nats()),
    {
        let ghost an = self.nats();
        let ghost bn = q.nats();
        let d1 = self.coeffs.len() - 1;
        let d2 = q.coeffs.len() - 1;
        let n = d1 + d2 + 1;
        let mut coeffs: Vec<Scalar> = Vec::new();
        while coeffs.len() < n
            invariant
                coeffs@.len() <= n,
                forall|k: int|
                    0 <= k < coeffs@.len() ==> (#[trigger] coeffs@[k]).wf() && coeffs@[k].as_nat()
                        == 0,
            decreases n - coeffs.len(),
        {
            coeffs.push(Scalar::zero());
        }
        let mut i: usize = 0;
        while i < self.coeffs.len()
            invariant
                i <= self.coeffs@.len(),
                an == self.nats(),
                bn == q.nats(),
                self.wf(),
                q.wf(),
                self.coeffs@.len() >= 1,
                q.coeffs@.len() >= 1,
                n == self.coeffs@.len() + q.coeffs@.len() - 1,
                coeffs@.len() == n,
                forall|k: int|
                    0 <= k < n ==> (#[trigger] coeffs@[k]).wf() && coeffs@[k].as_nat() == conv_psum(
                        an,
                        bn,
                        k,
                        i as int,
                    ),
            decreases self.coeffs@.len() - i,
        {
            let mut j: usize = 0;
            while j < q.coeffs.len()
                invariant
                    i < self.coeffs@.len(),
                    j <= q.coeffs@.len(),
                    an == self.nats(),
                    bn == q.nats(),
                    self.wf(),
                    q.wf(),
                    q.coeffs@.len() >= 1,
                    n == self.coeffs@.len() + q.coeffs@.len() - 1,
                    coeffs@.len() == n,
                    forall|k: int|
                        0 <= k < n ==> (#[trigger] coeffs@[k]).wf() && coeffs@[k].as_nat()
                            == conv_psum(an, bn, k, if 0 <= k - i && k - i < j {
                            i + 1
                        } else {
                            i as int
                        }),
                decreases q.coeffs@.len() - j,
            {
                let tmp = q.coeffs[j].mul(&self.coeffs[i]);
                let k = i + j;
                let updated = coeffs[k].add(&tmp);
                coeffs[k] = updated;
                proof {
                    let ki = k as int;
                    assert(conv_term(an, bn, ki, i as int) == (an[i as int] * bn[j as int])
                        % group_order()) by {
                        lemma_mul_is_commutative(an[i as int] as int, bn[j as int] as int);
                    }
                    assert(coeffs@[ki].as_nat() == (conv_psum(an, bn, ki, i as int) + conv_term(
                        an,
                        bn,
                        ki,
                        i as int,
                    )) % group_order()) by {
                        lemma_mul_is_commutative(bn[j as int] as int, an[i as int] as int);
                    }
                }
                j += 1;
            }
            proof {
                assert forall|k: int| 0 <= k < n implies (#[trigger] coeffs@[k]).as_nat()
                    == conv_psum(an, bn, k, i + 1) by {
                    if !(0 <= k - i && k - i < q.coeffs@.len()) {
                        assert(coeffs@[k].as_nat() == conv_psum(an, bn, k, i as int));
                        assert(conv_term(an, bn, k, i as int) == 0);
                        lemma_mod_bound_l(conv_psum(an, bn, k, i as int));
                        lemma_mod_small_l(conv_psum(an, bn, k, i as int));
                    }
                }
            }
            i += 1;
        }
        let r = Poly { coeffs };
        proof {
            assert(r.nats() =~= poly_mul_nats(an, bn));
        }
        r
    }

    /// Evaluates the polynomial at `x` by Horner's method, highest degree
    /// first.
    pub fn evaluate(&self, x: Scalar) -> (r: Scalar)
        requires
            self.wf(),
            x.wf(),
        ensures
            r.wf(),
            r.as_nat() == poly_eval(self.nats(), x.as_nat()),
    {
        let ghost cn = self.nats();
        let ghost xn = x.as_nat();
        let mut result = Scalar::zero();
        let mut i: usize = self.coeffs.len();
        while i > 0
            invariant
                i <= self.coeffs@.len(),
                cn == self.nats(),
                xn == x.as_nat(),
                self.wf(),
                x.wf(),
                result.wf(),
                result.as_nat() == poly_eval(cn.subrange(i as int, cn.len() as int), xn),
            decreases i,
        {
            i -= 1;
            let ghost prev = result.as_nat();
            result = result.mul(&x).add(&self.coeffs[i]);
            proof {
                let ll = group_order();
                let tail = cn.subrange(i + 1, cn.len() as int);
                let cur = cn.subrange(i as int, cn.len() as int);
                assert(cur.subrange(1, cur.len() as int) =~= tail);
                let ci = cn[i as int];
                lemma_mod_small_l(ci);
                lemma_mod_add_l((prev * xn) as nat, ci);
                lemma_mod_twice((prev * xn) as int, ll as int);
                lemma_mod_add_l(((prev * xn) % ll) as nat, ci);
                lemma_mul_is_commutative(prev as int, xn as int);
            }
        }
        proof {
            assert(cn.subrange(0, cn.len() as int) =~= cn);
        }
        result
    }
}

// ---------------------------------------------------------------------------
// Lagrange interpolation
// ---------------------------------------------------------------------------

/// Every coefficient of `p` multiplied by `c`.
fn scale_coeffs(p: &Poly, c: &Scalar) -> (r: Poly)
    requires
        p.wf(),
        c.wf(),
    ensures
        r.wf(),
        r.coeffs@.len() == p.coeffs@.len(),
        r.nats() =~= poly_scale_nats(p.nats(), c.as_nat()),
{
    let mut coeffs: Vec<Scalar> = Vec::new();
    let mut i: usize = 0;
    while i < p.coeffs.len()
        invariant
            i <= p.coeffs@.len(),
            p.wf(),
            c.wf(),
            coeffs@.len() == i,
            forall|j: int|
                0 <= j < i ==> (#[trigger] coeffs@[j]).wf() && coeffs@[j].as_nat() == (p.nats()[j]
                    * c.as_nat()) % group_order(),
        decreases p.coeffs@.len() - i,
    {
        coeffs.push(p.coeffs[i].mul(c));
        i += 1;
    }
    let r = Poly { coeffs };
    proof {
        assert(r.nats() =~= poly_scale_nats(p.nats(), c.as_nat()));
    }
    r
}

/// Computes the Lagrange basis polynomial for abscissa `i`: the unique
/// polynomial with `coeffs.len() == xs.len()` that is one at `xs[i]` and zero
/// at every other abscissa.
pub fn lagrange_basis(i: usize, xs: &Vec<Scalar>) -> (r: Poly)
    requires
        (i as int) < xs@.len(),
        all_wf(xs@),
        distinct_nats(nats_of(xs@)),
        xs@.len() + 2 <= usize::MAX,
    ensures
        r.wf(),
        r.coeffs@.len() == xs@.len(),
        forall|t: int|
            0 <= t < xs@.len() && t != i ==> poly_eval(r.nats(), nats_of(xs@)[t]) == 0,
        poly_eval(r.nats(), nats_of(xs@)[i as int]) == 1,
{
    let ghost ll = group_order();
    let ghost xn = nats_of(xs@);
    let mut basis = Poly { coeffs: vec![Scalar::one()] };
    let mut acc = Scalar::one();
    proof {
        lemma_group_order_large();
        assert(basis.nats() =~= seq![1nat]);
        lemma_eval_singleton(1nat, xn[i as int]);
        lemma_small_mod(1, ll);
        assert(poly_eval(basis.nats(), xn[i as int]) == 1);
    }
    let mut m: usize = 0;
    while m < xs.len()
        invariant
            m <= xs@.len(),
            (i as int) < xs@.len(),
            all_wf(xs@),
            distinct_nats(xn),
            xn == nats_of(xs@),
            ll == group_order(),
            xs@.len() + 2 <= usize::MAX,
            basis.wf(),
            acc.wf(),
            basis.coeffs@.len() == if m <= i {
                m + 1
            } else {
                m as int
            },
            forall|t: int|
                0 <= t < m && t != i ==> poly_eval(basis.nats(), xn[t]) == 0,
            (poly_eval(basis.nats(), xn[i as int]) * acc.as_nat()) % group_order() == 1,
        decreases xs@.len() - m,
    {
        if m != i {
            let ghost oldb = basis.nats();
            let ghost olde = poly_eval(oldb, xn[i as int]);
            let mono = Poly::minus_const(xs[m]);
            let ghost cm = xn[m as int];
            let ghost negc = (((group_order() - cm) % group_order() as int) as nat);
            let newbasis = basis.mul(&mono);
            let den = xs[i].sub(&xs[m]);
            let inv = den.invert();
            proof {
                assert(nats_wf(oldb)) by {
                    assert(forall|j: int|
                        0 <= j < oldb.len() ==> (#[trigger] oldb[j]) == basis.coeffs@[j].as_nat());
                }
                assert(mono.nats() =~= seq![negc, 1nat]);
                assert(newbasis.nats() =~= poly_mul_nats(oldb, seq![negc, 1nat]));
                lemma_mod_bound_l((group_order() - cm) as nat);
                // the value of the monomial at each abscissa
                assert forall|t: int| 0 <= t < xs@.len() implies poly_eval(
                    newbasis.nats(),
                    xn[t],
                ) == (poly_eval(oldb, xn[t]) * ((negc + xn[t]) % ll)) % ll by {
                    lemma_eval_mul_monomial(oldb, negc, xn[t]);
                }
                // at the abscissa being removed, the monomial value is zero
                lemma_self_diff_zero(cm);
                assert((negc + cm) % ll == 0);
                assert(poly_eval(newbasis.nats(), xn[m as int]) == (poly_eval(oldb, xn[m as int])
                    * 0nat) % ll);
                assert(poly_eval(oldb, xn[m as int]) * 0nat == 0) by (nonlinear_arith);
                lemma_small_mod(0, ll);
                assert(poly_eval(newbasis.nats(), xn[m as int]) == 0);
                // at other already-cleared abscissas, zero stays zero
                assert forall|t: int| 0 <= t < m && t != i implies poly_eval(
                    newbasis.nats(),
                    xn[t],
                ) == 0 by {
                    assert(poly_eval(oldb, xn[t]) == 0);
                    assert(0nat * ((negc + xn[t]) % ll) == 0) by (nonlinear_arith);
                    lemma_small_mod(0, ll);
                }
                // the monomial value at the kept abscissa is the denominator
                assert(xn[i as int] != cm) by {
                    if (i as int) < m {
                        assert(xn[i as int] != xn[m as int]);
                    } else {
                        assert(xn[m as int] != xn[i as int]);
                    }
                }
                lemma_diff_nonzero(xn[i as int], cm);
                assert(den.as_nat() == (xn[i as int] + ll - cm) % ll as int);
                assert(den.as_nat() != 0);
                assert((den.as_nat() * inv.as_nat()) % ll == 1);
                assert((negc + xn[i as int]) % ll == den.as_nat()) by {
                    lemma_mod_small_l(xn[i as int]);
                    lemma_mod_add_l((group_order() - cm) as nat, xn[i as int]);
                }
                lemma_product_cancel(olde, acc.as_nat(), den.as_nat(), inv.as_nat());
            }
            basis = newbasis;
            acc = acc.mul(&inv);
        }
        m += 1;
    }
    let r = scale_coeffs(&basis, &acc);
    proof {
        assert forall|t: int| 0 <= t < xs@.len() implies poly_eval(r.nats(), xn[t]) == (poly_eval(
            basis.nats(),
            xn[t],
        ) * acc.as_nat()) % ll by {
            lemma_eval_scale(basis.nats(), acc.as_nat(), xn[t]);
        }
        assert forall|t: int| 0 <= t < xs@.len() && t != i implies poly_eval(r.nats(), xn[t])
            == 0 by {
            assert(poly_eval(basis.nats(), xn[t]) == 0);
            assert(0nat * acc.as_nat() == 0) by (nonlinear_arith);
            lemma_small_mod(0, ll);
        }
    }
    r
}

/// Whether all the field-element values in the vector are pairwise distinct.
pub fn distinct_scalars(xs: &Vec<Scalar>) -> (r: bool)
    ensures
        r <==> distinct_nats(nats_of(xs@)),
{
    let ghost xn = nats_of(xs@);
    let n = xs.len();
    let mut a: usize = 0;
    while a < n
        invariant
            a <= n,
            n == xs@.len(),
            xn == nats_of(xs@),
            forall|k: int, l: int| 0 <= k < l < n && k < a ==> xn[k] != xn[l],
        decreases n - a,
    {
        let mut b: usize = a + 1;
        while b < n
            invariant
                a < b <= n || (a + 1 == b && b > n),
                a < n,
                n == xs@.len(),
                xn == nats_of(xs@),
                forall|l: int| a < l < b ==> xn[a as int] != xn[l],
            decreases n - b,
        {
            if xs[a].equals(&xs[b]) {
                proof {
                    assert(xn[a as int] == xs@[a as int].as_nat());
                    assert(xn[b as int] == xs@[b as int].as_nat());
                    assert(xn[a as int] == xn[b as int]);
                    assert(!distinct_nats(xn));
                }
                return false;
            }
            b += 1;
        }
        a += 1;
    }
    true
}

/// Recovers by Lagrange interpolation the unique polynomial of least degree
/// through the points `(x[i], y[i])`; the result evaluates to `y[i]` at every
/// `x[i]` exactly.
pub fn recover_pri_poly(x: Vec<Scalar>, y: Vec<Scalar>) -> (r: Result<Poly, Error>)
    requires
        all_wf(x@),
        all_wf(y@),
        x@.len() + 2 <= usize::MAX,
    ensures
        r is Ok <==> (x@.len() == y@.len() && x@.len() > 0 && distinct_nats(nats_of(x@))),
        (x@.len() != y@.len()) <==> r == Err::<Poly, Error>(Error::LengthMismatch),
        (x@.len() == y@.len() && x@.len() == 0) <==> r == Err::<Poly, Error>(Error::EmptyInput),
        (x@.len() == y@.len() && x@.len() > 0 && !distinct_nats(nats_of(x@))) <==> r == Err::<
            Poly,
            Error,
        >(Error::DuplicateAbscissa),
        r matches Ok(p) ==> p.wf() && 1 <= p.coeffs@.len() <= x@.len() && (p.coeffs@.len() == 1
            || p.nats().last() != 0) && forall|t: int|
            0 <= t < x@.len() ==> poly_eval(p.nats(), nats_of(x@)[t]) == nats_of(y@)[t],
{
    let ghost ll = group_order();
    let ghost xn = nats_of(x@);
    let ghost yn = nats_of(y@);
    proof {
        lemma_group_order_large();
    }
    if x.len() != y.len() {
        return Err(Error::LengthMismatch);
    }
    if x.len() == 0 {
        return Err(Error::EmptyInput);
    }
    let n = x.len();
    // reject duplicate abscissas
    if !distinct_scalars(&x) {
        return Err(Error::DuplicateAbscissa);
    }
    assert(distinct_nats(xn));
    // accumulate the scaled basis polynomials
    let mut acc = Poly { coeffs: Vec::new() };
    let mut j: usize = 0;
    while j < n
        invariant
            j <= n,
            n == x@.len(),
            n == y@.len(),
            xn == nats_of(x@),
            yn == nats_of(y@),
            all_wf(x@),
            all_wf(y@),
            distinct_nats(xn),
            x@.len() + 2 <= usize::MAX,
            ll == group_order(),
            acc.wf(),
            acc.coeffs@.len() <= n,
            acc.coeffs@.len() == 0 || acc.nats().last() != 0,
            forall|t: int|
                0 <= t < n ==> poly_eval(acc.nats(), xn[t]) == if t < j {
                    yn[t]
                } else {
                    0nat
                },
        decreases n - j,
    {
        let basis = lagrange_basis(j, &x);
        let scaled = scale_coeffs(&basis, &y[j]);
        let ghost olda = acc.nats();
        let newacc = acc.add(&scaled);
        proof {
            lemma_trim_len(poly_add_nats(olda, scaled.nats()));
            lemma_trim_normalized(poly_add_nats(olda, scaled.nats()));
            assert(nats_wf(olda)) by {
                assert(forall|t: int|
                    0 <= t < olda.len() ==> (#[trigger] olda[t]) == acc.coeffs@[t].as_nat());
            }
            assert(nats_wf(scaled.nats())) by {
                assert(forall|t: int|
                    0 <= t < scaled.nats().len() ==> (#[trigger] scaled.nats()[t])
                        == scaled.coeffs@[t].as_nat());
            }
            assert forall|t: int| 0 <= t < n implies poly_eval(newacc.nats(), xn[t]) == if t < j
                + 1 {
                yn[t]
            } else {
                0nat
            } by {
                lemma_eval_add(olda, scaled.nats(), xn[t]);
                lemma_eval_scale(basis.nats(), yn[j as int], xn[t]);
                assert(poly_eval(newacc.nats(), xn[t]) == (poly_eval(olda, xn[t]) + poly_eval(
                    scaled.nats(),
                    xn[t],
                )) % ll);
                if t == j {
                    assert(poly_eval(basis.nats(), xn[t]) == 1);
                    assert(1nat * yn[t] == yn[t]) by (nonlinear_arith);
                    lemma_mod_small_l(yn[t]);
                    assert(poly_eval(scaled.nats(), xn[t]) == yn[t]);
                    lemma_mod_small_l(yn[t]);
                } else {
                    assert(poly_eval(basis.nats(), xn[t]) == 0);
                    assert(0nat * yn[j as int] == 0) by (nonlinear_arith);
                    lemma_small_mod(0, ll);
                    assert(poly_eval(scaled.nats(), xn[t]) == 0);
                    if t < j {
                        lemma_mod_small_l(yn[t]);
                    }
                }
            }
        }
        acc = newacc;
        j += 1;
    }
    // the degree-zero constant keeps one coefficient even when it is zero
    if acc.coeffs.len() == 0 {
        let ghost empty_nats = acc.nats();
        acc.coeffs.push(Scalar::zero());
        proof {
            assert(acc.nats() =~= seq![0nat]);
            assert forall|t: int| 0 <= t < n implies poly_eval(acc.nats(), xn[t]) == yn[t] by {
                lemma_eval_singleton(0nat, xn[t]);
                lemma_small_mod(0, ll);
                assert(poly_eval(empty_nats, xn[t]) == yn[t]);
            }
        }
    }
    Ok(acc)
}

} // verus!
