//! The verification harness: the runtime checks of the pairing laws.
//!
//! Each check computes both sides of a law with the backing arithmetic and
//! compares them; each is proved to return `true`, so a `false` at runtime
//! can only mean the arithmetic substrate or the generator constants broke
//! the trusted contracts.

use vstd::prelude::*;
use crate::groups::get_generator_of_g1;
use crate::groups::get_generator_of_g2;
use crate::groups::G1Point;
use crate::groups::G2Point;
use crate::groups::GtElement;
use crate::laws::lemma_gt_inverse_consistency;
use crate::laws::lemma_identity_law;
use crate::laws::lemma_mul_mod_comm;
use crate::laws::lemma_non_degeneracy;
use crate::laws::lemma_pairing_bilinear;
use crate::laws::lemma_scalar_zero;
use crate::pairing::get_point_from_g1;
use crate::pairing::get_point_from_g2;
use crate::pairing::pairing;
use crate::scalars::get_group_order;
use crate::scalars::get_random_element_from_gr;
use crate::scalars::scalar_from_small;
use crate::scalars::scalar_modmul;
use crate::scalars::Scalar;

verus! {

/// Checks the core bilinearity law on the fixed generators:
/// `pairing(b·G2, a·G1)` reduced equals `pairing(G2, G1)^(a·b mod r)`
/// reduced.
pub fn check_bilinearity(a: &Scalar, b: &Scalar) -> (ok: bool)
    requires
        a.wf(),
        b.wf(),
    ensures
        ok,
{
    let gen_g1 = get_generator_of_g1();
    let gen_g2 = get_generator_of_g2();
    let p = gen_g1.scalar_mul(a);
    let q = gen_g2.scalar_mul(b);
    let left = pairing(&q, &p);
    let base = pairing(&gen_g2, &gen_g1);
    let order = get_group_order();
    let ab = scalar_modmul(a, b, &order);
    let right = base.scalar_mul(&ab);
    let left_reduced = left.reduce();
    let right_reduced = right.reduce();
    proof {
        lemma_pairing_bilinear(1, 1, b@, a@);
        lemma_mul_mod_comm(b@, a@);
    }
    left_reduced.equals(&right_reduced)
}

/// Checks the identity law in both source groups: the identity plus the
/// generator is the generator.
pub fn check_identity() -> (ok: bool)
    ensures
        ok,
{
    let gen_g1 = get_generator_of_g1();
    let sum_g1 = G1Point::identity().add(&gen_g1);
    let gen_g2 = get_generator_of_g2();
    let sum_g2 = G2Point::identity().add(&gen_g2);
    proof {
        lemma_identity_law(1);
    }
    let ok_g1 = sum_g1.equals(&gen_g1);
    let ok_g2 = sum_g2.equals(&gen_g2);
    ok_g1 && ok_g2
}

/// Checks non-degeneracy: the pairing of the generators is not the GT
/// identity.
pub fn check_non_degeneracy() -> (ok: bool)
    ensures
        ok,
{
    let gen_g1 = get_generator_of_g1();
    let gen_g2 = get_generator_of_g2();
    let paired = pairing(&gen_g2, &gen_g1);
    let one = GtElement::identity();
    proof {
        lemma_non_degeneracy();
    }
    !paired.equals(&one)
}

/// Checks inverse consistency in GT: with `pair1 = pairing(q1, p1)` and
/// `pair2 = pairing(q2, p2)`, the product `pair1 · pair2 · pair1⁻¹`
/// reduced equals `pair2` reduced.
pub fn check_inverse_consistency(
    p1: &G1Point,
    q1: &G2Point,
    p2: &G1Point,
    q2: &G2Point,
) -> (ok: bool)
    requires
        p1.wf(),
        q1.wf(),
        p2.wf(),
        q2.wf(),
    ensures
        ok,
{
    let pair1 = pairing(q1, p1);
    let pair2 = pairing(q2, p2);
    let product = pair1.multiply(&pair2);
    let inverse1 = pair1.invert();
    let cancelled = product.multiply(&inverse1);
    let left_reduced = cancelled.reduce();
    let right_reduced = pair2.reduce();
    proof {
        lemma_gt_inverse_consistency(pair1@, pair2@);
    }
    left_reduced.equals(&right_reduced)
}

/// Checks the scalar-zero edge case in all three groups: any element times
/// the scalar 0 is its group's identity.
pub fn check_scalar_zero(p: &G1Point, q: &G2Point, t: &GtElement) -> (ok: bool)
    requires
        p.wf(),
        q.wf(),
        t.wf(),
    ensures
        ok,
{
    let zero = scalar_from_small(0);
    proof {
        lemma_scalar_zero(p@);
        lemma_scalar_zero(q@);
        lemma_scalar_zero(t@);
    }
    let ok_g1 = p.scalar_mul(&zero).equals(&G1Point::identity());
    let ok_g2 = q.scalar_mul(&zero).equals(&G2Point::identity());
    let ok_gt = t.scalar_mul(&zero).equals(&GtElement::identity());
    ok_g1 && ok_g2 && ok_gt
}

/// Checks that reduction is idempotent: reducing a GT element twice gives
/// the same element as reducing it once.
pub fn check_reduce_idempotent(x: &GtElement) -> (ok: bool)
    requires
        x.wf(),
    ensures
        ok,
{
    let once = x.reduce();
    let twice = once.reduce();
    twice.equals(&once)
}

/// The whole verification run: samples fresh scalars and points, then
/// checks bilinearity, the identity law and inverse consistency.
pub fn run_verification() -> (ok: bool)
    ensures
        ok,
{
    let a = get_random_element_from_gr();
    let b = get_random_element_from_gr();
    let ok_bilinear = check_bilinearity(&a, &b);
    let ok_identity = check_identity();
    let p1 = get_point_from_g1();
    let q1 = get_point_from_g2();
    let p2 = get_point_from_g1();
    let q2 = get_point_from_g2();
    let ok_inverse = check_inverse_consistency(&p1, &q1, &p2, &q2);
    ok_bilinear && ok_identity && ok_inverse
}

} // verus!
