//! The Ate pairing: Miller loop, final exponentiation, and sampling of
//! random group elements.
//!
//! For points `q = b·G2` and `p = a·G1` the pairing value is
//! `e(G2, G1)^(a·b)`, so in the discrete-log model `pairing` multiplies
//! exponents mod the group order.  The point at infinity pairs to the GT
//! identity; the backing Miller loop does not treat infinity specially, so
//! the verified code screens it out before the loop runs.

use vstd::prelude::*;
use amcl::bn254::fp12::FP12;
use amcl::bn254::pair;
use crate::model::group_order;
use crate::model::lemma_mod_in_range;
use crate::model::mul_mod;
use crate::groups::G1Point;
use crate::groups::G2Point;
use crate::groups::GtElement;
use crate::scalars::get_random_element_from_gr;
use crate::groups::get_generator_of_g1;
use crate::groups::get_generator_of_g2;

verus! {

/// The Miller loop's output: an extension-field value that the final
/// exponentiation will carry to `e(G2, G1)^dlog`.
pub struct MillerValue {
    pub(crate) fp: FP12,
    pub(crate) dlog: Ghost<nat>,
}

impl View for MillerValue {
    type V = nat;

    closed spec fn view(&self) -> nat {
        self.dlog@
    }
}

impl MillerValue {
    /// A well-formed value's exponent lies in `[0, group_order())`.
    pub open spec fn wf(&self) -> bool {
        self@ < group_order()
    }
}

/// Relies on amcl's `pair::ate`, the optimal-Ate Miller loop: raised to
/// `(p^12 - 1)/r` its output is `e(G2, G1)^(log q · log p)`.  The loop
/// evaluates line functions at affine coordinates and has no case for the
/// point at infinity, so neither argument may be the identity.
#[verifier::external_body]
fn ate_miller_loop(q: &G2Point, p: &G1Point) -> (r: MillerValue)
    requires
        q.wf(),
        p.wf(),
        q@ != 0,
        p@ != 0,
    ensures
        r@ == (q@ * p@) % group_order(),
{
    MillerValue { fp: pair::ate(&q.point, &p.point), dlog: Ghost(0) }
}

/// Relies on amcl's `pair::fexp` raising the Miller-loop output to
/// `(p^12 - 1)/r`, which lands it in the order-r subgroup of GT.
#[verifier::external_body]
fn final_exponentiation(m: &MillerValue) -> (r: GtElement)
    requires
        m.wf(),
    ensures
        r@ == m@,
{
    GtElement { fp: pair::fexp(&m.fp), dlog: Ghost(0) }
}

/// The bilinear map: `pairing(b·G2, a·G1) == e(G2, G1)^(a·b mod r)`.
/// If either argument is its group's identity the result is the GT
/// identity, which the exponent product `mul_mod` also says.
pub fn pairing(q: &G2Point, p: &G1Point) -> (r: GtElement)
    requires
        q.wf(),
        p.wf(),
    ensures
        r@ == mul_mod(q@, p@),
        r.wf(),
{
    if q.is_identity() || p.is_identity() {
        proof {
            crate::model::lemma_mod_identity(0);
        }
        GtElement::identity()
    } else {
        let m = ate_miller_loop(q, p);
        proof {
            lemma_mod_in_range((q@ * p@) as nat);
        }
        final_exponentiation(&m)
    }
}

/// A random element of G1: the generator times a fresh random scalar.
pub fn get_point_from_g1() -> (r: G1Point)
    ensures
        r.wf(),
{
    let generator = get_generator_of_g1();
    let exponent = get_random_element_from_gr();
    generator.scalar_mul(&exponent)
}

/// A random element of G2: the generator times a fresh random scalar.
pub fn get_point_from_g2() -> (r: G2Point)
    ensures
        r.wf(),
{
    let generator = get_generator_of_g2();
    let exponent = get_random_element_from_gr();
    generator.scalar_mul(&exponent)
}

} // verus!
