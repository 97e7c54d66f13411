//! The two source groups G1 and G2 and the target group GT.
//!
//! A point of G1 or G2 carries the discrete logarithm it was built with,
//! taken to the fixed generator of its group; an element of GT carries its
//! exponent to the base `e(G2, G1)`.  Since each generator has prime order
//! `group_order()` and the pairing is non-degenerate, logs in
//! `[0, group_order())` name the elements of each group one to one, and the
//! trusted wrappers' contracts below are exact.

use vstd::prelude::*;
use amcl::bn254::ecp::ECP;
use amcl::bn254::ecp2::ECP2;
use amcl::bn254::fp12::FP12;
use amcl::bn254::big::BIG;
use amcl::bn254::fp2::FP2;
use amcl::bn254::pair;
use amcl::bn254::rom;
use crate::model::add_mod;
use crate::model::group_order;
use crate::model::lemma_mod_in_range;
use crate::model::mul_mod;
use crate::model::neg_mod;
use crate::scalars::Scalar;

verus! {

/// amcl's G1 point, opaque to the verifier.
#[verifier::external_type_specification]
#[verifier::external_body]
pub struct ExEcp(ECP);

/// amcl's G2 point (over the quadratic extension), opaque to the verifier.
#[verifier::external_type_specification]
#[verifier::external_body]
pub struct ExEcp2(ECP2);

/// amcl's degree-12 extension field element, opaque to the verifier.
#[verifier::external_type_specification]
#[verifier::external_body]
pub struct ExFp12(FP12);

/// An element of G1: the point `dlog·G1` for the fixed generator `G1`.
pub struct G1Point {
    pub(crate) point: ECP,
    pub(crate) dlog: Ghost<nat>,
}

impl View for G1Point {
    type V = nat;

    closed spec fn view(&self) -> nat {
        self.dlog@
    }
}

/// An element of G2: the point `dlog·G2` for the fixed generator `G2`.
pub struct G2Point {
    pub(crate) point: ECP2,
    pub(crate) dlog: Ghost<nat>,
}

impl View for G2Point {
    type V = nat;

    closed spec fn view(&self) -> nat {
        self.dlog@
    }
}

/// An element of the order-r subgroup of GT: the power `e(G2, G1)^dlog`.
pub struct GtElement {
    pub(crate) fp: FP12,
    pub(crate) dlog: Ghost<nat>,
}

impl View for GtElement {
    type V = nat;

    closed spec fn view(&self) -> nat {
        self.dlog@
    }
}

/// Relies on amcl's `BIG::new_ints` and `ECP::new_bigs` rebuilding the G1
/// base point from the rom coordinates `CURVE_GX`, `CURVE_GY`; its log is 1.
#[verifier::external_body]
fn g1_generator_from_rom() -> (r: G1Point)
    ensures
        r@ == 1,
{
    let point_x = BIG::new_ints(&rom::CURVE_GX);
    let point_y = BIG::new_ints(&rom::CURVE_GY);
    G1Point { point: ECP::new_bigs(&point_x, &point_y), dlog: Ghost(0) }
}

/// The fixed public base point of G1, of log 1.
pub fn get_generator_of_g1() -> (r: G1Point)
    ensures
        r@ == 1,
        r.wf(),
{
    g1_generator_from_rom()
}

/// Relies on amcl's `FP2::new_bigs` and `ECP2::new_fp2s` rebuilding the G2
/// base point from the rom coordinates `CURVE_PXA/B`, `CURVE_PYA/B`; its
/// log is 1.
#[verifier::external_body]
fn g2_generator_from_rom() -> (r: G2Point)
    ensures
        r@ == 1,
{
    let point_xa = BIG::new_ints(&rom::CURVE_PXA);
    let point_xb = BIG::new_ints(&rom::CURVE_PXB);
    let point_ya = BIG::new_ints(&rom::CURVE_PYA);
    let point_yb = BIG::new_ints(&rom::CURVE_PYB);
    let point_x = FP2::new_bigs(&point_xa, &point_xb);
    let point_y = FP2::new_bigs(&point_ya, &point_yb);
    G2Point { point: ECP2::new_fp2s(&point_x, &point_y), dlog: Ghost(0) }
}

/// The fixed public base point of G2, of log 1.
pub fn get_generator_of_g2() -> (r: G2Point)
    ensures
        r@ == 1,
        r.wf(),
{
    g2_generator_from_rom()
}

/// Relies on amcl's `ECP::new` and `ECP::inf` producing the point at
/// infinity, the G1 identity, whose log is 0.
#[verifier::external_body]
fn g1_infinity() -> (r: G1Point)
    ensures
        r@ == 0,
{
    let mut point = ECP::new();
    point.inf();
    G1Point { point, dlog: Ghost(0) }
}

/// Relies on amcl's `pair::g1mul` computing the scalar multiple `e·P`; the
/// log of `e·P` is `log P · e` reduced mod the generator's order.
#[verifier::external_body]
fn g1_mul(p: &G1Point, e: &Scalar) -> (r: G1Point)
    requires
        p.wf(),
        e.wf(),
    ensures
        r@ == (p@ * e@) % group_order(),
{
    let mut exponent: BIG = e.big;
    G1Point { point: pair::g1mul(&p.point, &mut exponent), dlog: Ghost(0) }
}

/// Relies on amcl's `ECP::add` computing the elliptic-curve group sum; logs
/// add mod the generator's order.
#[verifier::external_body]
fn g1_add(p: &G1Point, q: &G1Point) -> (r: G1Point)
    requires
        p.wf(),
        q.wf(),
    ensures
        r@ == (p@ + q@) % group_order(),
{
    let mut sum: ECP = p.point;
    sum.add(&q.point);
    G1Point { point: sum, dlog: Ghost(0) }
}

/// Relies on amcl's `ECP::equals` deciding projective point equality; logs
/// in `[0, group_order())` name G1 points one to one, so point equality is
/// log equality.
#[verifier::external_body]
fn g1_equals(p: &G1Point, q: &G1Point) -> (r: bool)
    requires
        p.wf(),
        q.wf(),
    ensures
        r <==> p@ == q@,
{
    p.point.equals(&q.point)
}

/// Relies on amcl's `ECP::is_infinity`; the point at infinity is the one
/// element of log 0.
#[verifier::external_body]
fn g1_is_infinity(p: &G1Point) -> (r: bool)
    requires
        p.wf(),
    ensures
        r <==> p@ == 0,
{
    p.point.is_infinity()
}

impl G1Point {
    /// A well-formed element's log lies in `[0, group_order())`.
    pub open spec fn wf(&self) -> bool {
        self@ < group_order()
    }

    /// The group identity: the point at infinity.
    pub fn identity() -> (r: G1Point)
        ensures
            r@ == 0,
            r.wf(),
    {
        g1_infinity()
    }

    /// Scalar multiplication by the binary expansion of `e`.
    pub fn scalar_mul(&self, e: &Scalar) -> (r: G1Point)
        requires
            self.wf(),
            e.wf(),
        ensures
            r@ == mul_mod(self@, e@),
            r.wf(),
    {
        let r = g1_mul(self, e);
        proof {
            lemma_mod_in_range((self@ * e@) as nat);
        }
        r
    }

    /// The group sum of two elements.
    pub fn add(&self, other: &G1Point) -> (r: G1Point)
        requires
            self.wf(),
            other.wf(),
        ensures
            r@ == add_mod(self@, other@),
            r.wf(),
    {
        let r = g1_add(self, other);
        proof {
            lemma_mod_in_range((self@ + other@) as nat);
        }
        r
    }

    /// Whether two elements are the same point of G1.
    pub fn equals(&self, other: &G1Point) -> (r: bool)
        requires
            self.wf(),
            other.wf(),
        ensures
            r <==> self@ == other@,
    {
        g1_equals(self, other)
    }

    /// Whether this element is the group identity.
    pub fn is_identity(&self) -> (r: bool)
        requires
            self.wf(),
        ensures
            r <==> self@ == 0,
    {
        g1_is_infinity(self)
    }
}

/// Relies on amcl's `ECP2::new` producing the point at infinity, the G2
/// identity, whose log is 0.
#[verifier::external_body]
fn g2_infinity() -> (r: G2Point)
    ensures
        r@ == 0,
{
    let mut point = ECP2::new();
    point.inf();
    G2Point { point, dlog: Ghost(0) }
}

/// Relies on amcl's `pair::g2mul` computing the scalar multiple `e·P` on
/// the twist; the log of `e·P` is `log P · e` mod the generator's order.
#[verifier::external_body]
fn g2_mul(p: &G2Point, e: &Scalar) -> (r: G2Point)
    requires
        p.wf(),
        e.wf(),
    ensures
        r@ == (p@ * e@) % group_order(),
{
    G2Point { point: pair::g2mul(&p.point, &e.big), dlog: Ghost(0) }
}

/// Relies on amcl's `ECP2::add` computing the group sum on the twist; logs
/// add mod the generator's order.
#[verifier::external_body]
fn g2_add(p: &G2Point, q: &G2Point) -> (r: G2Point)
    requires
        p.wf(),
        q.wf(),
    ensures
        r@ == (p@ + q@) % group_order(),
{
    let mut sum: ECP2 = p.point;
    sum.add(&q.point);
    G2Point { point: sum, dlog: Ghost(0) }
}

/// Relies on amcl's `ECP2::equals` deciding projective point equality; logs
/// in `[0, group_order())` name G2 points one to one.
#[verifier::external_body]
fn g2_equals(p: &G2Point, q: &G2Point) -> (r: bool)
    requires
        p.wf(),
        q.wf(),
    ensures
        r <==> p@ == q@,
{
    p.point.equals(&q.point)
}

/// Relies on amcl's `ECP2::is_infinity`.
#[verifier::external_body]
fn g2_is_infinity(p: &G2Point) -> (r: bool)
    requires
        p.wf(),
    ensures
        r <==> p@ == 0,
{
    p.point.is_infinity()
}

impl G2Point {
    /// A well-formed element's log lies in `[0, group_order())`.
    pub open spec fn wf(&self) -> bool {
        self@ < group_order()
    }

    /// The group identity: the point at infinity.
    pub fn identity() -> (r: G2Point)
        ensures
            r@ == 0,
            r.wf(),
    {
        g2_infinity()
    }

    /// Scalar multiplication by the binary expansion of `e`.
    pub fn scalar_mul(&self, e: &Scalar) -> (r: G2Point)
        requires
            self.wf(),
            e.wf(),
        ensures
            r@ == mul_mod(self@, e@),
            r.wf(),
    {
        let r = g2_mul(self, e);
        proof {
            lemma_mod_in_range((self@ * e@) as nat);
        }
        r
    }

    /// The group sum of two elements.
    pub fn add(&self, other: &G2Point) -> (r: G2Point)
        requires
            self.wf(),
            other.wf(),
        ensures
            r@ == add_mod(self@, other@),
            r.wf(),
    {
        let r = g2_add(self, other);
        proof {
            lemma_mod_in_range((self@ + other@) as nat);
        }
        r
    }

    /// Whether two elements are the same point of G2.
    pub fn equals(&self, other: &G2Point) -> (r: bool)
        requires
            self.wf(),
            other.wf(),
        ensures
            r <==> self@ == other@,
    {
        g2_equals(self, other)
    }

    /// Whether this element is the group identity.
    pub fn is_identity(&self) -> (r: bool)
        requires
            self.wf(),
        ensures
            r <==> self@ == 0,
    {
        g2_is_infinity(self)
    }
}

/// Relies on amcl's `FP12::new_int` building the multiplicative identity of
/// the extension field, the GT identity, whose exponent is 0.
#[verifier::external_body]
fn gt_one() -> (r: GtElement)
    ensures
        r@ == 0,
{
    GtElement { fp: FP12::new_int(1), dlog: Ghost(0) }
}

/// Relies on amcl's `FP12::mul`, extension-field multiplication; on powers
/// of one base, exponents add mod the base's order.
#[verifier::external_body]
fn gt_mul(a: &GtElement, b: &GtElement) -> (r: GtElement)
    requires
        a.wf(),
        b.wf(),
    ensures
        r@ == (a@ + b@) % group_order(),
{
    let mut product: FP12 = a.fp;
    product.mul(&b.fp);
    GtElement { fp: product, dlog: Ghost(0) }
}

/// Relies on amcl's `FP12::inverse`, the extension-field multiplicative
/// inverse; on powers of one base, the exponent negates mod the order.
#[verifier::external_body]
fn gt_inverse(a: &GtElement) -> (r: GtElement)
    requires
        a.wf(),
    ensures
        r@ == neg_mod(a@),
{
    let mut inverse: FP12 = a.fp;
    inverse.inverse();
    GtElement { fp: inverse, dlog: Ghost(0) }
}

/// Relies on amcl's `FP12::reduce`, which only normalizes the coefficient
/// representation and leaves the field value, hence the exponent, unchanged.
#[verifier::external_body]
fn gt_reduce(a: &GtElement) -> (r: GtElement)
    requires
        a.wf(),
    ensures
        r@ == a@,
{
    let mut reduced: FP12 = a.fp;
    reduced.reduce();
    GtElement { fp: reduced, dlog: Ghost(0) }
}

/// Relies on amcl's `pair::gtpow` computing the power `d^e`; the exponent
/// of `d^e` is `log d · e` mod the base's order.
#[verifier::external_body]
fn gt_pow_raw(a: &GtElement, e: &Scalar) -> (r: GtElement)
    requires
        a.wf(),
        e.wf(),
    ensures
        r@ == (a@ * e@) % group_order(),
{
    GtElement { fp: pair::gtpow(&a.fp, &e.big), dlog: Ghost(0) }
}

/// Relies on amcl's `FP12::equals`, which reduces every coefficient before
/// comparing and so decides field-element equality exactly; powers of the
/// non-degenerate pairing value with exponents in `[0, group_order())` are
/// pairwise distinct field elements.
#[verifier::external_body]
fn gt_equals(a: &GtElement, b: &GtElement) -> (r: bool)
    requires
        a.wf(),
        b.wf(),
    ensures
        r <==> a@ == b@,
{
    a.fp.equals(&b.fp)
}

impl GtElement {
    /// A well-formed element's exponent lies in `[0, group_order())`.
    pub open spec fn wf(&self) -> bool {
        self@ < group_order()
    }

    /// The group identity: the multiplicative unit of the extension field.
    pub fn identity() -> (r: GtElement)
        ensures
            r@ == 0,
            r.wf(),
    {
        gt_one()
    }

    /// The product of two elements of GT.
    pub fn multiply(&self, other: &GtElement) -> (r: GtElement)
        requires
            self.wf(),
            other.wf(),
        ensures
            r@ == add_mod(self@, other@),
            r.wf(),
    {
        let r = gt_mul(self, other);
        proof {
            lemma_mod_in_range((self@ + other@) as nat);
        }
        r
    }

    /// The multiplicative inverse; the identity is its own inverse.
    pub fn invert(&self) -> (r: GtElement)
        requires
            self.wf(),
        ensures
            r@ == neg_mod(self@),
            r.wf(),
    {
        gt_inverse(self)
    }

    /// Canonicalizes the representation; the element itself is unchanged.
    pub fn reduce(&self) -> (r: GtElement)
        requires
            self.wf(),
        ensures
            r@ == self@,
            r.wf(),
    {
        gt_reduce(self)
    }

    /// Exponentiation by the binary expansion of `e` — GT's scalar
    /// multiplication.
    pub fn scalar_mul(&self, e: &Scalar) -> (r: GtElement)
        requires
            self.wf(),
            e.wf(),
        ensures
            r@ == mul_mod(self@, e@),
            r.wf(),
    {
        let r = gt_pow_raw(self, e);
        proof {
            lemma_mod_in_range((self@ * e@) as nat);
        }
        r
    }

    /// Whether two elements are the same element of GT.
    pub fn equals(&self, other: &GtElement) -> (r: bool)
        requires
            self.wf(),
            other.wf(),
        ensures
            r <==> self@ == other@,
    {
        gt_equals(self, other)
    }
}

} // verus!
