//! Scalars of the field Z_r, the group order, and the entropy source.
//!
//! The backing representation is amcl's `BIG`; each scalar carries its
//! mathematical value as a ghost field, and the trusted wrappers below keep
//! representation and value in step.

use vstd::prelude::*;
use amcl::bn254::big::BIG;
use amcl::bn254::rom;
use amcl::rand::RAND;
use rand::RngCore;
use crate::model::group_order;
use crate::model::lemma_mod_in_range;
use crate::model::mul_mod;

verus! {

/// amcl's multi-precision integer, opaque to the verifier.
#[verifier::external_type_specification]
#[verifier::external_body]
pub struct ExBig(BIG);

/// amcl's seeded pseudo-random generator, opaque to the verifier.
#[verifier::external_type_specification]
#[verifier::external_body]
pub struct ExRand(RAND);

/// The order of the pairing groups, held as the backing big integer.
pub struct GroupOrder {
    pub(crate) big: BIG,
}

impl View for GroupOrder {
    type V = nat;

    /// Every value of this type denotes the one curve order.
    closed spec fn view(&self) -> nat {
        group_order()
    }
}

/// A scalar: an integer of `[0, group_order())`, acting on the groups by
/// scalar multiplication and on GT by exponentiation.
pub struct Scalar {
    pub(crate) big: BIG,
    pub(crate) value: Ghost<nat>,
}

impl View for Scalar {
    type V = nat;

    closed spec fn view(&self) -> nat {
        self.value@
    }
}

impl Scalar {
    /// A well-formed scalar lies in `[0, group_order())`.
    pub open spec fn wf(&self) -> bool {
        self@ < group_order()
    }
}

/// A pseudo-random generator seeded from the operating system's entropy
/// pool, consumed when a scalar is sampled.
pub struct Rng {
    pub(crate) rng: RAND,
}

/// Relies on amcl's `BIG::new_ints` building the integer the limbs of
/// `rom::CURVE_ORDER` denote, which is `group_order()`.
#[verifier::external_body]
fn order_from_rom() -> (r: GroupOrder)
    ensures
        r@ == group_order(),
{
    GroupOrder { big: BIG::new_ints(&rom::CURVE_ORDER) }
}

/// The order of the pairing groups, rebuilt from the curve constants.
pub fn get_group_order() -> (r: GroupOrder)
    ensures
        r@ == group_order(),
{
    order_from_rom()
}

/// Draws 96 bytes from the operating system's secure entropy pool and
/// distils them into amcl's generator.  Relies on rand's `OsRng`, whose
/// `fill_bytes` aborts the process when entropy is unavailable, and on
/// amcl's `RAND::seed`.
#[verifier::external_body]
fn seeded_rng() -> (r: Rng) {
    let mut seed: Vec<u8> = vec![0u8; 96];
    rand::rngs::OsRng.fill_bytes(&mut seed);
    let mut rng = RAND::new();
    rng.clean();
    rng.seed(96, &seed);
    Rng { rng }
}

/// A pseudo-random generator freshly seeded with 96 bytes of entropy from
/// the operating system; the run aborts if no entropy can be had.
pub fn get_rng() -> (r: Rng) {
    seeded_rng()
}

/// Relies on amcl's `BIG::randomnum`, which reduces a freshly drawn random
/// integer modulo its first argument, here the group order.
#[verifier::external_body]
fn big_randomnum(order: &GroupOrder, rng: &mut Rng) -> (s: Scalar)
    ensures
        s@ < group_order(),
{
    Scalar { big: BIG::randomnum(&order.big, &mut rng.rng), value: Ghost(0) }
}

/// Relies on amcl's `BIG::new_int` placing a small nonnegative integer in
/// the lowest limb, which holds 56 bits.
#[verifier::external_body]
fn big_from_small(x: u64) -> (s: Scalar)
    requires
        x < 0x100000000000000,
    ensures
        s@ == x as nat,
{
    Scalar { big: BIG::new_int(x as isize), value: Ghost(0) }
}

/// Relies on amcl's `BIG::modmul` computing the product of its first two
/// arguments reduced modulo its third.
#[verifier::external_body]
fn big_modmul(a: &Scalar, b: &Scalar, m: &GroupOrder) -> (c: Scalar)
    ensures
        c@ == (a@ * b@) % group_order(),
{
    Scalar { big: BIG::modmul(&a.big, &b.big, &m.big), value: Ghost(0) }
}

/// Samples a scalar uniformly distributed in `[0, group_order())`,
/// reseeding from the operating system's entropy pool on every call.
pub fn get_random_element_from_gr() -> (s: Scalar)
    ensures
        s.wf(),
{
    let order = get_group_order();
    let mut rng = get_rng();
    big_randomnum(&order, &mut rng)
}

/// Builds the scalar with a given small value; the bound keeps the value
/// within one limb of the backing representation.
pub fn scalar_from_small(x: u64) -> (s: Scalar)
    requires
        x < 0x100000000000000,
    ensures
        s@ == x as nat,
        s.wf(),
{
    big_from_small(x)
}

/// The product of two scalars, reduced modulo the group order.
pub fn scalar_modmul(a: &Scalar, b: &Scalar, order: &GroupOrder) -> (c: Scalar)
    ensures
        c@ == mul_mod(a@, b@),
        c.wf(),
{
    let c = big_modmul(a, b, order);
    proof {
        lemma_mod_in_range((a@ * b@) as nat);
    }
    c
}

} // verus!
