//! The algebraic laws the pairing pipeline is checked against, proved over
//! the discrete-log model that every contract of the library speaks in.

use vstd::prelude::*;
use crate::model::add_mod;
use crate::model::group_order;
use crate::model::lemma_mod_identity;
use crate::model::mul_mod;
use crate::model::neg_mod;

verus! {

/// Bilinearity: for any points of logs `q` and `p` and any scalars `a`
/// and `b`, pairing the scalar multiples `a·Q` and `b·P` gives the pairing
/// of `Q` and `P` raised to `a·b mod r`.
pub proof fn lemma_pairing_bilinear(q: nat, p: nat, a: nat, b: nat)
    ensures
        mul_mod(mul_mod(q, a), mul_mod(p, b)) == mul_mod(mul_mod(q, p), mul_mod(a, b)),
{
    let r = group_order() as int;
    vstd::arithmetic::div_mod::lemma_mul_mod_noop((q * a) as int, (p * b) as int, r);
    vstd::arithmetic::div_mod::lemma_mul_mod_noop((q * p) as int, (a * b) as int, r);
    assert((q * a) * (p * b) == (q * p) * (a * b)) by (nonlinear_arith);
}

/// The product of two scalars does not depend on their order, and neither
/// does the pairing exponent.
pub proof fn lemma_mul_mod_comm(a: nat, b: nat)
    ensures
        mul_mod(a, b) == mul_mod(b, a),
{
    vstd::arithmetic::mul::lemma_mul_is_commutative(a as int, b as int);
}

/// The identity law: adding the group identity (log 0) to any element
/// leaves the element as it was.
pub proof fn lemma_identity_law(x: nat)
    requires
        x < group_order(),
    ensures
        add_mod(0, x) == x,
        add_mod(x, 0) == x,
{
    lemma_mod_identity(x);
}

/// Non-degeneracy: the pairing of the two generators (logs 1 and 1) is not
/// the GT identity (exponent 0).
pub proof fn lemma_non_degeneracy()
    ensures
        mul_mod(1, 1) == 1,
        mul_mod(1, 1) != 0,
{
    lemma_mod_identity(1);
}

/// Inverse consistency: multiplying a GT product by the inverse of one
/// factor leaves the other factor.
pub proof fn lemma_gt_inverse_consistency(x: nat, y: nat)
    requires
        x < group_order(),
        y < group_order(),
    ensures
        add_mod(add_mod(x, y), neg_mod(x)) == y,
{
    let r = group_order() as int;
    let n = neg_mod(x) as int;
    vstd::arithmetic::div_mod::lemma_small_mod(neg_mod(x), group_order());
    vstd::arithmetic::div_mod::lemma_add_mod_noop((x + y) as int, n, r);
    if x == 0 {
        lemma_mod_identity(y);
    } else {
        vstd::arithmetic::div_mod::lemma_mod_add_multiples_vanish(y as int, r);
        lemma_mod_identity(y);
    }
}

/// The scalar-zero edge case: any element times the scalar 0 is the group
/// identity (log 0).
pub proof fn lemma_scalar_zero(p: nat)
    ensures
        mul_mod(p, 0) == 0,
        mul_mod(0, p) == 0,
{
    lemma_mod_identity(0);
}

} // verus!
