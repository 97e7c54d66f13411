//! The mathematical model: exponent arithmetic modulo the group order.
//!
//! Every group element of the library carries the discrete logarithm it was
//! built with, and every operation's contract is stated over these spec
//! functions.

use vstd::prelude::*;

verus! {

/// The prime order of G1, G2 and GT: the BN254 curve order, the integer the
/// limbs of amcl's `rom::CURVE_ORDER` denote.
pub open spec fn group_order() -> nat {
    0x2523648240000001BA344D8000000007FF9F800000000010A10000000000000Dnat
}

/// The exponent of a product of powers of one base, and equally the
/// discrete logarithm of a scalar multiple: logs multiply into the pairing
/// and scale under scalar multiplication, always reduced mod the order.
pub open spec fn mul_mod(a: nat, b: nat) -> nat {
    (a * b) % group_order()
}

/// The discrete logarithm of a group sum (or of a GT product): logs add,
/// reduced mod the order.
pub open spec fn add_mod(a: nat, b: nat) -> nat {
    (a + b) % group_order()
}

/// The discrete logarithm of a group inverse: the negation mod the order.
pub open spec fn neg_mod(a: nat) -> nat
    recommends
        a < group_order(),
{
    if a == 0 {
        0
    } else {
        (group_order() - a) as nat
    }
}

/// A residue mod the group order lies below the order.
pub proof fn lemma_mod_in_range(x: nat)
    ensures
        x % group_order() < group_order(),
{
    vstd::arithmetic::div_mod::lemma_mod_division_less_than_divisor(
        x as int,
        group_order() as int,
    );
}

/// Reduction does nothing to a value already below the order.
pub proof fn lemma_mod_identity(x: nat)
    requires
        x < group_order(),
    ensures
        x % group_order() == x,
{
    vstd::arithmetic::div_mod::lemma_small_mod(x, group_order());
}

} // verus!
