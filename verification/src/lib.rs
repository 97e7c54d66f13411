//! A self-checking bilinear pairing over the BN254 curve.
//!
//! The heavy lifting — big-integer arithmetic, elliptic-curve point
//! operations over the base field and its extensions, the Miller loop and
//! the final exponentiation — is done by the `amcl` crate.  This library
//! models every group element by its discrete logarithm with respect to the
//! fixed generator of its group: a point of G1 or G2 is `log·G`, an element
//! of the target group GT is `e(G2, G1)^log`, and all logs live in
//! `[0, group_order())`.  Under that model scalar multiplication, point
//! addition, the pairing and the GT operations become modular arithmetic on
//! exponents, and the bilinearity, identity and inverse-consistency laws are
//! proved outright.

mod model;
mod scalars;
mod groups;
mod pairing;
mod laws;
mod harness;

pub use model::add_mod;
pub use model::group_order;
pub use model::mul_mod;
pub use model::neg_mod;
pub use scalars::get_group_order;
pub use scalars::get_random_element_from_gr;
pub use scalars::get_rng;
pub use scalars::scalar_from_small;
pub use scalars::scalar_modmul;
pub use scalars::GroupOrder;
pub use scalars::Rng;
pub use scalars::Scalar;
pub use groups::get_generator_of_g1;
pub use groups::get_generator_of_g2;
pub use groups::G1Point;
pub use groups::G2Point;
pub use groups::GtElement;
pub use pairing::get_point_from_g1;
pub use pairing::get_point_from_g2;
pub use pairing::pairing;
pub use pairing::MillerValue;
pub use laws::lemma_gt_inverse_consistency;
pub use laws::lemma_identity_law;
pub use laws::lemma_mul_mod_comm;
pub use laws::lemma_non_degeneracy;
pub use laws::lemma_pairing_bilinear;
pub use laws::lemma_scalar_zero;
pub use harness::check_bilinearity;
pub use harness::check_identity;
pub use harness::check_inverse_consistency;
pub use harness::check_non_degeneracy;
pub use harness::check_reduce_idempotent;
pub use harness::check_scalar_zero;
pub use harness::run_verification;
