use pairing_check::check_bilinearity;
use pairing_check::check_identity;
use pairing_check::check_inverse_consistency;
use pairing_check::check_non_degeneracy;
use pairing_check::check_reduce_idempotent;
use pairing_check::check_scalar_zero;
use pairing_check::get_generator_of_g1;
use pairing_check::get_generator_of_g2;
use pairing_check::get_group_order;
use pairing_check::get_point_from_g1;
use pairing_check::get_point_from_g2;
use pairing_check::get_random_element_from_gr;
use pairing_check::pairing;
use pairing_check::run_verification;
use pairing_check::scalar_from_small;
use pairing_check::scalar_modmul;
use pairing_check::G1Point;
use pairing_check::G2Point;
use pairing_check::GtElement;

#[test]
fn bilinearity_with_fixed_scalars() {
    let a = scalar_from_small(7);
    let b = scalar_from_small(11);
    assert!(check_bilinearity(&a, &b));
}

#[test]
fn bilinearity_with_random_scalars() {
    let a = get_random_element_from_gr();
    let b = get_random_element_from_gr();
    assert!(check_bilinearity(&a, &b));
}

#[test]
fn bilinearity_matches_explicit_exponent() {
    // pairing(11*G2, 7*G1), reduced, must equal pairing(G2, G1)^77, reduced.
    let a = scalar_from_small(7);
    let b = scalar_from_small(11);
    let gen_g1 = get_generator_of_g1();
    let gen_g2 = get_generator_of_g2();
    let p = gen_g1.scalar_mul(&a);
    let q = gen_g2.scalar_mul(&b);
    let left = pairing(&q, &p).reduce();
    let exponent = scalar_from_small(77);
    let right = pairing(&gen_g2, &gen_g1).scalar_mul(&exponent).reduce();
    assert!(left.equals(&right));
}

#[test]
fn bilinearity_distinguishes_exponents() {
    // The same pairing must differ from the generator pairing raised to 78.
    let a = scalar_from_small(7);
    let b = scalar_from_small(11);
    let gen_g1 = get_generator_of_g1();
    let gen_g2 = get_generator_of_g2();
    let p = gen_g1.scalar_mul(&a);
    let q = gen_g2.scalar_mul(&b);
    let left = pairing(&q, &p).reduce();
    let exponent = scalar_from_small(78);
    let right = pairing(&gen_g2, &gen_g1).scalar_mul(&exponent).reduce();
    assert!(!left.equals(&right));
}

#[test]
fn scalar_modmul_matches_plain_product() {
    // 7 * 11 = 77 stays below the order, so the modular product is exact.
    let a = scalar_from_small(7);
    let b = scalar_from_small(11);
    let order = get_group_order();
    let ab = scalar_modmul(&a, &b, &order);
    let gen_g1 = get_generator_of_g1();
    let gen_g2 = get_generator_of_g2();
    let base = pairing(&gen_g2, &gen_g1);
    let via_modmul = base.scalar_mul(&ab).reduce();
    let via_literal = base.scalar_mul(&scalar_from_small(77)).reduce();
    assert!(via_modmul.equals(&via_literal));
}

#[test]
fn identity_law_holds() {
    assert!(check_identity());
}

#[test]
fn identity_plus_generator_is_generator() {
    let gen_g1 = get_generator_of_g1();
    let sum = G1Point::identity().add(&gen_g1);
    assert!(sum.equals(&gen_g1));
    let gen_g2 = get_generator_of_g2();
    let sum2 = G2Point::identity().add(&gen_g2);
    assert!(sum2.equals(&gen_g2));
}

#[test]
fn generator_sum_is_double() {
    // G1 + G1 must equal 2*G1: fails if add or scalar_mul returned an
    // argument unchanged.
    let gen_g1 = get_generator_of_g1();
    let two = scalar_from_small(2);
    let doubled = gen_g1.scalar_mul(&two);
    let sum = gen_g1.add(&gen_g1);
    assert!(sum.equals(&doubled));
    assert!(!sum.equals(&gen_g1));
}

#[test]
fn non_degeneracy_holds() {
    assert!(check_non_degeneracy());
}

#[test]
fn pairing_of_identity_is_gt_identity() {
    let gen_g1 = get_generator_of_g1();
    let gen_g2 = get_generator_of_g2();
    let one = GtElement::identity();
    assert!(pairing(&gen_g2, &G1Point::identity()).equals(&one));
    assert!(pairing(&G2Point::identity(), &gen_g1).equals(&one));
}

#[test]
fn inverse_consistency_with_random_points() {
    let p1 = get_point_from_g1();
    let q1 = get_point_from_g2();
    let p2 = get_point_from_g1();
    let q2 = get_point_from_g2();
    assert!(check_inverse_consistency(&p1, &q1, &p2, &q2));
}

#[test]
fn gt_element_times_own_inverse_is_identity() {
    let gen_g1 = get_generator_of_g1();
    let gen_g2 = get_generator_of_g2();
    let paired = pairing(&gen_g2, &gen_g1);
    let product = paired.multiply(&paired.invert()).reduce();
    assert!(product.equals(&GtElement::identity().reduce()));
}

#[test]
fn scalar_zero_gives_identity() {
    let p = get_point_from_g1();
    let q = get_point_from_g2();
    let gen_g1 = get_generator_of_g1();
    let gen_g2 = get_generator_of_g2();
    let t = pairing(&gen_g2, &gen_g1);
    assert!(check_scalar_zero(&p, &q, &t));
    assert!(check_scalar_zero(&gen_g1, &gen_g2, &t));
}

#[test]
fn reduce_is_idempotent() {
    let gen_g1 = get_generator_of_g1();
    let gen_g2 = get_generator_of_g2();
    let a = scalar_from_small(7);
    let x = pairing(&gen_g2, &gen_g1).scalar_mul(&a);
    assert!(check_reduce_idempotent(&x));
    assert!(check_reduce_idempotent(&GtElement::identity()));
}

#[test]
fn whole_verification_run_passes() {
    assert!(run_verification());
}
