use mimc_abc::groups::{g1_rand, g2_rand, pairing, Prng};
use mimc_abc::pairing::{create_check, PairingCheck};

#[test]
fn test_pairing_check_accumulator() {
    let mut rng = Prng::from_seed(61);
    let a = g1_rand(&mut rng);
    let b = g2_rand(&mut rng);
    let c = g1_rand(&mut rng);
    let d = g2_rand(&mut rng);

    let t1 = pairing(&a, &b);
    let t2 = pairing(&c, &d);

    // A single pair against its own pairing as the target.
    let check = create_check(&vec![a], &vec![b], Some(t1));
    assert!(check.verify(), "e(a, b) must equal its own pairing");

    // Merging two accumulators concatenates the pairs and multiplies the
    // targets.
    let mut merged = create_check(&vec![a], &vec![b], Some(t1));
    let other = create_check(&vec![c], &vec![d], Some(t2));
    merged.merge(&other);
    assert!(merged.verify(), "The merged product must match the merged target");

    // A foreign target is rejected.
    let wrong = create_check(&vec![a], &vec![b], Some(t2));
    assert!(!wrong.verify(), "A foreign target must be rejected");

    // An empty accumulator holds trivially.
    let empty = PairingCheck::new();
    assert!(empty.verify(), "The empty product is the identity");
}
