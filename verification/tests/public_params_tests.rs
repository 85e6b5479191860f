use mimc_abc::groups::Prng;
use mimc_abc::public_params::PublicParams;

#[test]
fn test_pp_gen() {
    let n: usize = 4;
    let mut rng = Prng::from_seed(42);
    let pp = PublicParams::new(&n, &mut rng);

    assert_eq!(pp.ck.len(), n, "ck length should match n");
    assert_eq!(pp.ck_tilde.len(), n, "ck_tilde length should match n");
    assert_eq!(pp.get_g1_bases().len(), n + 1, "g1 bases should include g");
    assert_eq!(pp.get_g1_basesv2().len(), n + 1);
    assert_eq!(pp.get_g_tilde_bases().len(), n + 1);
    assert_eq!(pp.get_y_values().len(), n);
}
