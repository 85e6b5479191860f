use mimc_abc::commitment::CommitmentKey;
use mimc_abc::error::Error;
use mimc_abc::groups::{fr_rand, Fr, Prng};
use mimc_abc::identity_binding::{IdentityBinding, IdentityBindingProof};
use mimc_abc::public_params::PublicParams;
use mimc_abc::schnorr::SchnorrProtocol;
use mimc_abc::util::copy_vec;

#[test]
fn test_identity_binding_proof() {
    let mut rng = Prng::from_seed(31);

    // Create multiple public parameters.
    let n: usize = 5;
    let pp1 = PublicParams::new(&n, &mut rng);
    let pp2 = PublicParams::new(&n, &mut rng);
    let pp3 = PublicParams::new(&n, &mut rng);

    let ck1 = CommitmentKey { ck: pp1.ck.clone(), ck_tilde: pp1.ck_tilde.clone() };
    let ck2 = CommitmentKey { ck: pp2.ck.clone(), ck_tilde: pp2.ck_tilde.clone() };
    let ck3 = CommitmentKey { ck: pp3.ck.clone(), ck_tilde: pp3.ck_tilde.clone() };

    // A shared identity at position 0, independent attributes elsewhere.
    let user_id = fr_rand(&mut rng);
    let mut messages1: Vec<Fr> = vec![user_id];
    let mut messages2: Vec<Fr> = vec![user_id];
    let mut messages3: Vec<Fr> = vec![user_id];
    for _ in 1..n {
        messages1.push(fr_rand(&mut rng));
        messages2.push(fr_rand(&mut rng));
        messages3.push(fr_rand(&mut rng));
    }

    let r1 = fr_rand(&mut rng);
    let r2 = fr_rand(&mut rng);
    let r3 = fr_rand(&mut rng);

    let commitment1 = ck1.commit(&pp1, &messages1, &r1);
    let commitment2 = ck2.commit(&pp2, &messages2, &r2);
    let commitment3 = ck3.commit(&pp3, &messages3, &r3);

    let ib = IdentityBinding::prove(
        &vec![commitment1, commitment2, commitment3],
        &vec![messages1.clone(), messages2, messages3],
        &vec![r1, r2, r3],
        &vec![&pp1, &pp2, &pp3],
        &mut rng,
    )
    .expect("Proof creation should succeed");

    let is_valid = IdentityBinding::verify(&ib, &vec![&pp1, &pp2, &pp3])
        .expect("Verification should complete");
    assert!(is_valid, "Identity binding proof should verify successfully");

    // Negative case: a different identity at position 0.
    let different_id = fr_rand(&mut rng);
    let mut messages4: Vec<Fr> = vec![different_id];
    for _ in 1..n {
        messages4.push(fr_rand(&mut rng));
    }
    let r4 = fr_rand(&mut rng);
    let commitment4 = ck1.commit(&pp1, &messages4, &r4);

    let invalid = IdentityBinding::prove(
        &vec![commitment1, commitment4],
        &vec![messages1, messages4],
        &vec![r1, r4],
        &vec![&pp1, &pp1],
        &mut rng,
    );
    assert!(invalid.is_err(), "Proof with different user IDs should fail");
    assert!(
        matches!(invalid, Err(Error::Other(m)) if m == "User identifiers must be identical"),
        "The rejection must name the identifier mismatch"
    );
}

#[test]
fn test_identity_binding_forged_link_rejected() {
    let mut rng = Prng::from_seed(32);
    let n: usize = 2;
    let pp1 = PublicParams::new(&n, &mut rng);
    let pp2 = PublicParams::new(&n, &mut rng);
    let ck1 = CommitmentKey { ck: pp1.ck.clone(), ck_tilde: pp1.ck_tilde.clone() };
    let ck2 = CommitmentKey { ck: pp2.ck.clone(), ck_tilde: pp2.ck_tilde.clone() };

    // Two different identities: the construction-time check is bypassed by
    // assembling a transcript by hand.
    let messages1: Vec<Fr> = vec![fr_rand(&mut rng), fr_rand(&mut rng)];
    let messages2: Vec<Fr> = vec![fr_rand(&mut rng), fr_rand(&mut rng)];
    let r1 = fr_rand(&mut rng);
    let r2 = fr_rand(&mut rng);
    let commitment1 = ck1.commit(&pp1, &messages1, &r1);
    let commitment2 = ck2.commit(&pp2, &messages2, &r2);

    let bases1 = pp1.get_g1_bases();
    let bases2 = pp2.get_g1_bases();
    let blindings1: Vec<Fr> = vec![fr_rand(&mut rng), fr_rand(&mut rng), fr_rand(&mut rng)];
    let blindings2: Vec<Fr> = vec![fr_rand(&mut rng), fr_rand(&mut rng), fr_rand(&mut rng)];
    let sc1 = SchnorrProtocol::commit_with_prepared_blindings(&bases1, &blindings1);
    let sc2 = SchnorrProtocol::commit_with_prepared_blindings(&bases2, &blindings2);

    let challenge = fr_rand(&mut rng);
    let mut exponents1 = copy_vec(&messages1);
    exponents1.push(r1);
    let mut exponents2 = copy_vec(&messages2);
    exponents2.push(r2);
    let responses1 = SchnorrProtocol::prove(&sc1, &exponents1, &challenge);
    let responses2 = SchnorrProtocol::prove(&sc2, &exponents2, &challenge);

    let forged = IdentityBindingProof {
        commitments: vec![commitment1, commitment2],
        schnorr_commitments: vec![sc1, sc2],
        challenge,
        responses: vec![responses1, responses2],
    };

    // Every per-credential Schnorr equation holds, but the responses at
    // index 0 disagree, so verification must reject the transcript.
    let verdict = forged
        .verify(&vec![&pp1, &pp2])
        .expect("Verification should complete");
    assert!(!verdict, "A transcript without a shared identity must be rejected");
}
