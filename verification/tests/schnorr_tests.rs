use mimc_abc::commitment::CommitmentKey;
use mimc_abc::credential::Credential;
use mimc_abc::groups::{fr_rand, g1_eq, g1_msm, g2_eq, gt_eq, pairing, Fr, Prng};
use mimc_abc::protocol::MimcAbc;
use mimc_abc::public_params::PublicParams;
use mimc_abc::schnorr::SchnorrProtocol;

#[test]
fn test_schnorr_completeness_and_soundness() {
    let mut rng = Prng::from_seed(21);
    let n: usize = 3;
    let pp = PublicParams::new(&n, &mut rng);
    let bases = pp.get_g1_bases();

    let mut exponents: Vec<Fr> = Vec::new();
    for _ in 0..bases.len() {
        exponents.push(fr_rand(&mut rng));
    }
    let statement = g1_msm(&bases, &exponents);

    let state = SchnorrProtocol::commit(&bases, &mut rng);
    let challenge = fr_rand(&mut rng);
    let responses = SchnorrProtocol::prove(&state, &exponents, &challenge);

    assert!(
        SchnorrProtocol::verify_schnorr(&bases, &statement, &state.commitment, &responses, &challenge),
        "An honest Schnorr proof must verify"
    );

    for i in 0..responses.len() {
        let mut tampered = responses.clone();
        tampered[i] = fr_rand(&mut rng);
        assert!(
            !SchnorrProtocol::verify_schnorr(
                &bases,
                &statement,
                &state.commitment,
                &tampered,
                &challenge
            ),
            "A tampered response must be rejected"
        );
    }

    let wrong_challenge = fr_rand(&mut rng);
    assert!(
        !SchnorrProtocol::verify_schnorr(
            &bases,
            &statement,
            &state.commitment,
            &responses,
            &wrong_challenge
        ),
        "A changed challenge must be rejected"
    );

    let mut short = responses.clone();
    short.pop();
    assert!(
        !SchnorrProtocol::verify_schnorr(&bases, &statement, &state.commitment, &short, &challenge),
        "A response vector of the wrong length must be rejected"
    );
}

#[test]
fn test_commitment_pairing_consistency() {
    let mut rng = Prng::from_seed(22);
    for n in [1usize, 4] {
        let pp = PublicParams::new(&n, &mut rng);
        let ck = CommitmentKey { ck: pp.ck.clone(), ck_tilde: pp.ck_tilde.clone() };
        let mut messages: Vec<Fr> = Vec::new();
        for _ in 0..n {
            messages.push(fr_rand(&mut rng));
        }
        let r = fr_rand(&mut rng);
        let cm = ck.commit(&pp, &messages, &r);
        let lhs = pairing(&cm.cm, &pp.g_tilde);
        let rhs = pairing(&pp.g, &cm.cm_tilde);
        assert!(gt_eq(&lhs, &rhs), "e(cm, g_tilde) must equal e(g, cm_tilde)");
    }
}

#[test]
fn test_issuance_correctness() {
    let mut rng = Prng::from_seed(23);
    let n: usize = 5;
    let (protocol, issuer_sk, issuer_vk) = MimcAbc::setup(n, &mut rng);
    let mut messages: Vec<Fr> = Vec::new();
    for _ in 0..n {
        messages.push(fr_rand(&mut rng));
    }
    let r = fr_rand(&mut rng);
    let cm = protocol.ck.commit(&protocol.pp, &messages, &r);
    let signature = issuer_sk.sign(&cm, &protocol.pp, &mut rng);
    assert!(
        issuer_vk.verify(&signature, &cm, &protocol.pp),
        "A fresh signature on a fresh commitment must verify"
    );
    assert!(
        issuer_vk.verify_with_pairing_checker(&signature, &cm, &protocol.pp),
        "The accumulated route must accept it as well"
    );
}

#[test]
fn test_randomization_soundness() {
    let mut rng = Prng::from_seed(24);
    let n: usize = 3;
    let (protocol, issuer_sk, issuer_vk) = MimcAbc::setup(n, &mut rng);
    let mut messages: Vec<Fr> = Vec::new();
    for _ in 0..n {
        messages.push(fr_rand(&mut rng));
    }
    let r = fr_rand(&mut rng);
    let cm = protocol.ck.commit(&protocol.pp, &messages, &r);
    let signature = issuer_sk.sign(&cm, &protocol.pp, &mut rng);

    for _ in 0..3 {
        let delta_r = fr_rand(&mut rng);
        let delta_u = fr_rand(&mut rng);
        let randomized_signature = signature.randomize(&delta_r, &delta_u);
        let randomized_commitment = cm.randomize(&protocol.pp, &delta_r);
        assert!(
            issuer_vk.verify(&randomized_signature, &randomized_commitment, &protocol.pp),
            "A consistently randomized pair must keep verifying"
        );
    }
}

#[test]
fn test_show_unlinkability() {
    let mut rng = Prng::from_seed(25);
    let n: usize = 4;
    let (protocol, issuer_sk, issuer_vk) = MimcAbc::setup(n, &mut rng);
    let mut messages: Vec<Fr> = Vec::new();
    for _ in 0..n {
        messages.push(fr_rand(&mut rng));
    }
    let r = fr_rand(&mut rng);
    let mut credential = Credential::new(&protocol.ck, &protocol.pp, &messages, r);
    let opening = credential.prove_commitment(&protocol.pp, &mut rng);
    let signature = protocol
        .issue(&opening, &issuer_sk, &mut rng)
        .expect("Issuance failed");
    credential.add_signature(signature);

    let first = protocol.show(&credential, &mut rng).expect("Show failed");
    let second = protocol.show(&credential, &mut rng).expect("Show failed");

    assert!(first.verify(&protocol.pp, &issuer_vk));
    assert!(second.verify(&protocol.pp, &issuer_vk));

    assert!(
        !g1_eq(&first.randomized_commitment.cm, &second.randomized_commitment.cm),
        "Two shows must carry distinct commitments"
    );
    assert!(!g2_eq(
        &first.randomized_commitment.cm_tilde,
        &second.randomized_commitment.cm_tilde
    ));
    assert!(
        !g1_eq(
            &first.randomized_signature.sigma1,
            &second.randomized_signature.sigma1
        ),
        "Two shows must carry distinct signatures"
    );
    assert!(!g1_eq(
        &first.randomized_signature.sigma2,
        &second.randomized_signature.sigma2
    ));
}
