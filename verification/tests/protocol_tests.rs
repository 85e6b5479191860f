use mimc_abc::credential::Credential;
use mimc_abc::error::Error;
use mimc_abc::groups::{fr_rand, g1_add, Fr, Prng};
use mimc_abc::protocol::MimcAbc;
use mimc_abc::signature::Signature;

#[test]
fn test_mimc_abc_credential_lifecycle() {
    let mut rng = Prng::from_seed(7);
    let n: usize = 4;
    let (protocol, issuer_sk, issuer_vk) = MimcAbc::setup(n, &mut rng);

    let user_id = fr_rand(&mut rng);
    let mut attributes_with_id: Vec<Fr> = vec![user_id];
    for _ in 0..n - 1 {
        attributes_with_id.push(fr_rand(&mut rng));
    }
    println!("Attributes: {}", attributes_with_id.len());

    let r = fr_rand(&mut rng);
    let mut credential = Credential::new(&protocol.ck, &protocol.pp, &attributes_with_id, r);

    let opening = protocol.obtain(&credential, &mut rng);

    let key_proof = protocol.prove_key_correctness(&issuer_sk, &mut rng);
    assert!(
        protocol.verify_key_correctness(&key_proof, &issuer_vk),
        "Valid issuer key verification should succeed"
    );

    let signature = protocol
        .issue(&opening, &issuer_sk, &mut rng)
        .expect("Issuance failed");
    credential.add_signature(signature);

    assert!(
        credential.verify(&protocol.pp, &issuer_vk),
        "Original credential verification failed"
    );

    let presentation = protocol
        .show(&credential, &mut rng)
        .expect("Show should succeed on a signed credential");
    assert!(
        protocol.verify(presentation, &issuer_vk),
        "Credential presentation verification failed"
    );
}

#[test]
fn test_issuer_key_verification() {
    let mut rng = Prng::from_seed(11);
    let n: usize = 4;
    let (protocol, issuer_sk, issuer_vk) = MimcAbc::setup(n, &mut rng);

    let key_proof = protocol.prove_key_correctness(&issuer_sk, &mut rng);
    assert!(
        protocol.verify_key_correctness(&key_proof, &issuer_vk),
        "Valid issuer key verification should succeed"
    );
}

#[test]
fn test_issuer_key_proof_tampering() {
    let mut rng = Prng::from_seed(12);
    let n: usize = 4;
    let (protocol, issuer_sk, issuer_vk) = MimcAbc::setup(n, &mut rng);
    let key_proof = protocol.prove_key_correctness(&issuer_sk, &mut rng);
    assert!(protocol.verify_key_correctness(&key_proof, &issuer_vk));

    let mut tampered = key_proof.clone();
    tampered.t2[0] = protocol.pp.g_tilde;
    assert!(
        !protocol.verify_key_correctness(&tampered, &issuer_vk),
        "Replacing a t2 entry by the generator must be rejected"
    );

    let mut tampered = key_proof.clone();
    tampered.t1[0] = protocol.pp.g;
    assert!(!protocol.verify_key_correctness(&tampered, &issuer_vk));

    let mut tampered = key_proof.clone();
    tampered.x_response = fr_rand(&mut rng);
    assert!(!protocol.verify_key_correctness(&tampered, &issuer_vk));

    let mut tampered = key_proof.clone();
    tampered.responses[1] = fr_rand(&mut rng);
    assert!(!protocol.verify_key_correctness(&tampered, &issuer_vk));

    let mut tampered = key_proof.clone();
    tampered.challenge = fr_rand(&mut rng);
    assert!(!protocol.verify_key_correctness(&tampered, &issuer_vk));
}

#[test]
fn test_unsigned_credential_rejection() {
    let mut rng = Prng::from_seed(13);
    let n: usize = 3;
    let (protocol, _issuer_sk, issuer_vk) = MimcAbc::setup(n, &mut rng);

    let mut messages: Vec<Fr> = Vec::new();
    for _ in 0..n {
        messages.push(fr_rand(&mut rng));
    }
    let r = fr_rand(&mut rng);
    let credential = Credential::new(&protocol.ck, &protocol.pp, &messages, r);

    assert!(
        !credential.verify(&protocol.pp, &issuer_vk),
        "An unsigned credential must not verify"
    );

    let delta_r = fr_rand(&mut rng);
    let delta_u = fr_rand(&mut rng);
    let shown = credential.show(&protocol.pp, &delta_r, &delta_u, &mut rng);
    assert!(
        matches!(shown, Err(Error::InvalidCredentialState { .. })),
        "Showing an unsigned credential must report an invalid state"
    );
}

#[test]
fn test_forged_signature() {
    let mut rng = Prng::from_seed(14);
    let n: usize = 4;
    let (protocol, issuer_sk, issuer_vk) = MimcAbc::setup(n, &mut rng);

    let mut messages: Vec<Fr> = Vec::new();
    for _ in 0..n {
        messages.push(fr_rand(&mut rng));
    }
    let r = fr_rand(&mut rng);
    let mut credential = Credential::new(&protocol.ck, &protocol.pp, &messages, r);
    let opening = credential.prove_commitment(&protocol.pp, &mut rng);
    let signature = protocol
        .issue(&opening, &issuer_sk, &mut rng)
        .expect("Issuance failed");
    credential.add_signature(signature);
    assert!(credential.verify(&protocol.pp, &issuer_vk));

    // Tamper with sigma2: shift it by the base point.
    let forged = Signature {
        sigma1: signature.sigma1,
        sigma2: g1_add(&signature.sigma2, &protocol.pp.g),
    };
    credential.signature = Some(forged);
    assert!(
        !credential.verify(&protocol.pp, &issuer_vk),
        "A forged signature must not verify"
    );

    let aggregate = mimc_abc::multi_credential::CredentialAggregation::aggregate_credentials(
        &vec![credential],
        &protocol.pp,
        &mut rng,
    )
    .expect("Aggregation shows signed credentials");
    assert!(
        !aggregate.verify_all(&protocol.pp, &issuer_vk),
        "Individual verification must reject the forged signature"
    );
    assert!(
        !aggregate.batch_verify(&protocol.pp, &issuer_vk),
        "Batch verification must reject the forged signature"
    );
}

#[test]
fn test_issue_rejects_bad_proof() {
    let mut rng = Prng::from_seed(15);
    let n: usize = 4;
    let (protocol, issuer_sk, _issuer_vk) = MimcAbc::setup(n, &mut rng);

    let mut messages: Vec<Fr> = Vec::new();
    for _ in 0..n {
        messages.push(fr_rand(&mut rng));
    }
    let r = fr_rand(&mut rng);
    let credential = Credential::new(&protocol.ck, &protocol.pp, &messages, r);
    let mut opening = credential.prove_commitment(&protocol.pp, &mut rng);
    opening.responses[0] = fr_rand(&mut rng);

    let issued = protocol.issue(&opening, &issuer_sk, &mut rng);
    assert!(
        matches!(issued, Err(Error::InvalidProof)),
        "A tampered opening proof must be rejected at issuance"
    );
}
