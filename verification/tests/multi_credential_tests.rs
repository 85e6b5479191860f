use mimc_abc::credential::Credential;
use mimc_abc::groups::{fr_rand, Fr, Prng};
use mimc_abc::multi_credential::{CredentialAggregation, PlaintextAggregation};
use mimc_abc::protocol::MimcAbc;

fn issue_credentials(
    protocol: &MimcAbc,
    issuer_sk: &mimc_abc::signature::SecretKey,
    issuer_vk: &mimc_abc::signature::VerificationKey,
    n: usize,
    count: usize,
    rng: &mut Prng,
) -> Vec<Credential> {
    let user_id = fr_rand(rng);
    let mut credentials: Vec<Credential> = Vec::new();
    for _ in 0..count {
        let mut attributes: Vec<Fr> = vec![user_id];
        for _ in 1..n {
            attributes.push(fr_rand(rng));
        }
        let r = fr_rand(rng);
        let mut credential = Credential::new(&protocol.ck, &protocol.pp, &attributes, r);
        let opening = credential.prove_commitment(&protocol.pp, rng);
        let signature = protocol.issue(&opening, issuer_sk, rng).unwrap();
        credential.add_signature(signature);
        assert!(
            credential.verify(&protocol.pp, issuer_vk),
            "Individual credential verification failed"
        );
        credentials.push(credential);
    }
    credentials
}

#[test]
fn test_multiple_credentials_batch_verification() {
    let mut rng = Prng::from_seed(41);
    let n: usize = 10;
    let credential_count: usize = 5;
    let (protocol, issuer_sk, issuer_vk) = MimcAbc::setup(n, &mut rng);

    let credentials = issue_credentials(
        &protocol,
        &issuer_sk,
        &issuer_vk,
        n,
        credential_count,
        &mut rng,
    );

    let aggregate =
        CredentialAggregation::aggregate_credentials(&credentials, &protocol.pp, &mut rng).unwrap();

    let standard_start = std::time::Instant::now();
    let standard_result = aggregate.verify_all(&protocol.pp, &issuer_vk);
    let standard_time = standard_start.elapsed();

    let batch_start = std::time::Instant::now();
    let batch_result = aggregate.batch_verify(&protocol.pp, &issuer_vk);
    let batch_time = batch_start.elapsed();

    assert!(standard_result, "Standard verification failed");
    assert!(batch_result, "Batch verification failed");

    println!(
        "Verification times for {} credentials - Standard: {:?}, Batch: {:?}",
        credential_count, standard_time, batch_time
    );
}

#[test]
fn test_batch_rejects_corrupted_proof() {
    let mut rng = Prng::from_seed(42);
    let n: usize = 10;
    let (protocol, issuer_sk, issuer_vk) = MimcAbc::setup(n, &mut rng);
    let credentials = issue_credentials(&protocol, &issuer_sk, &issuer_vk, n, 5, &mut rng);

    let mut aggregate =
        CredentialAggregation::aggregate_credentials(&credentials, &protocol.pp, &mut rng).unwrap();
    assert!(aggregate.verify_all(&protocol.pp, &issuer_vk));
    assert!(aggregate.batch_verify(&protocol.pp, &issuer_vk));

    // Corrupt one opening proof's response: both routes must reject.
    aggregate.proofs[2].responses[0] = fr_rand(&mut rng);
    assert!(
        !aggregate.verify_all(&protocol.pp, &issuer_vk),
        "Standard verification must reject a corrupted proof"
    );
    assert!(
        !aggregate.batch_verify(&protocol.pp, &issuer_vk),
        "Batch verification must reject a corrupted proof"
    );
}

#[test]
fn test_plaintext_aggregation() {
    let mut rng = Prng::from_seed(43);
    let n: usize = 4;
    let (protocol, issuer_sk, issuer_vk) = MimcAbc::setup(n, &mut rng);
    let credentials = issue_credentials(&protocol, &issuer_sk, &issuer_vk, n, 3, &mut rng);

    let aggregation = PlaintextAggregation::new(credentials);
    assert!(aggregation.verify_all(&protocol.pp, &issuer_vk));
    assert!(aggregation.batch_verify(&protocol.pp, &issuer_vk));

    // Append an unsigned credential: both routes must reject the batch.
    let mut credentials = aggregation.credentials;
    let mut attributes: Vec<Fr> = Vec::new();
    for _ in 0..n {
        attributes.push(fr_rand(&mut rng));
    }
    let r = fr_rand(&mut rng);
    credentials.push(Credential::new(&protocol.ck, &protocol.pp, &attributes, r));
    let aggregation = PlaintextAggregation::new(credentials);
    assert!(
        !aggregation.verify_all(&protocol.pp, &issuer_vk),
        "An unsigned credential must fail the one-by-one route"
    );
    assert!(
        !aggregation.batch_verify(&protocol.pp, &issuer_vk),
        "An unsigned credential must fail the folded route"
    );
}
