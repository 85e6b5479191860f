use mimc_abc::credential::Credential;
use mimc_abc::groups::{fr_rand, Fr, Prng};
use mimc_abc::linked_credentials::LinkedCredentialPresentation;
use mimc_abc::multi_identity_credentials::verify_linked_credentials;
use mimc_abc::multi_issuer::{Issuer, MultiIssuerSystem, User};
use mimc_abc::protocol::MimcAbc;

#[test]
fn test_linked_credential_presentation() {
    let mut rng = Prng::from_seed(51);

    let n: usize = 5;
    let (protocol1, sk1, vk1) = MimcAbc::setup(n, &mut rng);
    let (protocol2, sk2, vk2) = MimcAbc::setup(n, &mut rng);

    let user_id = fr_rand(&mut rng);
    let mut messages1: Vec<Fr> = vec![user_id];
    let mut messages2: Vec<Fr> = vec![user_id];
    for _ in 1..n {
        messages1.push(fr_rand(&mut rng));
        messages2.push(fr_rand(&mut rng));
    }

    let r1 = fr_rand(&mut rng);
    let r2 = fr_rand(&mut rng);

    let mut credential1 = Credential::new(&protocol1.ck, &protocol1.pp, &messages1, r1);
    let mut credential2 = Credential::new(&protocol2.ck, &protocol2.pp, &messages2, r2);

    let opening1 = credential1.prove_commitment(&protocol1.pp, &mut rng);
    let opening2 = credential2.prove_commitment(&protocol2.pp, &mut rng);

    let signature1 = protocol1
        .issue(&opening1, &sk1, &mut rng)
        .expect("Issuance failed");
    let signature2 = protocol2
        .issue(&opening2, &sk2, &mut rng)
        .expect("Issuance failed");

    credential1.add_signature(signature1);
    credential2.add_signature(signature2);

    let linked_presentation = LinkedCredentialPresentation::create(
        &vec![&credential1, &credential2],
        &vec![&protocol1.pp, &protocol2.pp],
        &mut rng,
    )
    .expect("Linked presentation creation failed");

    let is_valid = linked_presentation
        .verify(&vec![&protocol1.pp, &protocol2.pp], &vec![&vk1, &vk2])
        .expect("Verification failed");
    assert!(is_valid, "Linked credential presentation should verify");

    // Negative case: a credential with a different identity.
    let different_id = fr_rand(&mut rng);
    let mut messages3: Vec<Fr> = vec![different_id];
    for _ in 1..n {
        messages3.push(fr_rand(&mut rng));
    }
    let r3 = fr_rand(&mut rng);
    let mut credential3 = Credential::new(&protocol1.ck, &protocol1.pp, &messages3, r3);
    let opening3 = credential3.prove_commitment(&protocol1.pp, &mut rng);
    let signature3 = protocol1
        .issue(&opening3, &sk1, &mut rng)
        .expect("Issuance failed");
    credential3.add_signature(signature3);

    let invalid_presentation = LinkedCredentialPresentation::create(
        &vec![&credential1, &credential3],
        &vec![&protocol1.pp, &protocol1.pp],
        &mut rng,
    );
    assert!(
        matches!(
            invalid_presentation,
            Err(mimc_abc::error::Error::Other(m)) if m == "User identifiers must be identical"
        ),
        "Creating linked presentation with different IDs should fail"
    );
}

#[test]
fn test_linked_presentation_rejects_empty_input() {
    let mut rng = Prng::from_seed(52);
    let empty_credentials: Vec<&Credential> = Vec::new();
    let empty_params: Vec<&mimc_abc::public_params::PublicParams> = Vec::new();
    let res = LinkedCredentialPresentation::create(&empty_credentials, &empty_params, &mut rng);
    assert!(
        matches!(res, Err(mimc_abc::error::Error::Other(m)) if m == "No credentials provided"),
        "An empty credential list must be rejected by name"
    );
}

#[test]
fn test_multi_issuer_system() {
    let mut rng = Prng::from_seed(53);

    let mut system = MultiIssuerSystem::new();
    let attributes_per_issuer: Vec<usize> = vec![5, 10, 32];
    system.setup_issuers(3, &attributes_per_issuer, &mut rng);

    let mut user = User::new(&mut rng);

    for issuer_id in 0..3usize {
        let attr_count = attributes_per_issuer[issuer_id];
        let mut attributes: Vec<Fr> = Vec::new();
        for _ in 0..attr_count - 1 {
            attributes.push(fr_rand(&mut rng));
        }
        user.obtain_credential(issuer_id, 0, &system, attributes, &mut rng)
            .expect("Credential issuance should succeed");
    }

    let credential_keys: Vec<(usize, usize)> = vec![(0, 0), (1, 0), (2, 0)];
    let presentations = user
        .show_credentials(&credential_keys, &system, &mut rng)
        .expect("Credential presentation should succeed");

    for (i, presentation) in presentations.iter().enumerate() {
        let (issuer_id, _) = credential_keys[i];
        let issuer = system.get_issuer(issuer_id).unwrap();
        assert!(
            issuer.protocol.verify(presentation.clone(), &issuer.vk),
            "Credential verification should succeed"
        );
    }
}

#[test]
fn test_linked_identity_end_to_end() {
    let mut rng = Prng::from_seed(54);

    // 1. A registry with three issuers of different widths.
    println!("Creating issuers...");
    let mut system = MultiIssuerSystem::new();
    let issuer1 = Issuer::new(1, 5, &mut rng);
    let issuer2 = Issuer::new(2, 8, &mut rng);
    let issuer3 = Issuer::new(3, 4, &mut rng);
    system.add_issuer(issuer1);
    system.add_issuer(issuer2);
    system.add_issuer(issuer3);
    println!("Created 3 issuers");

    // 2. A user with one identity.
    println!("Creating user...");
    let mut user = User::new(&mut rng);

    // 3. The user obtains one credential from each issuer.
    println!("Obtaining credentials...");
    let mut issuer1_attrs: Vec<Fr> = Vec::new();
    for _ in 0..4 {
        issuer1_attrs.push(fr_rand(&mut rng));
    }
    user.obtain_credential(1, 101, &system, issuer1_attrs, &mut rng)
        .expect("Credential issuance from issuer 1 should succeed");

    let mut issuer2_attrs: Vec<Fr> = Vec::new();
    for _ in 0..7 {
        issuer2_attrs.push(fr_rand(&mut rng));
    }
    user.obtain_credential(2, 202, &system, issuer2_attrs, &mut rng)
        .expect("Credential issuance from issuer 2 should succeed");

    let mut issuer3_attrs: Vec<Fr> = Vec::new();
    for _ in 0..3 {
        issuer3_attrs.push(fr_rand(&mut rng));
    }
    user.obtain_credential(3, 303, &system, issuer3_attrs, &mut rng)
        .expect("Credential issuance from issuer 3 should succeed");
    println!("User obtained 3 credentials from different issuers");

    // 4. A linked presentation over all three.
    println!("Creating linked credential presentation...");
    let credential_keys: Vec<(usize, usize)> = vec![(1, 101), (2, 202), (3, 303)];
    let presentation = user
        .show_linked_credentials(&credential_keys, &system, &mut rng)
        .expect("Linked credential presentation should succeed");
    println!(
        "Created linked presentation with {} credentials",
        presentation.credential_presentations.len()
    );

    // 5. Verify it against the registry.
    println!("Verifying linked presentation...");
    let issuer_ids: Vec<usize> = vec![1, 2, 3];
    let is_valid = verify_linked_credentials(&presentation, &system, &issuer_ids)
        .expect("Verification should complete");
    assert!(is_valid, "Linked credential verification should succeed");
    println!("Linked credential presentation verified successfully!");

    // 6. Negative case: a credential of another user in the mix.
    println!("Testing negative case...");
    let mut other_user = User::new(&mut rng);
    let mut other_attrs: Vec<Fr> = Vec::new();
    for _ in 0..4 {
        other_attrs.push(fr_rand(&mut rng));
    }
    other_user
        .obtain_credential(1, 101, &system, other_attrs, &mut rng)
        .expect("Credential issuance for other user should succeed");

    let mismatched_creds: Vec<&Credential> = vec![
        user.credentials.get(2, 202).unwrap(),
        user.credentials.get(3, 303).unwrap(),
        other_user.credentials.get(1, 101).unwrap(),
    ];
    let mismatched_params = vec![
        &system.get_issuer(2).unwrap().protocol.pp,
        &system.get_issuer(3).unwrap().protocol.pp,
        &system.get_issuer(1).unwrap().protocol.pp,
    ];

    let invalid_presentation =
        LinkedCredentialPresentation::create(&mismatched_creds, &mismatched_params, &mut rng);
    assert!(
        invalid_presentation.is_err(),
        "Creating linked presentation with different user IDs should fail"
    );
    println!("Successfully prevented presentation with different user IDs!");
}
