use mimc_abc::commitment::CommitmentKey;
use mimc_abc::error::Error;
use mimc_abc::groups::{fr_rand, Fr, Prng};
use mimc_abc::identity_binding::{IdentityBinding, IdentityBindingProof};
use mimc_abc::multi_identity_credentials::verify_linked_credentials;
use mimc_abc::multi_issuer::{Issuer, MultiIssuerSystem, User};
use mimc_abc::public_params::PublicParams;

#[test]
fn test_unknown_issuer_is_reported() {
    let mut rng = Prng::from_seed(71);
    let mut system = MultiIssuerSystem::new();
    system.add_issuer(Issuer::new(0, 3, &mut rng));
    let mut user = User::new(&mut rng);

    let attributes: Vec<Fr> = vec![fr_rand(&mut rng), fr_rand(&mut rng)];
    let res = user.obtain_credential(9, 0, &system, attributes, &mut rng);
    assert!(
        matches!(res, Err(Error::Other(m)) if m == "Issuer not found"),
        "An unknown issuer id must be reported by name"
    );
}

#[test]
fn test_attribute_count_mismatch_is_reported() {
    let mut rng = Prng::from_seed(72);
    let mut system = MultiIssuerSystem::new();
    system.add_issuer(Issuer::new(0, 3, &mut rng));
    let mut user = User::new(&mut rng);

    // The issuer expects 3 attributes including the identifier; 3 extra
    // attributes give 4 in total.
    let attributes: Vec<Fr> = vec![fr_rand(&mut rng), fr_rand(&mut rng), fr_rand(&mut rng)];
    let res = user.obtain_credential(0, 0, &system, attributes, &mut rng);
    assert!(
        matches!(res, Err(Error::Other(m)) if m == "Attribute count mismatch"),
        "A wrong attribute count must be reported by name"
    );
}

#[test]
fn test_missing_credential_is_reported() {
    let mut rng = Prng::from_seed(73);
    let mut system = MultiIssuerSystem::new();
    system.add_issuer(Issuer::new(0, 3, &mut rng));
    let user = User::new(&mut rng);

    let keys: Vec<(usize, usize)> = vec![(0, 0)];
    let res = user.show_credentials(&keys, &system, &mut rng);
    assert!(
        matches!(res, Err(Error::Other(m)) if m == "Credential not found"),
        "A missing credential must be reported by name"
    );

    let res = user.show_linked_credentials(&keys, &system, &mut rng);
    assert!(
        matches!(res, Err(Error::Other(m)) if m == "Credential not found"),
        "A missing credential must be reported by name"
    );
}

#[test]
fn test_mismatched_identity_binding_inputs_are_reported() {
    let mut rng = Prng::from_seed(74);
    let n: usize = 2;
    let pp = PublicParams::new(&n, &mut rng);
    let ck = CommitmentKey { ck: pp.ck.clone(), ck_tilde: pp.ck_tilde.clone() };

    let messages: Vec<Fr> = vec![fr_rand(&mut rng), fr_rand(&mut rng)];
    let r = fr_rand(&mut rng);
    let cm = ck.commit(&pp, &messages, &r);

    // One commitment but two message vectors.
    let res = IdentityBinding::prove(
        &vec![cm],
        &vec![messages.clone(), messages.clone()],
        &vec![r],
        &vec![&pp],
        &mut rng,
    );
    assert!(
        matches!(res, Err(Error::Other(m)) if m == "Mismatched input lengths"),
        "Inputs that pair up wrongly must be reported by name"
    );

    // An empty message vector.
    let empty: Vec<Fr> = Vec::new();
    let res = IdentityBinding::prove(&vec![cm], &vec![empty], &vec![r], &vec![&pp], &mut rng);
    assert!(
        matches!(res, Err(Error::Other(m)) if m == "Messages must have at least one element"),
        "An empty attribute vector must be reported by name"
    );

    // A proof whose component lists pair up wrongly.
    let good = IdentityBinding::prove(
        &vec![cm],
        &vec![messages],
        &vec![r],
        &vec![&pp],
        &mut rng,
    )
    .expect("Proof creation should succeed");
    let broken = IdentityBindingProof {
        commitments: good.commitments,
        schnorr_commitments: good.schnorr_commitments,
        challenge: good.challenge,
        responses: Vec::new(),
    };
    let res = broken.verify(&vec![&pp]);
    assert!(
        matches!(res, Err(Error::Other(m)) if m == "Mismatched proof component lengths"),
        "Mismatched proof components must be reported by name"
    );
}

#[test]
fn test_mismatched_presentation_count_is_reported() {
    let mut rng = Prng::from_seed(75);
    let mut system = MultiIssuerSystem::new();
    system.add_issuer(Issuer::new(0, 3, &mut rng));
    system.add_issuer(Issuer::new(1, 3, &mut rng));
    let mut user = User::new(&mut rng);
    let attributes: Vec<Fr> = vec![fr_rand(&mut rng), fr_rand(&mut rng)];
    user.obtain_credential(0, 0, &system, attributes, &mut rng)
        .expect("Issuance should succeed");

    let keys: Vec<(usize, usize)> = vec![(0, 0)];
    let presentation = user
        .show_linked_credentials(&keys, &system, &mut rng)
        .expect("Presentation should succeed");

    let issuer_ids: Vec<usize> = vec![0, 1];
    let res = verify_linked_credentials(&presentation, &system, &issuer_ids);
    assert!(
        matches!(res, Err(Error::Other(m)) if m == "Mismatch between presentations and issuer IDs"),
        "A presentation and id count mismatch must be reported by name"
    );
}
