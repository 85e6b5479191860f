//! Linked presentations across issuers, driven by the user's bookkeeping.

use vstd::prelude::*;

use crate::credential::{spec_show_output, Credential};
use crate::error::Error;
use crate::groups::{Fr, Prng};
use crate::identity_binding::{spec_ib_linked, IdentityBindingProof};
use crate::linked_credentials::{spec_linked_ids_differ, spec_linked_show_at, spec_linked_shows,
    LinkedCredentialPresentation};
use crate::multi_issuer::{spec_user_consistent, MultiIssuerSystem, User};
use crate::public_params::PublicParams;
use crate::schnorr::spec_schnorr_valid;
use crate::signature::VerificationKey;

verus! {

/// The identity proof's lists pair up with the given parameter count.
pub open spec fn spec_ib_components_ok(p: IdentityBindingProof, pp_count: int) -> bool {
    &&& p.commitments@.len() > 0
    &&& p.schnorr_commitments@.len() == p.commitments@.len()
    &&& p.responses@.len() == p.commitments@.len()
    &&& pp_count == p.commitments@.len()
}

/// The Schnorr equation of the identity proof at index `j`, against the
/// parameters of the issuer `ids[j]` of the registry.
pub open spec fn spec_linked_schnorr_at(
    p: LinkedCredentialPresentation,
    sys: MultiIssuerSystem,
    ids: Seq<usize>,
    j: int,
) -> bool {
    spec_schnorr_valid(
        sys.issuers@[ids[j]].protocol.pp.spec_g1_bases(),
        p.identity_proof.commitments@[j].cm,
        p.identity_proof.schnorr_commitments@[j].commitment,
        p.identity_proof.responses@[j]@,
        p.identity_proof.challenge,
    )
}

/// The presentation at index `j` passes against the keys of the issuer
/// `ids[j]` of the registry.
pub open spec fn spec_linked_presentation_at(
    p: LinkedCredentialPresentation,
    sys: MultiIssuerSystem,
    ids: Seq<usize>,
    j: int,
) -> bool {
    p.credential_presentations@[j].spec_valid(
        sys.issuers@[ids[j]].protocol.pp,
        sys.issuers@[ids[j]].vk,
    )
}

/// What a linked presentation must satisfy against the registry: every
/// Schnorr equation of the identity proof, the linkage at index 0, and
/// every individual presentation.
pub open spec fn spec_linked_valid_for_issuers(
    p: LinkedCredentialPresentation,
    sys: MultiIssuerSystem,
    ids: Seq<usize>,
) -> bool {
    &&& forall|j: int|
        0 <= j < p.identity_proof.commitments@.len() ==> #[trigger] spec_linked_schnorr_at(
            p,
            sys,
            ids,
            j,
        )
    &&& spec_ib_linked(p.identity_proof)
    &&& forall|j: int|
        0 <= j < p.credential_presentations@.len() ==> #[trigger] spec_linked_presentation_at(
            p,
            sys,
            ids,
            j,
        )
}

/// The presentation at index `j` is a show, by the coins at `j`, of the
/// credential the user stores under the key at `j`, against the parameters
/// of the issuer that key names; the identity proof's commitment at `j` is
/// its randomized commitment.
pub open spec fn spec_linked_from_store_at(
    u: User,
    sys: MultiIssuerSystem,
    keys: Seq<(usize, usize)>,
    p: LinkedCredentialPresentation,
    coins: Seq<(Fr, Fr)>,
    j: int,
) -> bool {
    &&& spec_show_output(
        u.credentials.spec_get(keys[j].0, keys[j].1).unwrap(),
        sys.issuers@[keys[j].0].protocol.pp,
        coins[j].0,
        coins[j].1,
        p.credential_presentations@[j],
    )
    &&& p.identity_proof.commitments@[j] == p.credential_presentations@[j].randomized_commitment
}

/// Every presentation of `p` derives, by the coin pair at its index, from
/// the stored credential its key names, and the identity proof speaks about
/// exactly the randomized commitments of those presentations.
pub open spec fn spec_linked_from_store(
    u: User,
    sys: MultiIssuerSystem,
    keys: Seq<(usize, usize)>,
    p: LinkedCredentialPresentation,
    coins: Seq<(Fr, Fr)>,
) -> bool {
    &&& coins.len() == keys.len()
    &&& p.credential_presentations@.len() == keys.len()
    &&& p.identity_proof.commitments@.len() == keys.len()
    &&& forall|j: int|
        0 <= j < keys.len() ==> #[trigger] spec_linked_from_store_at(u, sys, keys, p, coins, j)
}

impl User {
    /// Shows the credentials stored under the given keys together with a
    /// proof that they all carry this user's identifier.
    pub fn show_linked_credentials(
        &self,
        credential_keys: &Vec<(usize, usize)>,
        issuer_system: &MultiIssuerSystem,
        rng: &mut Prng,
    ) -> (res: Result<LinkedCredentialPresentation, Error>)
        requires
            issuer_system.wf(),
            spec_user_consistent(*self, *issuer_system),
        ensures
            res is Ok <==> {
                &&& credential_keys@.len() > 0
                &&& forall|j: int|
                    0 <= j < credential_keys@.len() ==> ((#[trigger] self.credentials.spec_get(
                        credential_keys@[j].0,
                        credential_keys@[j].1,
                    )) matches Some(c) && c.signed())
            },
            res matches Ok(p) ==> {
                &&& p.credential_presentations@.len() == credential_keys@.len()
                &&& spec_ib_linked(p.identity_proof)
            },
            res matches Ok(p) ==> (exists|coins: Seq<(Fr, Fr)>|
                #[trigger] spec_linked_from_store(
                    *self,
                    *issuer_system,
                    credential_keys@,
                    p,
                    coins,
                )),
    {
        let mut credentials: Vec<&Credential> = Vec::new();
        let mut public_params: Vec<&PublicParams> = Vec::new();
        let mut i: usize = 0;
        while i < credential_keys.len()
            invariant
                issuer_system.wf(),
                spec_user_consistent(*self, *issuer_system),
                i <= credential_keys@.len(),
                credentials@.len() == i,
                public_params@.len() == i,
                forall|j: int|
                    0 <= j < i ==> ((#[trigger] self.credentials.spec_get(
                        credential_keys@[j].0,
                        credential_keys@[j].1,
                    )) matches Some(c) && c == *credentials@[j]),
                forall|j: int|
                    0 <= j < i ==> {
                        &&& (#[trigger] public_params@[j]).wf()
                        &&& credentials@[j].messages@.len() == public_params@[j].n
                        &&& public_params@[j] == &issuer_system.issuers@[credential_keys@[j].0].protocol.pp
                    },
                forall|j: int|
                    0 <= j < i ==> (#[trigger] credentials@[j]).messages@[0] == self.id,
            decreases credential_keys@.len() - i,
        {
            let key = credential_keys[i];
            let credential = match self.credentials.get(key.0, key.1) {
                Option::None => {
                    return Result::Err(Error::Other("Credential not found".to_owned()));
                },
                Option::Some(c) => c,
            };
            let issuer = match issuer_system.get_issuer(key.0) {
                Option::None => {
                    return Result::Err(Error::Other("Issuer not found".to_owned()));
                },
                Option::Some(issuer) => issuer,
            };
            credentials.push(credential);
            public_params.push(&issuer.protocol.pp);
            i = i + 1;
        }
        proof {
            if credentials@.len() > 0 {
                assert(!spec_linked_ids_differ(credentials@)) by {
                    if spec_linked_ids_differ(credentials@) {
                        let j = choose|j: int|
                            0 <= j < credentials@.len() && (
                            #[trigger] credentials@[j]).messages@[0] != credentials@[0].messages@[0];
                        assert(credentials@[j].messages@[0] == self.id);
                        assert(credentials@[0].messages@[0] == self.id);
                    }
                }
            }
        }
        let res = LinkedCredentialPresentation::create(&credentials, &public_params, rng);
        proof {
            if let Result::Ok(p) = &res {
                assert forall|j: int|
                    0 <= j < credential_keys@.len() implies ((
                #[trigger] self.credentials.spec_get(
                    credential_keys@[j].0,
                    credential_keys@[j].1,
                )) matches Some(c) && c.signed()) by {
                    assert(credentials@[j].signed());
                }
                let coins = choose|coins: Seq<(Fr, Fr)>|
                    #[trigger] spec_linked_shows(credentials@, public_params@, *p, coins);
                assert forall|j: int|
                    0 <= j < credential_keys@.len() implies #[trigger] spec_linked_from_store_at(
                    *self,
                    *issuer_system,
                    credential_keys@,
                    *p,
                    coins,
                    j,
                ) by {
                    assert(spec_linked_show_at(credentials@, public_params@, *p, coins, j));
                    assert(self.credentials.spec_get(
                        credential_keys@[j].0,
                        credential_keys@[j].1,
                    ).unwrap() == *credentials@[j]);
                    assert(public_params@[j]
                        == &issuer_system.issuers@[credential_keys@[j].0].protocol.pp);
                }
                assert(spec_linked_from_store(
                    *self,
                    *issuer_system,
                    credential_keys@,
                    *p,
                    coins,
                ));
            } else {
                if credential_keys@.len() > 0 && (forall|j: int|
                    0 <= j < credential_keys@.len() ==> ((#[trigger] self.credentials.spec_get(
                        credential_keys@[j].0,
                        credential_keys@[j].1,
                    )) matches Some(c) && c.signed())) {
                    assert forall|j: int|
                        0 <= j < credentials@.len() implies (#[trigger] credentials@[j]).signed() by {
                        assert(self.credentials.spec_get(
                            credential_keys@[j].0,
                            credential_keys@[j].1,
                        ) matches Some(c) && c.signed());
                    }
                }
            }
        }
        res
    }
}

/// Verifies a linked presentation against the registry: the identity proof
/// and every per-credential presentation, each against its issuer's
/// parameters and key.
pub fn verify_linked_credentials(
    presentation: &LinkedCredentialPresentation,
    issuer_system: &MultiIssuerSystem,
    issuer_ids: &Vec<usize>,
) -> (res: Result<bool, Error>)
    requires
        issuer_system.wf(),
    ensures
        presentation.credential_presentations@.len() != issuer_ids@.len() ==> (res matches Err(e)
            && e matches Error::Other(m) && m@
            == "Mismatch between presentations and issuer IDs"@),
        presentation.credential_presentations@.len() == issuer_ids@.len() && (exists|j: int|
            0 <= j < issuer_ids@.len() && !issuer_system.issuers@.contains_key(
                #[trigger] issuer_ids@[j],
            )) ==> (res matches Err(e) && e matches Error::Other(m) && m@ == "Issuer not found"@),
        presentation.credential_presentations@.len() == issuer_ids@.len() && (forall|j: int|
            0 <= j < issuer_ids@.len() ==> issuer_system.issuers@.contains_key(
                #[trigger] issuer_ids@[j],
            )) ==> {
            &&& (res is Err <==> !spec_ib_components_ok(
                presentation.identity_proof,
                issuer_ids@.len() as int,
            ))
            &&& (res matches Ok(b) ==> b == spec_linked_valid_for_issuers(
                *presentation,
                *issuer_system,
                issuer_ids@,
            ))
        },
{
    if presentation.credential_presentations.len() != issuer_ids.len() {
        return Result::Err(
            Error::Other("Mismatch between presentations and issuer IDs".to_owned()),
        );
    }
    let mut verification_keys: Vec<&VerificationKey> = Vec::new();
    let mut public_params: Vec<&PublicParams> = Vec::new();
    let mut i: usize = 0;
    while i < issuer_ids.len()
        invariant
            issuer_system.wf(),
            i <= issuer_ids@.len(),
            verification_keys@.len() == i,
            public_params@.len() == i,
            presentation.credential_presentations@.len() == issuer_ids@.len(),
            forall|j: int|
                0 <= j < i ==> {
                    &&& issuer_system.issuers@.contains_key(#[trigger] issuer_ids@[j])
                    &&& public_params@[j] == &issuer_system.issuers@[issuer_ids@[j]].protocol.pp
                    &&& verification_keys@[j] == &issuer_system.issuers@[issuer_ids@[j]].vk
                },
        decreases issuer_ids@.len() - i,
    {
        let issuer = match issuer_system.get_issuer(issuer_ids[i]) {
            Option::None => {
                return Result::Err(Error::Other("Issuer not found".to_owned()));
            },
            Option::Some(issuer) => issuer,
        };
        verification_keys.push(&issuer.vk);
        public_params.push(&issuer.protocol.pp);
        i = i + 1;
    }
    let res = presentation.verify(&public_params, &verification_keys);
    proof {
        if let Result::Ok(b) = res {
            assert forall|j: int|
                0 <= j < presentation.identity_proof.commitments@.len()
                    && public_params@.len() == presentation.identity_proof.commitments@.len()
                    && issuer_ids@.len() == public_params@.len() implies (
            #[trigger] spec_linked_schnorr_at(*presentation, *issuer_system, issuer_ids@, j)
                == spec_schnorr_valid(
                public_params@[j].spec_g1_bases(),
                presentation.identity_proof.commitments@[j].cm,
                presentation.identity_proof.schnorr_commitments@[j].commitment,
                presentation.identity_proof.responses@[j]@,
                presentation.identity_proof.challenge,
            )) by {
                assert(public_params@[j] == &issuer_system.issuers@[issuer_ids@[j]].protocol.pp);
            }
            assert forall|j: int|
                0 <= j < presentation.credential_presentations@.len() implies (
            #[trigger] spec_linked_presentation_at(*presentation, *issuer_system, issuer_ids@, j)
                == presentation.credential_presentations@[j].spec_valid(
                *public_params@[j],
                *verification_keys@[j],
            )) by {
                assert(public_params@[j] == &issuer_system.issuers@[issuer_ids@[j]].protocol.pp);
                assert(verification_keys@[j] == &issuer_system.issuers@[issuer_ids@[j]].vk);
            }
            if b {
                assert(spec_linked_valid_for_issuers(
                    *presentation,
                    *issuer_system,
                    issuer_ids@,
                )) by {
                    assert forall|j: int|
                        0 <= j < presentation.identity_proof.commitments@.len() implies (
                    #[trigger] spec_linked_schnorr_at(
                        *presentation,
                        *issuer_system,
                        issuer_ids@,
                        j,
                    )) by {
                        assert(presentation.identity_proof.commitments@[j]
                            == presentation.identity_proof.commitments@[j]);
                    }
                    assert forall|j: int|
                        0 <= j < presentation.credential_presentations@.len() implies (
                    #[trigger] spec_linked_presentation_at(
                        *presentation,
                        *issuer_system,
                        issuer_ids@,
                        j,
                    )) by {
                        assert(presentation.credential_presentations@[j].spec_valid(
                            *public_params@[j],
                            *verification_keys@[j],
                        ));
                    }
                }
            } else {
                assert(!spec_linked_valid_for_issuers(
                    *presentation,
                    *issuer_system,
                    issuer_ids@,
                )) by {
                    if spec_linked_valid_for_issuers(*presentation, *issuer_system, issuer_ids@) {
                        assert forall|j: int|
                            0 <= j < presentation.identity_proof.commitments@.len() implies
                            spec_schnorr_valid(
                            (#[trigger] public_params@[j]).spec_g1_bases(),
                            presentation.identity_proof.commitments@[j].cm,
                            presentation.identity_proof.schnorr_commitments@[j].commitment,
                            presentation.identity_proof.responses@[j]@,
                            presentation.identity_proof.challenge,
                        ) by {
                            assert(spec_linked_schnorr_at(
                                *presentation,
                                *issuer_system,
                                issuer_ids@,
                                j,
                            ));
                        }
                        assert forall|j: int|
                            0 <= j < presentation.credential_presentations@.len() implies (
                        #[trigger] presentation.credential_presentations@[j]).spec_valid(
                            *public_params@[j],
                            *verification_keys@[j],
                        ) by {
                            assert(spec_linked_presentation_at(
                                *presentation,
                                *issuer_system,
                                issuer_ids@,
                                j,
                            ));
                        }
                    }
                }
            }
        }
    }
    res
}

} // verus!
