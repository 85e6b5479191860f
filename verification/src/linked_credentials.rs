//! Several credentials shown together with a proof of shared identity.

use vstd::prelude::*;

use crate::credential::{spec_show_output, Credential, CredentialState, ShowCredential};
use crate::error::Error;
use crate::groups::{fr_rand, Fr, Prng};
use crate::identity_binding::{spec_ib_ids_differ, spec_ib_lengths_ok, spec_ib_linked,
    spec_ib_schnorr_valid, spec_ib_some_empty, spec_ib_width_mismatch, IdentityBinding,
    IdentityBindingProof};
use crate::public_params::PublicParams;
use crate::signature::VerificationKey;
use crate::util::copy_vec;

verus! {

/// Some credential's identifier differs from the first credential's.
pub open spec fn spec_linked_ids_differ(cs: Seq<&Credential>) -> bool {
    exists|j: int| 0 <= j < cs.len() && (#[trigger] cs[j]).messages@[0] != cs[0].messages@[0]
}

/// The presentation at index `i` derives from the credential at `i` by the
/// coins at `i`, and the identity proof's commitment at `i` is its
/// randomized commitment.
pub open spec fn spec_linked_show_at(
    cs: Seq<&Credential>,
    pps: Seq<&PublicParams>,
    p: LinkedCredentialPresentation,
    coins: Seq<(Fr, Fr)>,
    i: int,
) -> bool {
    &&& spec_show_output(*cs[i], *pps[i], coins[i].0, coins[i].1, p.credential_presentations@[i])
    &&& p.identity_proof.commitments@[i] == p.credential_presentations@[i].randomized_commitment
}

/// Each presentation of `p` derives from the credential at its index by
/// the coins at its index, and the identity proof speaks about exactly the
/// randomized commitments of those presentations.
pub open spec fn spec_linked_shows(
    cs: Seq<&Credential>,
    pps: Seq<&PublicParams>,
    p: LinkedCredentialPresentation,
    coins: Seq<(Fr, Fr)>,
) -> bool {
    &&& coins.len() == cs.len()
    &&& p.credential_presentations@.len() == cs.len()
    &&& p.identity_proof.commitments@.len() == cs.len()
    &&& forall|i: int|
        0 <= i < cs.len() ==> #[trigger] spec_linked_show_at(cs, pps, p, coins, i)
}

/// Presentations of several credentials plus one identity-binding proof
/// over their randomized commitments.
pub struct LinkedCredentialPresentation {
    pub credential_presentations: Vec<ShowCredential>,
    pub identity_proof: IdentityBindingProof,
}

impl LinkedCredentialPresentation {
    /// Shows every credential with fresh coins and binds the randomized
    /// commitments to one identity. Fails on an empty list, on an unsigned
    /// credential, and on differing identifiers.
    pub fn create(
        credentials: &Vec<&Credential>,
        public_params: &Vec<&PublicParams>,
        rng: &mut Prng,
    ) -> (res: Result<LinkedCredentialPresentation, Error>)
        requires
            credentials@.len() == public_params@.len(),
            forall|i: int|
                0 <= i < credentials@.len() ==> {
                    &&& (#[trigger] public_params@[i]).wf()
                    &&& credentials@[i].messages@.len() == public_params@[i].n
                },
        ensures
            res is Ok <==> {
                &&& credentials@.len() > 0
                &&& forall|i: int|
                    0 <= i < credentials@.len() ==> (#[trigger] credentials@[i]).signed()
                &&& !spec_linked_ids_differ(credentials@)
            },
            credentials@.len() == 0 ==> (res matches Err(e) && e matches Error::Other(m) && m@
                == "No credentials provided"@),
            credentials@.len() > 0 && (exists|i: int|
                0 <= i < credentials@.len() && !(#[trigger] credentials@[i]).signed()) ==> (
            res matches Err(e) && e matches (Error::InvalidCredentialState {
                expected: CredentialState::Signed,
                actual: _,
            })),
            credentials@.len() > 0 && (forall|i: int|
                0 <= i < credentials@.len() ==> (#[trigger] credentials@[i]).signed())
                && spec_linked_ids_differ(credentials@) ==> (res matches Err(e) && e matches Error::Other(
                m,
            ) && m@ == "User identifiers must be identical"@),
            res matches Ok(p) ==> {
                &&& spec_ib_linked(p.identity_proof)
                &&& exists|coins: Seq<(Fr, Fr)>|
                    #[trigger] spec_linked_shows(credentials@, public_params@, p, coins)
            },
    {
        let k = credentials.len();
        if k == 0 {
            return Result::Err(Error::Other("No credentials provided".to_owned()));
        }
        let mut credential_presentations: Vec<ShowCredential> = Vec::new();
        let mut randomized_commitments: Vec<crate::commitment::Commitment> = Vec::new();
        let mut messages: Vec<Vec<Fr>> = Vec::new();
        let mut randomness: Vec<Fr> = Vec::new();
        let ghost mut coins_seq: Seq<(Fr, Fr)> = Seq::empty();
        let mut i: usize = 0;
        while i < k
            invariant
                k == credentials@.len(),
                k > 0,
                public_params@.len() == k,
                i <= k,
                credential_presentations@.len() == i,
                randomized_commitments@.len() == i,
                messages@.len() == i,
                randomness@.len() == i,
                coins_seq.len() == i,
                forall|t: int|
                    0 <= t < k ==> {
                        &&& (#[trigger] public_params@[t]).wf()
                        &&& credentials@[t].messages@.len() == public_params@[t].n
                    },
                forall|t: int| 0 <= t < i ==> (#[trigger] credentials@[t]).signed(),
                forall|t: int|
                    #![trigger credentials@[t]]
                    0 <= t < i ==> {
                        &&& spec_show_output(
                            *credentials@[t],
                            *public_params@[t],
                            coins_seq[t].0,
                            coins_seq[t].1,
                            credential_presentations@[t],
                        )
                        &&& randomized_commitments@[t]
                            == credential_presentations@[t].randomized_commitment
                        &&& messages@[t]@ == credentials@[t].messages@
                        &&& randomness@[t] == credential_presentations@[t].r_new
                    },
            decreases k - i,
        {
            let delta_r = fr_rand(rng);
            let delta_u = fr_rand(rng);
            let credential = credentials[i];
            match credential.show(public_params[i], &delta_r, &delta_u, rng) {
                Result::Err(e) => {
                    return Result::Err(e);
                },
                Result::Ok(presentation) => {
                    randomized_commitments.push(presentation.randomized_commitment);
                    messages.push(copy_vec(credential.get_messages()));
                    randomness.push(presentation.r_new);
                    credential_presentations.push(presentation);
                    proof {
                        coins_seq = coins_seq.push((delta_r, delta_u));
                    }
                },
            }
            i = i + 1;
        }
        proof {
            assert(spec_ib_lengths_ok(
                randomized_commitments@,
                messages@,
                randomness@,
                public_params@,
            ));
            assert forall|t: int| 0 <= t < k implies (#[trigger] messages@[t])@.len() > 0 by {
                assert(credentials@[t] == credentials@[t]);
                assert(public_params@[t].wf());
            }
            assert(!spec_ib_some_empty(messages@));
            assert forall|t: int|
                0 <= t < k implies (#[trigger] messages@[t])@.len()
                == public_params@[t].ck@.len() by {
                assert(credentials@[t] == credentials@[t]);
                assert(public_params@[t].wf());
            }
            assert(!spec_ib_width_mismatch(messages@, public_params@));
            assert(spec_ib_ids_differ(messages@) == spec_linked_ids_differ(credentials@)) by {
                if spec_ib_ids_differ(messages@) {
                    let j = choose|j: int|
                        0 <= j < messages@.len() && (#[trigger] messages@[j])@[0]
                            != messages@[0]@[0];
                    assert(credentials@[j] == credentials@[j]);
                    assert(credentials@[0] == credentials@[0]);
                    assert((credentials@[j]).messages@[0] != credentials@[0].messages@[0]);
                }
                if spec_linked_ids_differ(credentials@) {
                    let j = choose|j: int|
                        0 <= j < credentials@.len() && (#[trigger] credentials@[j]).messages@[0]
                            != credentials@[0].messages@[0];
                    assert(credentials@[j] == credentials@[j]);
                    assert(messages@[j]@[0] != messages@[0]@[0]);
                }
            }
        }
        match IdentityBinding::prove(
            &randomized_commitments,
            &messages,
            &randomness,
            public_params,
            rng,
        ) {
            Result::Err(e) => Result::Err(e),
            Result::Ok(identity_proof) => {
                let p = LinkedCredentialPresentation {
                    credential_presentations,
                    identity_proof,
                };
                proof {
                    assert(p.identity_proof.commitments@ == randomized_commitments@);
                    assert forall|t: int|
                        0 <= t < credentials@.len() implies #[trigger] spec_linked_show_at(
                        credentials@,
                        public_params@,
                        p,
                        coins_seq,
                        t,
                    ) by {
                        assert(spec_show_output(
                            *credentials@[t],
                            *public_params@[t],
                            coins_seq[t].0,
                            coins_seq[t].1,
                            credential_presentations@[t],
                        ));
                        assert(randomized_commitments@[t]
                            == credential_presentations@[t].randomized_commitment);
                    }
                    assert(spec_linked_shows(credentials@, public_params@, p, coins_seq));
                }
                Result::Ok(p)
            },
        }
    }

    /// Verifies the identity-binding proof, then every individual
    /// presentation.
    pub fn verify(
        &self,
        public_params: &Vec<&PublicParams>,
        verification_keys: &Vec<&VerificationKey>,
    ) -> (res: Result<bool, Error>)
        requires
            self.credential_presentations@.len() == public_params@.len(),
            self.credential_presentations@.len() == verification_keys@.len(),
        ensures
            res is Err <==> {
                ||| self.identity_proof.commitments@.len() == 0
                ||| self.identity_proof.schnorr_commitments@.len()
                    != self.identity_proof.commitments@.len()
                ||| self.identity_proof.responses@.len() != self.identity_proof.commitments@.len()
                ||| public_params@.len() != self.identity_proof.commitments@.len()
            },
            res matches Ok(b) ==> b == {
                &&& spec_ib_schnorr_valid(self.identity_proof, public_params@)
                &&& spec_ib_linked(self.identity_proof)
                &&& forall|i: int|
                    0 <= i < self.credential_presentations@.len() ==> (
                    #[trigger] self.credential_presentations@[i]).spec_valid(
                        *public_params@[i],
                        *verification_keys@[i],
                    )
            },
    {
        match IdentityBinding::verify(&self.identity_proof, public_params) {
            Result::Err(e) => Result::Err(e),
            Result::Ok(false) => Result::Ok(false),
            Result::Ok(true) => {
                let mut i: usize = 0;
                while i < self.credential_presentations.len()
                    invariant
                        i <= self.credential_presentations@.len(),
                        public_params@.len() == self.credential_presentations@.len(),
                        verification_keys@.len() == self.credential_presentations@.len(),
                        self.identity_proof.commitments@.len() > 0,
                        self.identity_proof.schnorr_commitments@.len()
                            == self.identity_proof.commitments@.len(),
                        self.identity_proof.responses@.len()
                            == self.identity_proof.commitments@.len(),
                        public_params@.len() == self.identity_proof.commitments@.len(),
                        forall|t: int|
                            0 <= t < i ==> (
                            #[trigger] self.credential_presentations@[t]).spec_valid(
                                *public_params@[t],
                                *verification_keys@[t],
                            ),
                    decreases self.credential_presentations@.len() - i,
                {
                    if !self.credential_presentations[i].verify(
                        public_params[i],
                        verification_keys[i],
                    ) {
                        return Result::Ok(false);
                    }
                    i = i + 1;
                }
                Result::Ok(true)
            },
        }
    }
}

} // verus!
