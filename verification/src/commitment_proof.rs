//! Proof of knowledge of the opening of a commitment in the first group.

use vstd::prelude::*;

use crate::commitment::Commitment;
use crate::groups::{fr_rand, spec_g1_msm, Fr, Prng, G1};
use crate::public_params::PublicParams;
use crate::schnorr::{spec_schnorr_responses, spec_schnorr_valid, SchnorrProtocol};
use crate::util::copy_vec;

verus! {

/// A Schnorr proof of knowledge of `(m_1 … m_n, r)` opening `cm` over the
/// bases `ck_1 … ck_n, g`.
pub struct CommitmentProof {
    pub commitment: Commitment,
    pub schnorr_commitment: G1,
    pub bases: Vec<G1>,
    pub challenge: Fr,
    pub responses: Vec<Fr>,
}

/// Two proofs agree in every component.
pub open spec fn spec_same_proof(a: CommitmentProof, b: CommitmentProof) -> bool {
    &&& a.commitment == b.commitment
    &&& a.schnorr_commitment == b.schnorr_commitment
    &&& a.bases@ == b.bases@
    &&& a.challenge == b.challenge
    &&& a.responses@ == b.responses@
}

impl Clone for CommitmentProof {
    /// The clone agrees with the original in every component, so it is
    /// valid exactly when the original is.
    fn clone(&self) -> (r: Self)
        ensures
            spec_same_proof(r, *self),
            r.valid() == self.valid(),
    {
        CommitmentProof {
            commitment: self.commitment,
            schnorr_commitment: self.schnorr_commitment,
            bases: copy_vec(&self.bases),
            challenge: self.challenge,
            responses: copy_vec(&self.responses),
        }
    }
}

/// What `CommitmentProof::prove` produces for opening `(m, r)` of `cm`: the
/// proof is bound to `cm` and to the proof bases of `pp`, and its responses
/// answer the challenge for some blinding vector that the Schnorr commitment
/// commits to.
pub open spec fn spec_freshly_proven(
    cp: CommitmentProof,
    pp: PublicParams,
    m: Seq<Fr>,
    r: Fr,
    cm: Commitment,
) -> bool {
    &&& cp.commitment == cm
    &&& cp.bases@ == pp.spec_g1_bases()
    &&& cp.responses@.len() == pp.n + 1
    &&& exists|rho: Seq<Fr>|
        #![auto]
        {
            &&& rho.len() == pp.n + 1
            &&& cp.schnorr_commitment == spec_g1_msm(pp.spec_g1_bases(), rho)
            &&& cp.responses@ == spec_schnorr_responses(rho, m.push(r), cp.challenge)
        }
}

impl CommitmentProof {
    /// The verification equation of the proof, over the bases it carries.
    pub open spec fn valid(&self) -> bool {
        spec_schnorr_valid(
            self.bases@,
            self.commitment.cm,
            self.schnorr_commitment,
            self.responses@,
            self.challenge,
        )
    }

    /// Proves knowledge of the opening `(messages, r)` of `commitment` under
    /// the proof bases of `pp`, with a freshly sampled challenge.
    pub fn prove(
        pp: &PublicParams,
        commitment: &Commitment,
        messages: &Vec<Fr>,
        r: &Fr,
        rng: &mut Prng,
    ) -> (cp: CommitmentProof)
        requires
            pp.wf(),
            messages@.len() == pp.n,
        ensures
            spec_freshly_proven(cp, *pp, messages@, *r, *commitment),
    {
        let bases = pp.get_g1_bases();
        let mut exponents = copy_vec(messages);
        exponents.push(*r);
        let state = SchnorrProtocol::commit(&bases, rng);
        let challenge = fr_rand(rng);
        let responses = SchnorrProtocol::prove(&state, &exponents, &challenge);
        let cp = CommitmentProof {
            commitment: *commitment,
            schnorr_commitment: state.commitment,
            bases,
            challenge,
            responses,
        };
        proof {
            let rho = state.blindings@;
            assert(rho.len() == pp.n + 1);
            assert(cp.schnorr_commitment == spec_g1_msm(pp.spec_g1_bases(), rho));
            assert(cp.responses@ == spec_schnorr_responses(rho, messages@.push(*r), cp.challenge));
        }
        cp
    }

    /// Checks the Schnorr equation against the commitment the proof carries.
    pub fn verify(&self) -> (r: bool)
        ensures
            r == self.valid(),
    {
        SchnorrProtocol::verify_schnorr(
            &self.bases,
            &self.commitment.cm,
            &self.schnorr_commitment,
            &self.responses,
            &self.challenge,
        )
    }
}

} // verus!
