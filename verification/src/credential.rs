//! The per-credential lifecycle and the presentation it emits.

use vstd::prelude::*;

use crate::commitment::{spec_commit_g1, spec_commit_g2, Commitment, CommitmentKey};
use crate::commitment_proof::{spec_freshly_proven, spec_same_proof, CommitmentProof};
use crate::error::Error;
use crate::groups::{fr_add, spec_fr_add, spec_g1_add, spec_g1_mul, spec_g2_add, spec_g2_mul};
use crate::groups::{Fr, Prng};
use crate::public_params::PublicParams;
use crate::signature::{spec_signature_valid, spec_signature_valid_accumulated, Signature,
    VerificationKey};
use crate::util::copy_vec;

verus! {

/// The two externally observable lifecycle states.
#[derive(Clone, Copy, Debug, PartialEq, Eq, Structural)]
pub enum CredentialState {
    /// The commitment exists; no signature yet.
    Committed,
    /// A signature has been stored.
    Signed,
}

/// A credential: a commitment to the attribute vector, the vector and its
/// blinding in the clear, and, once issued, the signature.
pub struct Credential {
    pub commitment: Commitment,
    pub messages: Vec<Fr>,
    pub r: Fr,
    pub signature: Option<Signature>,
    pub state: CredentialState,
}

/// The pairing-checker form of signature validity on the stored commitment;
/// an unsigned credential is never valid.
pub open spec fn spec_credential_valid(c: Credential, pp: PublicParams, vk: VerificationKey) -> bool {
    match c.signature {
        Option::None => false,
        Option::Some(sig) => spec_signature_valid_accumulated(sig, c.commitment, pp, vk),
    }
}

/// What `Credential::show` emits for coins `(delta_r, delta_u)`: the blinding
/// shifted by `delta_r`, the signature re-randomized by the pair, the
/// commitment shifted by `delta_r`, and a fresh opening proof of the shifted
/// commitment.
pub open spec fn spec_show_output(
    c: Credential,
    pp: PublicParams,
    delta_r: Fr,
    delta_u: Fr,
    sc: ShowCredential,
) -> bool {
    &&& sc.r_new == spec_fr_add(c.r, delta_r)
    &&& sc.randomized_signature == c.signature.unwrap().spec_randomize(delta_r, delta_u)
    &&& sc.randomized_commitment.cm == spec_g1_add(c.commitment.cm, spec_g1_mul(pp.g, delta_r))
    &&& sc.randomized_commitment.cm_tilde == spec_g2_add(
        c.commitment.cm_tilde,
        spec_g2_mul(pp.g_tilde, delta_r),
    )
    &&& spec_freshly_proven(sc.opening_proof, pp, c.messages@, sc.r_new, sc.randomized_commitment)
}

impl Credential {
    /// The credential carries a signature and records it.
    pub open spec fn signed(&self) -> bool {
        &&& self.state == CredentialState::Signed
        &&& self.signature is Some
    }

    /// Commits to `messages` under blinding `r` and starts the lifecycle.
    pub fn new(ck: &CommitmentKey, pp: &PublicParams, messages: &Vec<Fr>, r: Fr) -> (c: Credential)
        requires
            ck.ck@.len() == messages@.len(),
            ck.ck_tilde@.len() == messages@.len(),
        ensures
            c.commitment.cm == spec_commit_g1(ck.ck@, pp.g, messages@, r),
            c.commitment.cm_tilde == spec_commit_g2(ck.ck_tilde@, pp.g_tilde, messages@, r),
            c.messages@ == messages@,
            c.r == r,
            c.signature is None,
            c.state == CredentialState::Committed,
    {
        let commitment = ck.commit(pp, messages, &r);
        Credential {
            commitment,
            messages: copy_vec(messages),
            r,
            signature: Option::None,
            state: CredentialState::Committed,
        }
    }

    /// Emits an opening proof for the current commitment, for issuance.
    pub fn prove_commitment(&self, pp: &PublicParams, rng: &mut Prng) -> (cp: CommitmentProof)
        requires
            pp.wf(),
            self.messages@.len() == pp.n,
        ensures
            spec_freshly_proven(cp, *pp, self.messages@, self.r, self.commitment),
    {
        CommitmentProof::prove(pp, &self.commitment, &self.messages, &self.r, rng)
    }

    /// Stores a signature. Validity is not checked here; callers verify
    /// before storing.
    pub fn add_signature(&mut self, signature: Signature)
        ensures
            final (self).signature == Option::Some(signature),
            final (self).state == CredentialState::Signed,
            final (self).commitment == old(self).commitment,
            final (self).messages == old(self).messages,
            final (self).r == old(self).r,
    {
        self.signature = Option::Some(signature);
        self.state = CredentialState::Signed;
    }

    /// Returns the attribute vector.
    pub fn get_messages(&self) -> (m: &Vec<Fr>)
        ensures
            m@ == self.messages@,
    {
        &self.messages
    }

    /// Returns the user identifier, the attribute at index 0.
    pub fn get_user_id(&self) -> (id: Fr)
        requires
            self.messages@.len() > 0,
        ensures
            id == self.messages@[0],
    {
        self.messages[0]
    }

    /// Presents the credential once: shifts the blinding by `delta_r`,
    /// re-randomizes the signature by `(delta_r, delta_u)`, and proves the
    /// opening of the shifted commitment. Fails on an unsigned credential,
    /// and never mutates the credential.
    pub fn show(
        &self,
        pp: &PublicParams,
        delta_r: &Fr,
        delta_u: &Fr,
        rng: &mut Prng,
    ) -> (res: Result<ShowCredential, Error>)
        requires
            pp.wf(),
            self.messages@.len() == pp.n,
        ensures
            self.signed() ==> (res matches Ok(sc) && spec_show_output(
                *self,
                *pp,
                *delta_r,
                *delta_u,
                sc,
            )),
            !self.signed() ==> (res matches Err(e) && e == (Error::InvalidCredentialState {
                expected: CredentialState::Signed,
                actual: self.state,
            })),
    {
        if self.state != CredentialState::Signed {
            return Result::Err(
                Error::InvalidCredentialState {
                    expected: CredentialState::Signed,
                    actual: self.state,
                },
            );
        }
        match &self.signature {
            Option::None => Result::Err(
                Error::InvalidCredentialState {
                    expected: CredentialState::Signed,
                    actual: self.state,
                },
            ),
            Option::Some(sig) => {
                let new_r = fr_add(&self.r, delta_r);
                let randomized_signature = sig.randomize(delta_r, delta_u);
                let randomized_commitment = self.commitment.randomize(pp, delta_r);
                let cp = CommitmentProof::prove(
                    pp,
                    &randomized_commitment,
                    &self.messages,
                    &new_r,
                    rng,
                );
                Result::Ok(
                    ShowCredential {
                        randomized_signature,
                        randomized_commitment,
                        opening_proof: cp,
                        r_new: new_r,
                    },
                )
            },
        }
    }

    /// Verifies the stored signature on the stored commitment through the
    /// pairing checker. An unsigned credential verifies as false.
    pub fn verify(&self, pp: &PublicParams, vk: &VerificationKey) -> (r: bool)
        ensures
            r == spec_credential_valid(*self, *pp, *vk),
    {
        match &self.signature {
            Option::Some(sig) => vk.verify_with_pairing_checker(sig, &self.commitment, pp),
            Option::None => false,
        }
    }
}

/// One presentation of a credential: the randomized signature and
/// commitment, the opening proof against the randomized commitment, and the
/// shifted blinding.
pub struct ShowCredential {
    pub randomized_signature: Signature,
    pub randomized_commitment: Commitment,
    pub opening_proof: CommitmentProof,
    pub r_new: Fr,
}

/// An unsigned credential never verifies, under any parameters and any
/// verification key.
pub proof fn lemma_unsigned_credential_never_valid(
    c: Credential,
    pp: PublicParams,
    vk: VerificationKey,
)
    requires
        c.signature is None,
    ensures
        !spec_credential_valid(c, pp, vk),
{
}

impl Clone for ShowCredential {
    /// The clone agrees with the original in every component, so it
    /// verifies exactly when the original does.
    fn clone(&self) -> (r: Self)
        ensures
            r.randomized_signature == self.randomized_signature,
            r.randomized_commitment == self.randomized_commitment,
            spec_same_proof(r.opening_proof, self.opening_proof),
            r.r_new == self.r_new,
            forall|pp: PublicParams, vk: VerificationKey|
                #[trigger] r.spec_valid(pp, vk) == self.spec_valid(pp, vk),
    {
        ShowCredential {
            randomized_signature: self.randomized_signature,
            randomized_commitment: self.randomized_commitment,
            opening_proof: self.opening_proof.clone(),
            r_new: self.r_new,
        }
    }
}

impl ShowCredential {
    /// A presentation is valid when its opening proof passes and the
    /// randomized signature passes both pairing equations against the
    /// randomized commitment.
    pub open spec fn spec_valid(&self, pp: PublicParams, vk: VerificationKey) -> bool {
        &&& self.opening_proof.valid()
        &&& spec_signature_valid(self.randomized_signature, self.randomized_commitment, pp, vk)
    }

    /// Verifies the opening proof, then the signature.
    pub fn verify(&self, pp: &PublicParams, vk: &VerificationKey) -> (r: bool)
        ensures
            r == self.spec_valid(*pp, *vk),
    {
        if !self.opening_proof.verify() {
            return false;
        }
        vk.verify(&self.randomized_signature, &self.randomized_commitment, pp)
    }
}

} // verus!
