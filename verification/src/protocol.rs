//! The end-to-end facade: setup, obtain, issue, show, verify, and the
//! issuer-key well-formedness proofs.

use vstd::prelude::*;

use crate::commitment::CommitmentKey;
use crate::commitment_proof::{spec_freshly_proven, CommitmentProof};
use crate::credential::{spec_show_output, Credential, CredentialState, ShowCredential};
use crate::error::Error;
use crate::groups::{spec_g1_mul, spec_g2_mul, Fr, Prng};
use crate::public_params::PublicParams;
use crate::signature::{generate_keys, spec_sign, SecretKey, Signature, VerificationKey};
use crate::util::copy_vec;
use crate::verkey::{spec_verkey_freshly_proven, spec_verkey_proof_valid, VerKey, VerKeyProof};

verus! {

/// The protocol of one issuer: its public parameters and the commitment key
/// detached from them.
pub struct MimcAbc {
    pub pp: PublicParams,
    pub ck: CommitmentKey,
}

impl MimcAbc {
    /// The parameters are well-formed and the detached key mirrors them.
    pub open spec fn wf(&self) -> bool {
        &&& self.pp.wf()
        &&& self.ck.ck@ == self.pp.ck@
        &&& self.ck.ck_tilde@ == self.pp.ck_tilde@
    }

    /// Wraps existing parameters, detaching their commitment key.
    pub fn new(pp: PublicParams) -> (p: MimcAbc)
        ensures
            p.pp == pp,
            p.ck.ck@ == pp.ck@,
            p.ck.ck_tilde@ == pp.ck_tilde@,
    {
        let ck = CommitmentKey { ck: copy_vec(&pp.ck), ck_tilde: copy_vec(&pp.ck_tilde) };
        MimcAbc { ck, pp }
    }

    /// Generates fresh parameters of width `n` and an issuer key pair.
    pub fn setup(n: usize, rng: &mut Prng) -> (r: (MimcAbc, SecretKey, VerificationKey))
        requires
            n >= 1,
        ensures
            r.0.wf(),
            r.0.pp.n == n,
            r.1.sk == spec_g1_mul(r.0.pp.g, r.1.x),
            r.2.vk_tilde == spec_g2_mul(r.0.pp.g_tilde, r.1.x),
    {
        let pp = PublicParams::new(&n, rng);
        let protocol = Self::new(pp);
        let (sk, vk) = generate_keys(&protocol.pp, rng);
        (protocol, sk, vk)
    }

    /// The holder's first move: an opening proof for the credential's
    /// commitment.
    pub fn obtain(&self, credential: &Credential, rng: &mut Prng) -> (cp: CommitmentProof)
        requires
            self.pp.wf(),
            credential.messages@.len() == self.pp.n,
        ensures
            spec_freshly_proven(cp, self.pp, credential.messages@, credential.r,
                credential.commitment),
    {
        credential.prove_commitment(&self.pp, rng)
    }

    /// The issuer's move: signs the committed vector, but only behind a
    /// verified opening proof.
    pub fn issue(&self, opening: &CommitmentProof, sk: &SecretKey, rng: &mut Prng) -> (res: Result<
        Signature,
        Error,
    >)
        ensures
            opening.valid() ==> (res matches Ok(sig) && exists|u: Fr|
                #[trigger] spec_sign(*sk, opening.commitment, self.pp, u) == sig),
            !opening.valid() ==> res matches Err(Error::InvalidProof),
    {
        if !opening.verify() {
            return Result::Err(Error::InvalidProof);
        }
        Result::Ok(sk.sign(&opening.commitment, &self.pp, rng))
    }

    /// Presents a credential with freshly sampled coins.
    pub fn show(&self, credential: &Credential, rng: &mut Prng) -> (res: Result<
        ShowCredential,
        Error,
    >)
        requires
            self.pp.wf(),
            credential.messages@.len() == self.pp.n,
        ensures
            credential.signed() ==> (res matches Ok(sc) && exists|coins: (Fr, Fr)|
                #[trigger] spec_show_output(*credential, self.pp, coins.0, coins.1, sc)),
            !credential.signed() ==> (res matches Err(e) && e == (Error::InvalidCredentialState {
                expected: CredentialState::Signed,
                actual: credential.state,
            })),
    {
        let delta_r = crate::groups::fr_rand(rng);
        let delta_u = crate::groups::fr_rand(rng);
        let res = credential.show(&self.pp, &delta_r, &delta_u, rng);
        proof {
            if credential.signed() {
                if let Result::Ok(sc) = &res {
                    assert(spec_show_output(*credential, self.pp, delta_r, delta_u, *sc));
                    assert(spec_show_output(
                        *credential,
                        self.pp,
                        (delta_r, delta_u).0,
                        (delta_r, delta_u).1,
                        *sc,
                    ));
                }
            }
        }
        res
    }

    /// The verifier's check of one presentation.
    pub fn verify(&self, show_cred: ShowCredential, vk: &VerificationKey) -> (r: bool)
        ensures
            r == show_cred.spec_valid(self.pp, *vk),
    {
        show_cred.verify(&self.pp, vk)
    }

    /// Verifies an issuer-key well-formedness proof against `vk`.
    pub fn verify_key_correctness(&self, kp: &VerKeyProof, vk: &VerificationKey) -> (r: bool)
        requires
            self.pp.wf(),
        ensures
            r == spec_verkey_proof_valid(*kp, self.pp, vk.vk_tilde),
    {
        VerKey::verify(kp, &self.pp, &vk.vk_tilde)
    }

    /// Proves that this issuer's published keys are well-formed.
    pub fn prove_key_correctness(&self, sk: &SecretKey, rng: &mut Prng) -> (kp: VerKeyProof)
        requires
            self.pp.wf(),
        ensures
            spec_verkey_freshly_proven(kp, self.pp, sk.x, self.pp.y_values@),
    {
        let x = sk.get_x();
        let y_values = self.pp.get_y_values();
        VerKey::prove(&self.pp, &x, &y_values, rng)
    }
}

} // verus!
