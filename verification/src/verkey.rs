//! Proof that an issuer's keys and commitment bases are well-formed.
//!
//! The proof shows that `sk = x * g` and `vk_tilde = x * g_tilde` share the
//! exponent `x`, and that each base pair `(ck_i, ck_tilde_i)` shares the
//! exponent `y_i`: a Schnorr proof on `x` in the second group, one Schnorr
//! proof per `y_i`, and a pairing per commitment that binds the two groups'
//! Schnorr commitments to the same exponent.

use vstd::prelude::*;

use crate::groups::{fr_add, fr_mul, fr_rand, g1_mul, g2_add, g2_eq, g2_mul, gt_eq, pairing};
use crate::groups::{spec_fr_add, spec_fr_mul, spec_g1_mul, spec_g2_add, spec_g2_mul, spec_pairing};
use crate::groups::{Fr, Prng, G1, G2};
use crate::public_params::PublicParams;

verus! {

/// The proof transcript.
pub struct VerKeyProof {
    pub x_schnorr_com_g: G1,
    pub x_schnorr_com_g_tilde: G2,
    pub x_response: Fr,
    pub t1: Vec<G1>,
    pub t2: Vec<G2>,
    pub responses: Vec<Fr>,
    pub challenge: Fr,
}

/// The verification equations: the Schnorr check on `x` against `vk_tilde`,
/// the pairing binding the two Schnorr commitments on `x`, and, for each
/// base, the Schnorr check on `y_i` in the second group with the pairing
/// binding `t1_i` to `t2_i`.
pub open spec fn spec_verkey_proof_valid(kp: VerKeyProof, pp: PublicParams, vk_tilde: G2) -> bool {
    &&& spec_g2_add(spec_g2_mul(vk_tilde, kp.challenge), kp.x_schnorr_com_g_tilde) == spec_g2_mul(
        pp.g_tilde,
        kp.x_response,
    )
    &&& spec_pairing(pp.g, kp.x_schnorr_com_g_tilde) == spec_pairing(
        kp.x_schnorr_com_g,
        pp.g_tilde,
    )
    &&& kp.t1@.len() == pp.n
    &&& kp.t2@.len() == pp.n
    &&& kp.responses@.len() == pp.n
    &&& forall|i: int|
        0 <= i < pp.n ==> spec_g2_mul(pp.g_tilde, #[trigger] kp.responses@[i]) == spec_g2_add(
            kp.t2@[i],
            spec_g2_mul(pp.ck_tilde@[i], kp.challenge),
        )
    &&& forall|i: int|
        0 <= i < pp.n ==> spec_pairing(#[trigger] kp.t1@[i], pp.g_tilde) == spec_pairing(
            pp.g,
            kp.t2@[i],
        )
}

/// What an honest prover with exponents `(x, y)` produces: each commitment
/// pair shares one blinding, and every response answers the challenge for
/// the exponent it covers.
pub open spec fn spec_verkey_freshly_proven(
    kp: VerKeyProof,
    pp: PublicParams,
    x: Fr,
    y_values: Seq<Fr>,
) -> bool {
    &&& kp.t1@.len() == pp.n
    &&& kp.t2@.len() == pp.n
    &&& kp.responses@.len() == pp.n
    &&& exists|xb: Fr|
        #![auto]
        {
            &&& kp.x_schnorr_com_g == spec_g1_mul(pp.g, xb)
            &&& kp.x_schnorr_com_g_tilde == spec_g2_mul(pp.g_tilde, xb)
            &&& kp.x_response == spec_fr_add(xb, spec_fr_mul(kp.challenge, x))
        }
    &&& exists|bl: Seq<Fr>|
        #![auto]
        {
            &&& bl.len() == pp.n
            &&& forall|i: int|
                0 <= i < pp.n ==> {
                    &&& kp.t1@[i] == spec_g1_mul(pp.g, bl[i])
                    &&& kp.t2@[i] == spec_g2_mul(pp.g_tilde, bl[i])
                    &&& kp.responses@[i] == spec_fr_add(bl[i], spec_fr_mul(kp.challenge, y_values[i]))
                }
        }
}

impl VerKeyProof {
    /// Proves well-formedness of the published keys from the secrets
    /// `(x, y)`, with a freshly sampled challenge.
    pub fn prove(pp: &PublicParams, x: &Fr, y_values: &Vec<Fr>, rng: &mut Prng) -> (kp: VerKeyProof)
        requires
            y_values@.len() == pp.n,
        ensures
            spec_verkey_freshly_proven(kp, *pp, *x, y_values@),
    {
        let challenge = fr_rand(rng);
        let x_blinding = fr_rand(rng);
        let x_schnorr_com_g = g1_mul(&pp.g, &x_blinding);
        let x_schnorr_com_g_tilde = g2_mul(&pp.g_tilde, &x_blinding);
        let x_response = fr_add(&x_blinding, &fr_mul(&challenge, x));
        let mut blindings: Vec<Fr> = Vec::new();
        let mut t1: Vec<G1> = Vec::new();
        let mut t2: Vec<G2> = Vec::new();
        let mut responses: Vec<Fr> = Vec::new();
        let mut i: usize = 0;
        while i < y_values.len()
            invariant
                i <= y_values@.len(),
                blindings@.len() == i,
                t1@.len() == i,
                t2@.len() == i,
                responses@.len() == i,
                forall|j: int|
                    0 <= j < i ==> {
                        &&& #[trigger] t1@[j] == spec_g1_mul(pp.g, blindings@[j])
                        &&& t2@[j] == spec_g2_mul(pp.g_tilde, blindings@[j])
                        &&& responses@[j] == spec_fr_add(
                            blindings@[j],
                            spec_fr_mul(challenge, y_values@[j]),
                        )
                    },
            decreases y_values@.len() - i,
        {
            let b = fr_rand(rng);
            t1.push(g1_mul(&pp.g, &b));
            t2.push(g2_mul(&pp.g_tilde, &b));
            responses.push(fr_add(&b, &fr_mul(&challenge, &y_values[i])));
            blindings.push(b);
            i = i + 1;
        }
        let kp = VerKeyProof {
            x_schnorr_com_g,
            x_schnorr_com_g_tilde,
            x_response,
            t1,
            t2,
            responses,
            challenge,
        };
        proof {
            assert(kp.x_schnorr_com_g == spec_g1_mul(pp.g, x_blinding) && kp.x_schnorr_com_g_tilde
                == spec_g2_mul(pp.g_tilde, x_blinding) && kp.x_response == spec_fr_add(
                x_blinding,
                spec_fr_mul(kp.challenge, *x),
            ));
            let bl = blindings@;
            assert(bl.len() == pp.n && forall|i: int|
                0 <= i < pp.n ==> {
                    &&& kp.t1@[i] == spec_g1_mul(pp.g, bl[i])
                    &&& kp.t2@[i] == spec_g2_mul(pp.g_tilde, bl[i])
                    &&& kp.responses@[i] == spec_fr_add(
                        bl[i],
                        spec_fr_mul(kp.challenge, y_values@[i]),
                    )
                });
        }
        kp
    }

    /// Decides every verification equation; any failure rejects.
    pub fn verify(&self, pp: &PublicParams, vk_tilde: &G2) -> (r: bool)
        requires
            pp.wf(),
        ensures
            r == spec_verkey_proof_valid(*self, *pp, *vk_tilde),
    {
        let x_lhs = g2_add(&g2_mul(vk_tilde, &self.challenge), &self.x_schnorr_com_g_tilde);
        let x_rhs = g2_mul(&pp.g_tilde, &self.x_response);
        if !g2_eq(&x_lhs, &x_rhs) {
            return false;
        }
        let lhs = pairing(&pp.g, &self.x_schnorr_com_g_tilde);
        let rhs = pairing(&self.x_schnorr_com_g, &pp.g_tilde);
        if !gt_eq(&lhs, &rhs) {
            return false;
        }
        if self.t1.len() != pp.n || self.t2.len() != pp.n || self.responses.len() != pp.n {
            return false;
        }
        let mut i: usize = 0;
        while i < pp.n
            invariant
                i <= pp.n,
                pp.wf(),
                self.t1@.len() == pp.n,
                self.t2@.len() == pp.n,
                self.responses@.len() == pp.n,
                forall|j: int|
                    0 <= j < i ==> spec_g2_mul(pp.g_tilde, #[trigger] self.responses@[j])
                        == spec_g2_add(self.t2@[j], spec_g2_mul(pp.ck_tilde@[j], self.challenge)),
                forall|j: int|
                    0 <= j < i ==> spec_pairing(#[trigger] self.t1@[j], pp.g_tilde) == spec_pairing(
                        pp.g,
                        self.t2@[j],
                    ),
            decreases pp.n - i,
        {
            let s_lhs = g2_mul(&pp.g_tilde, &self.responses[i]);
            let s_rhs = g2_add(&self.t2[i], &g2_mul(&pp.ck_tilde[i], &self.challenge));
            if !g2_eq(&s_lhs, &s_rhs) {
                return false;
            }
            let p_lhs = pairing(&self.t1[i], &pp.g_tilde);
            let p_rhs = pairing(&pp.g, &self.t2[i]);
            if !gt_eq(&p_lhs, &p_rhs) {
                return false;
            }
            i = i + 1;
        }
        true
    }
}

impl Clone for VerKeyProof {
    /// The clone agrees with the original in every component, so it
    /// verifies exactly when the original does.
    fn clone(&self) -> (r: Self)
        ensures
            r.x_schnorr_com_g == self.x_schnorr_com_g,
            r.x_schnorr_com_g_tilde == self.x_schnorr_com_g_tilde,
            r.x_response == self.x_response,
            r.t1@ == self.t1@,
            r.t2@ == self.t2@,
            r.responses@ == self.responses@,
            r.challenge == self.challenge,
            forall|pp: PublicParams, vk_tilde: G2|
                #[trigger] spec_verkey_proof_valid(r, pp, vk_tilde) == spec_verkey_proof_valid(
                    *self,
                    pp,
                    vk_tilde,
                ),
    {
        VerKeyProof {
            x_schnorr_com_g: self.x_schnorr_com_g,
            x_schnorr_com_g_tilde: self.x_schnorr_com_g_tilde,
            x_response: self.x_response,
            t1: crate::util::copy_vec(&self.t1),
            t2: crate::util::copy_vec(&self.t2),
            responses: crate::util::copy_vec(&self.responses),
            challenge: self.challenge,
        }
    }
}

/// The facade of the well-formedness proof.
pub struct VerKey;

impl VerKey {
    /// Proves that the issuer's keys are well-formed.
    pub fn prove(pp: &PublicParams, x: &Fr, y_values: &Vec<Fr>, rng: &mut Prng) -> (kp: VerKeyProof)
        requires
            y_values@.len() == pp.n,
        ensures
            spec_verkey_freshly_proven(kp, *pp, *x, y_values@),
    {
        VerKeyProof::prove(pp, x, y_values, rng)
    }

    /// Verifies a well-formedness proof.
    pub fn verify(kp: &VerKeyProof, pp: &PublicParams, vk_tilde: &G2) -> (r: bool)
        requires
            pp.wf(),
        ensures
            r == spec_verkey_proof_valid(*kp, *pp, *vk_tilde),
    {
        kp.verify(pp, vk_tilde)
    }
}

} // verus!
