//! Issuer keys, blind signing over a commitment, signature
//! re-randomization, and the two verification routes.

use vstd::prelude::*;

use crate::commitment::Commitment;
use crate::groups::{fr_mul, fr_rand, g1_add, g1_mul, g1_neg, g2_add, g2_mul, gt_eq, pairing};
use crate::groups::{spec_fr_mul, spec_g1_add, spec_g1_mul, spec_g1_neg, spec_g2_add, spec_g2_mul,
    spec_gt_is_identity, spec_multi_pairing, spec_pairing};
use crate::groups::{Fr, Prng, G1, G2};
use crate::pairing::{create_check, PairingCheck};
use crate::public_params::PublicParams;

verus! {

/// A signature on a commitment: `sigma1 = u * g`,
/// `sigma2 = u * (cm + sk)` for a fresh scalar `u`.
#[derive(Clone, Copy)]
pub struct Signature {
    pub sigma1: G1,
    pub sigma2: G1,
}

/// The issuer's secret: `sk = x * g` and the exponent `x` itself.
pub struct SecretKey {
    pub sk: G1,
    pub x: Fr,
}

/// The issuer's public verification key `vk_tilde = x * g_tilde`.
pub struct VerificationKey {
    pub vk_tilde: G2,
}

/// The signature an honest signer with key `sk` produces on `cm` with
/// signing scalar `u`.
pub open spec fn spec_sign(sk: SecretKey, cm: Commitment, pp: PublicParams, u: Fr) -> Signature {
    Signature {
        sigma1: spec_g1_mul(pp.g, u),
        sigma2: spec_g1_mul(spec_g1_add(cm.cm, sk.sk), u),
    }
}

/// The two pairing equations of signature verification:
/// `e(sigma2, g_tilde) = e(sigma1, vk_tilde + cm_tilde)` and the
/// commitment-consistency check `e(cm, g_tilde) = e(g, cm_tilde)`.
pub open spec fn spec_signature_valid(
    sig: Signature,
    cm: Commitment,
    pp: PublicParams,
    vk: VerificationKey,
) -> bool {
    &&& spec_pairing(sig.sigma2, pp.g_tilde) == spec_pairing(
        sig.sigma1,
        spec_g2_add(vk.vk_tilde, cm.cm_tilde),
    )
    &&& spec_pairing(cm.cm, pp.g_tilde) == spec_pairing(pp.g, cm.cm_tilde)
}

/// The same two equations folded into one accumulated product:
/// `e(sigma2, g_tilde) * e(-sigma1, vk_tilde + cm_tilde) * e(cm, g_tilde)
/// * e(-g, cm_tilde) = 1`.
pub open spec fn spec_signature_valid_accumulated(
    sig: Signature,
    cm: Commitment,
    pp: PublicParams,
    vk: VerificationKey,
) -> bool {
    spec_gt_is_identity(
        spec_multi_pairing(
            seq![sig.sigma2, spec_g1_neg(sig.sigma1), cm.cm, spec_g1_neg(pp.g)],
            seq![pp.g_tilde, spec_g2_add(vk.vk_tilde, cm.cm_tilde), pp.g_tilde, cm.cm_tilde],
        ),
    )
}

impl SecretKey {
    /// Blind-signs a commitment with a fresh signing scalar.
    pub fn sign(&self, commitment: &Commitment, pp: &PublicParams, rng: &mut Prng) -> (sig:
        Signature)
        ensures
            exists|u: Fr| #[trigger] spec_sign(*self, *commitment, *pp, u) == sig,
    {
        let u = fr_rand(rng);
        let sigma1 = g1_mul(&pp.g, &u);
        let sigma2 = g1_mul(&g1_add(&commitment.cm, &self.sk), &u);
        let sig = Signature { sigma1, sigma2 };
        proof {
            assert(spec_sign(*self, *commitment, *pp, u) == sig);
        }
        sig
    }

    /// Returns the secret exponent.
    pub fn get_x(&self) -> (r: Fr)
        ensures
            r == self.x,
    {
        self.x
    }

    /// Packs a secret key from its parts.
    pub fn new(sk: G1, x: Fr) -> (k: SecretKey)
        ensures
            k.sk == sk,
            k.x == x,
    {
        SecretKey { sk, x }
    }
}

impl VerificationKey {
    /// Decides both verification equations by four single pairings.
    pub fn verify(&self, signature: &Signature, commitment: &Commitment, pp: &PublicParams) -> (r:
        bool)
        ensures
            r == spec_signature_valid(*signature, *commitment, *pp, *self),
    {
        let left1 = pairing(&signature.sigma2, &pp.g_tilde);
        let right1 = pairing(&signature.sigma1, &g2_add(&self.vk_tilde, &commitment.cm_tilde));
        if !gt_eq(&left1, &right1) {
            return false;
        }
        let left2 = pairing(&commitment.cm, &pp.g_tilde);
        let right2 = pairing(&pp.g, &commitment.cm_tilde);
        gt_eq(&left2, &right2)
    }

    /// Decides the accumulated form of the same equations with one
    /// multi-pairing.
    pub fn verify_with_pairing_checker(
        &self,
        signature: &Signature,
        commitment: &Commitment,
        pp: &PublicParams,
    ) -> (r: bool)
        ensures
            r == spec_signature_valid_accumulated(*signature, *commitment, *pp, *self),
    {
        let vk_plus_cm_tilde = g2_add(&self.vk_tilde, &commitment.cm_tilde);
        let mut sig_left: Vec<G1> = Vec::new();
        sig_left.push(signature.sigma2);
        sig_left.push(g1_neg(&signature.sigma1));
        let mut sig_right: Vec<G2> = Vec::new();
        sig_right.push(pp.g_tilde);
        sig_right.push(vk_plus_cm_tilde);
        let sig_check = create_check(&sig_left, &sig_right, Option::None);
        let mut cm_left: Vec<G1> = Vec::new();
        cm_left.push(commitment.cm);
        cm_left.push(g1_neg(&pp.g));
        let mut cm_right: Vec<G2> = Vec::new();
        cm_right.push(pp.g_tilde);
        cm_right.push(commitment.cm_tilde);
        let cm_check = create_check(&cm_left, &cm_right, Option::None);
        let mut final_check = PairingCheck::new();
        final_check.merge(&sig_check);
        final_check.merge(&cm_check);
        proof {
            assert(final_check.left@ =~= seq![
                signature.sigma2,
                spec_g1_neg(signature.sigma1),
                commitment.cm,
                spec_g1_neg(pp.g),
            ]);
            assert(final_check.right@ =~= seq![
                pp.g_tilde,
                spec_g2_add(self.vk_tilde, commitment.cm_tilde),
                pp.g_tilde,
                commitment.cm_tilde,
            ]);
        }
        final_check.verify()
    }
}

/// Samples a fresh key pair for the issuer: `sk = x * g`,
/// `vk_tilde = x * g_tilde` for one secret exponent `x`.
pub fn generate_keys(pp: &PublicParams, rng: &mut Prng) -> (keys: (SecretKey, VerificationKey))
    ensures
        keys.0.sk == spec_g1_mul(pp.g, keys.0.x),
        keys.1.vk_tilde == spec_g2_mul(pp.g_tilde, keys.0.x),
{
    let x = fr_rand(rng);
    let sk = g1_mul(&pp.g, &x);
    let vk_tilde = g2_mul(&pp.g_tilde, &x);
    (SecretKey { sk, x }, VerificationKey { vk_tilde })
}

impl Signature {
    /// The randomized signature: `sigma1' = delta_u * sigma1`,
    /// `sigma2' = (delta_r * delta_u) * sigma1 + delta_u * sigma2`. This
    /// maps the signing scalar `u` to `u * delta_u` and follows the
    /// commitment shifted by `delta_r * g`.
    pub open spec fn spec_randomize(&self, delta_r: Fr, delta_u: Fr) -> Signature {
        Signature {
            sigma1: spec_g1_mul(self.sigma1, delta_u),
            sigma2: spec_g1_add(
                spec_g1_mul(self.sigma1, spec_fr_mul(delta_r, delta_u)),
                spec_g1_mul(self.sigma2, delta_u),
            ),
        }
    }

    /// Re-randomizes the signature under the equivalence relation of the
    /// scheme.
    pub fn randomize(&self, delta_r: &Fr, delta_u: &Fr) -> (sig: Signature)
        ensures
            sig == self.spec_randomize(*delta_r, *delta_u),
    {
        let sigma1_prime = g1_mul(&self.sigma1, delta_u);
        let r_times_u = fr_mul(delta_r, delta_u);
        let sigma2_prime = g1_add(&g1_mul(&self.sigma1, &r_times_u), &g1_mul(&self.sigma2, delta_u));
        Signature { sigma1: sigma1_prime, sigma2: sigma2_prime }
    }
}

} // verus!
