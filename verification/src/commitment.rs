//! Dual-group Pedersen-style commitments and their re-randomization.

use vstd::prelude::*;

use crate::groups::{g1_add, g1_msm, g1_mul, g2_add, g2_msm, g2_mul};
use crate::groups::{spec_g1_add, spec_g1_msm, spec_g1_mul, spec_g2_add, spec_g2_msm, spec_g2_mul};
use crate::groups::{Fr, G1, G2};
use crate::public_params::PublicParams;

verus! {

/// The committed value in the first group: `MSM(ck, m) + r * g`.
pub open spec fn spec_commit_g1(ck: Seq<G1>, g: G1, m: Seq<Fr>, r: Fr) -> G1 {
    spec_g1_add(spec_g1_msm(ck, m), spec_g1_mul(g, r))
}

/// The committed value in the second group: `MSM(ck_tilde, m) + r * g_tilde`.
pub open spec fn spec_commit_g2(ck_tilde: Seq<G2>, g_tilde: G2, m: Seq<Fr>, r: Fr) -> G2 {
    spec_g2_add(spec_g2_msm(ck_tilde, m), spec_g2_mul(g_tilde, r))
}

/// A commitment to one attribute vector, carried in both source groups so
/// that a verifier can check consistency through the pairing.
#[derive(Clone, Copy)]
pub struct Commitment {
    pub cm: G1,
    pub cm_tilde: G2,
}

impl Commitment {
    /// Shifts the blinding by `delta_r` in both groups: the result commits
    /// to the same attribute vector under blinding `r + delta_r`.
    pub fn randomize(&self, pp: &PublicParams, delta_r: &Fr) -> (c: Commitment)
        ensures
            c.cm == spec_g1_add(self.cm, spec_g1_mul(pp.g, *delta_r)),
            c.cm_tilde == spec_g2_add(self.cm_tilde, spec_g2_mul(pp.g_tilde, *delta_r)),
    {
        Commitment {
            cm: g1_add(&self.cm, &g1_mul(&pp.g, delta_r)),
            cm_tilde: g2_add(&self.cm_tilde, &g2_mul(&pp.g_tilde, delta_r)),
        }
    }
}

/// The commitment bases of one issuer, detached from the public parameters.
pub struct CommitmentKey {
    pub ck: Vec<G1>,
    pub ck_tilde: Vec<G2>,
}

impl CommitmentKey {
    /// Commits to `messages` under blinding `r`, in both source groups.
    pub fn commit(&self, pp: &PublicParams, messages: &Vec<Fr>, r: &Fr) -> (c: Commitment)
        requires
            self.ck@.len() == messages@.len(),
            self.ck_tilde@.len() == messages@.len(),
        ensures
            c.cm == spec_commit_g1(self.ck@, pp.g, messages@, *r),
            c.cm_tilde == spec_commit_g2(self.ck_tilde@, pp.g_tilde, messages@, *r),
    {
        let cm = g1_add(&g1_msm(&self.ck, messages), &g1_mul(&pp.g, r));
        let cm_tilde = g2_add(&g2_msm(&self.ck_tilde, messages), &g2_mul(&pp.g_tilde, r));
        Commitment { cm, cm_tilde }
    }
}

} // verus!
