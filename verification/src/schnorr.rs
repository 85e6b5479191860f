//! The multi-base Schnorr proof-of-knowledge primitive.
//!
//! Over bases `b_1 … b_k` in the first group, a prover knowing exponents
//! `x_1 … x_k` with `Y = sum x_i * b_i` commits to blindings `rho`, receives
//! a challenge `c`, and responds with `s_i = rho_i + c * x_i`. A verifier
//! accepts iff `sum s_i * b_i = T + c * Y`.

use vstd::prelude::*;

use crate::groups::{fr_add, fr_mul, fr_rand, g1_add, g1_eq, g1_msm, g1_mul};
use crate::groups::{spec_fr_add, spec_fr_mul, spec_g1_add, spec_g1_msm, spec_g1_mul};
use crate::groups::{Fr, Prng, G1};
use crate::util::copy_vec;

verus! {

/// The responses `s_i = rho_i + c * x_i`, element by element.
pub open spec fn spec_schnorr_responses(blindings: Seq<Fr>, exponents: Seq<Fr>, c: Fr) -> Seq<Fr> {
    Seq::new(blindings.len(), |i: int| spec_fr_add(blindings[i], spec_fr_mul(c, exponents[i])))
}

/// The verification equation: the responses cover every base and
/// `sum s_i * b_i = T + c * Y`.
pub open spec fn spec_schnorr_valid(bases: Seq<G1>, y: G1, t: G1, s: Seq<Fr>, c: Fr) -> bool {
    &&& s.len() == bases.len()
    &&& spec_g1_msm(bases, s) == spec_g1_add(t, spec_g1_mul(y, c))
}

/// The prover's first move: the blinding vector `rho` and its commitment
/// `T = sum rho_i * b_i`.
pub struct SchnorrCommitment {
    pub commitment: G1,
    pub blindings: Vec<Fr>,
}

/// The commit / prove / verify steps of the primitive.
pub struct SchnorrProtocol;

impl SchnorrProtocol {
    /// Samples one blinding per base and commits to them.
    pub fn commit(bases: &Vec<G1>, rng: &mut Prng) -> (sc: SchnorrCommitment)
        ensures
            sc.blindings@.len() == bases@.len(),
            sc.commitment == spec_g1_msm(bases@, sc.blindings@),
    {
        let mut blindings: Vec<Fr> = Vec::new();
        let mut i: usize = 0;
        while i < bases.len()
            invariant
                i <= bases@.len(),
                blindings@.len() == i,
            decreases bases@.len() - i,
        {
            blindings.push(fr_rand(rng));
            i = i + 1;
        }
        let commitment = g1_msm(bases, &blindings);
        SchnorrCommitment { commitment, blindings }
    }

    /// Commits to a caller-supplied blinding vector. Used where blindings
    /// must be shared across several commitments.
    pub fn commit_with_prepared_blindings(bases: &Vec<G1>, blindings: &Vec<Fr>) -> (sc:
        SchnorrCommitment)
        requires
            bases@.len() == blindings@.len(),
        ensures
            sc.blindings@ == blindings@,
            sc.commitment == spec_g1_msm(bases@, blindings@),
    {
        let commitment = g1_msm(bases, blindings);
        SchnorrCommitment { commitment, blindings: copy_vec(blindings) }
    }

    /// The prover's response vector `s = rho + c * x`.
    pub fn prove(state: &SchnorrCommitment, exponents: &Vec<Fr>, challenge: &Fr) -> (s: Vec<Fr>)
        requires
            state.blindings@.len() == exponents@.len(),
        ensures
            s@ == spec_schnorr_responses(state.blindings@, exponents@, *challenge),
    {
        let mut s: Vec<Fr> = Vec::new();
        let mut i: usize = 0;
        while i < state.blindings.len()
            invariant
                i <= state.blindings@.len(),
                state.blindings@.len() == exponents@.len(),
                s@.len() == i,
                forall|j: int|
                    0 <= j < i ==> #[trigger] s@[j] == spec_fr_add(
                        state.blindings@[j],
                        spec_fr_mul(*challenge, exponents@[j]),
                    ),
            decreases state.blindings@.len() - i,
        {
            s.push(fr_add(&state.blindings[i], &fr_mul(challenge, &exponents[i])));
            i = i + 1;
        }
        proof {
            assert(s@ =~= spec_schnorr_responses(state.blindings@, exponents@, *challenge));
        }
        s
    }

    /// The verifier's check of one Schnorr equation.
    pub fn verify_schnorr(
        bases: &Vec<G1>,
        y: &G1,
        t: &G1,
        responses: &Vec<Fr>,
        challenge: &Fr,
    ) -> (r: bool)
        ensures
            r == spec_schnorr_valid(bases@, *y, *t, responses@, *challenge),
    {
        if responses.len() != bases.len() {
            return false;
        }
        let lhs = g1_msm(bases, responses);
        let rhs = g1_add(t, &g1_mul(y, challenge));
        g1_eq(&lhs, &rhs)
    }
}

} // verus!
