//! Proof that several commitments share the committed value at index 0.
//!
//! Given commitments under potentially different public parameters, the
//! prover shows knowledge of openings whose first attribute — the user
//! identifier — is one and the same scalar: every per-credential Schnorr
//! proof shares the blinding at index 0 and the challenge, so the response
//! at index 0 must agree across credentials, and a verifier checks exactly
//! that.

use vstd::prelude::*;

use crate::commitment::Commitment;
use crate::error::Error;
use crate::groups::{fr_eq, fr_rand, spec_g1_msm, Fr, Prng};
use crate::public_params::PublicParams;
use crate::schnorr::{spec_schnorr_responses, spec_schnorr_valid, SchnorrCommitment,
    SchnorrProtocol};
use crate::util::copy_vec;

verus! {

/// The inputs pair up: one message vector, one blinding scalar and one set
/// of public parameters per commitment, and at least one commitment.
pub open spec fn spec_ib_lengths_ok(
    commitments: Seq<Commitment>,
    messages: Seq<Vec<Fr>>,
    randomness: Seq<Fr>,
    pps: Seq<&PublicParams>,
) -> bool {
    &&& commitments.len() > 0
    &&& messages.len() == commitments.len()
    &&& randomness.len() == commitments.len()
    &&& pps.len() == commitments.len()
}

/// Some message vector is empty.
pub open spec fn spec_ib_some_empty(messages: Seq<Vec<Fr>>) -> bool {
    exists|j: int| 0 <= j < messages.len() && (#[trigger] messages[j])@.len() == 0
}

/// Some user identifier differs from the first one.
pub open spec fn spec_ib_ids_differ(messages: Seq<Vec<Fr>>) -> bool {
    exists|j: int| 0 <= j < messages.len() && (#[trigger] messages[j])@[0] != messages[0]@[0]
}

/// Some message vector does not have the width of its parameters'
/// commitment key.
pub open spec fn spec_ib_width_mismatch(messages: Seq<Vec<Fr>>, pps: Seq<&PublicParams>) -> bool {
    exists|j: int| 0 <= j < messages.len() && (#[trigger] messages[j])@.len() != pps[j].ck@.len()
}

/// What an honest prover produces: the stored commitments are the inputs,
/// every Schnorr commitment opens over its parameters' bases with a
/// blinding vector whose entry 0 is shared, and every response vector
/// answers the one challenge for `messages_j ∥ randomness_j`.
pub open spec fn spec_ib_freshly_proven(
    p: IdentityBindingProof,
    messages: Seq<Vec<Fr>>,
    randomness: Seq<Fr>,
    pps: Seq<&PublicParams>,
) -> bool {
    &&& p.schnorr_commitments@.len() == p.commitments@.len()
    &&& p.responses@.len() == p.commitments@.len()
    &&& forall|j: int|
        #![trigger p.schnorr_commitments@[j]]
        0 <= j < p.commitments@.len() ==> {
            &&& p.schnorr_commitments@[j].blindings@.len() == pps[j].ck@.len() + 1
            &&& p.schnorr_commitments@[j].commitment == spec_g1_msm(
                pps[j].spec_g1_bases(),
                p.schnorr_commitments@[j].blindings@,
            )
            &&& p.schnorr_commitments@[j].blindings@[0] == p.schnorr_commitments@[0].blindings@[0]
            &&& p.responses@[j]@ == spec_schnorr_responses(
                p.schnorr_commitments@[j].blindings@,
                messages[j]@.push(randomness[j]),
                p.challenge,
            )
        }
}

/// Every response vector agrees with the first one at index 0 — the
/// observable linkage of the shared identifier.
pub open spec fn spec_ib_linked(p: IdentityBindingProof) -> bool {
    forall|j: int|
        0 <= j < p.responses@.len() ==> (#[trigger] p.responses@[j])@[0] == p.responses@[0]@[0]
}

/// Every per-credential Schnorr equation holds against the commitment and
/// the proof bases of its parameters.
pub open spec fn spec_ib_schnorr_valid(p: IdentityBindingProof, pps: Seq<&PublicParams>) -> bool {
    forall|j: int|
        #![trigger p.commitments@[j]]
        0 <= j < p.commitments@.len() ==> spec_schnorr_valid(
            pps[j].spec_g1_bases(),
            p.commitments@[j].cm,
            p.schnorr_commitments@[j].commitment,
            p.responses@[j]@,
            p.challenge,
        )
}

/// The proof: the commitments it speaks about, one Schnorr commitment per
/// credential (sharing the blinding at index 0), one challenge, and one
/// response vector per credential.
pub struct IdentityBindingProof {
    pub commitments: Vec<Commitment>,
    pub schnorr_commitments: Vec<SchnorrCommitment>,
    pub challenge: Fr,
    pub responses: Vec<Vec<Fr>>,
}

impl IdentityBindingProof {
    /// Proves that all commitments share the committed value at index 0.
    /// Inputs that pair up wrongly, an empty message vector, or differing
    /// identifiers are rejected with a descriptive error, never by panic.
    pub fn prove(
        commitments: &Vec<Commitment>,
        messages: &Vec<Vec<Fr>>,
        randomness: &Vec<Fr>,
        public_params: &Vec<&PublicParams>,
        rng: &mut Prng,
    ) -> (res: Result<IdentityBindingProof, Error>)
        ensures
            res is Ok <==> {
                &&& spec_ib_lengths_ok(commitments@, messages@, randomness@, public_params@)
                &&& !spec_ib_some_empty(messages@)
                &&& !spec_ib_ids_differ(messages@)
                &&& !spec_ib_width_mismatch(messages@, public_params@)
            },
            !spec_ib_lengths_ok(commitments@, messages@, randomness@, public_params@) ==> (
            res matches Err(e) && e matches Error::Other(m) && m@
                == "Mismatched input lengths"@),
            spec_ib_lengths_ok(commitments@, messages@, randomness@, public_params@)
                && spec_ib_some_empty(messages@) ==> (res matches Err(e) && e matches Error::Other(
                m,
            ) && m@ == "Messages must have at least one element"@),
            spec_ib_lengths_ok(commitments@, messages@, randomness@, public_params@)
                && !spec_ib_some_empty(messages@) && spec_ib_ids_differ(messages@) ==> (
            res matches Err(e) && e matches Error::Other(m) && m@
                == "User identifiers must be identical"@),
            res matches Ok(p) ==> {
                &&& p.commitments@ == commitments@
                &&& spec_ib_freshly_proven(p, messages@, randomness@, public_params@)
                &&& spec_ib_linked(p)
            },
    {
        let k = commitments.len();
        if k == 0 || messages.len() != k || randomness.len() != k || public_params.len() != k {
            return Result::Err(Error::Other("Mismatched input lengths".to_owned()));
        }
        let mut j: usize = 0;
        while j < k
            invariant
                k == commitments@.len(),
                k > 0,
                messages@.len() == k,
                randomness@.len() == k,
                public_params@.len() == k,
                j <= k,
                forall|t: int| 0 <= t < j ==> (#[trigger] messages@[t])@.len() > 0,
            decreases k - j,
        {
            if messages[j].len() == 0 {
                return Result::Err(
                    Error::Other("Messages must have at least one element".to_owned()),
                );
            }
            j = j + 1;
        }
        let mut j: usize = 1;
        while j < k
            invariant
                k == commitments@.len(),
                k > 0,
                messages@.len() == k,
                randomness@.len() == k,
                public_params@.len() == k,
                1 <= j <= k,
                forall|t: int| 0 <= t < k ==> (#[trigger] messages@[t])@.len() > 0,
                forall|t: int| 0 <= t < j ==> (#[trigger] messages@[t])@[0] == messages@[0]@[0],
            decreases k - j,
        {
            if !fr_eq(&messages[j][0], &messages[0][0]) {
                return Result::Err(
                    Error::Other("User identifiers must be identical".to_owned()),
                );
            }
            j = j + 1;
        }
        let mut j: usize = 0;
        while j < k
            invariant
                k == commitments@.len(),
                k > 0,
                messages@.len() == k,
                randomness@.len() == k,
                public_params@.len() == k,
                j <= k,
                forall|t: int| 0 <= t < k ==> (#[trigger] messages@[t])@.len() > 0,
                forall|t: int| 0 <= t < k ==> (#[trigger] messages@[t])@[0] == messages@[0]@[0],
                forall|t: int|
                    0 <= t < j ==> (#[trigger] messages@[t])@.len() == public_params@[t].ck@.len(),
            decreases k - j,
        {
            if messages[j].len() != public_params[j].ck.len() {
                return Result::Err(Error::Other("Mismatched input lengths".to_owned()));
            }
            j = j + 1;
        }
        let common_blinding = fr_rand(rng);
        let mut schnorr_commitments: Vec<SchnorrCommitment> = Vec::new();
        let mut j: usize = 0;
        while j < k
            invariant
                k == commitments@.len(),
                k > 0,
                messages@.len() == k,
                randomness@.len() == k,
                public_params@.len() == k,
                j <= k,
                schnorr_commitments@.len() == j,
                forall|t: int| 0 <= t < k ==> (#[trigger] messages@[t])@.len() > 0,
                forall|t: int| 0 <= t < k ==> (#[trigger] messages@[t])@[0] == messages@[0]@[0],
                forall|t: int|
                    0 <= t < k ==> (#[trigger] messages@[t])@.len() == public_params@[t].ck@.len(),
                forall|t: int|
                    #![trigger schnorr_commitments@[t]]
                    0 <= t < j ==> {
                        &&& schnorr_commitments@[t].blindings@.len() == public_params@[t].ck@.len()
                            + 1
                        &&& schnorr_commitments@[t].commitment == spec_g1_msm(
                            public_params@[t].spec_g1_bases(),
                            schnorr_commitments@[t].blindings@,
                        )
                        &&& schnorr_commitments@[t].blindings@[0] == common_blinding
                    },
            decreases k - j,
        {
            let pp = public_params[j];
            let bases = pp.get_g1_bases();
            let mut blindings: Vec<Fr> = Vec::new();
            blindings.push(common_blinding);
            while blindings.len() < bases.len()
                invariant
                    1 <= blindings@.len() <= bases@.len() || blindings@.len() == 1,
                    blindings@[0] == common_blinding,
                decreases bases@.len() - blindings@.len(),
            {
                blindings.push(fr_rand(rng));
            }
            let sc = SchnorrProtocol::commit_with_prepared_blindings(&bases, &blindings);
            schnorr_commitments.push(sc);
            j = j + 1;
        }
        let challenge = fr_rand(rng);
        let mut all_responses: Vec<Vec<Fr>> = Vec::new();
        let mut j: usize = 0;
        while j < k
            invariant
                k == commitments@.len(),
                k > 0,
                messages@.len() == k,
                randomness@.len() == k,
                public_params@.len() == k,
                j <= k,
                all_responses@.len() == j,
                schnorr_commitments@.len() == k,
                forall|t: int| 0 <= t < k ==> (#[trigger] messages@[t])@.len() > 0,
                forall|t: int| 0 <= t < k ==> (#[trigger] messages@[t])@[0] == messages@[0]@[0],
                forall|t: int|
                    0 <= t < k ==> (#[trigger] messages@[t])@.len() == public_params@[t].ck@.len(),
                forall|t: int|
                    #![trigger schnorr_commitments@[t]]
                    0 <= t < k ==> {
                        &&& schnorr_commitments@[t].blindings@.len() == public_params@[t].ck@.len()
                            + 1
                        &&& schnorr_commitments@[t].commitment == spec_g1_msm(
                            public_params@[t].spec_g1_bases(),
                            schnorr_commitments@[t].blindings@,
                        )
                        &&& schnorr_commitments@[t].blindings@[0] == common_blinding
                    },
                forall|t: int|
                    #![trigger all_responses@[t]]
                    0 <= t < j ==> all_responses@[t]@ == spec_schnorr_responses(
                        schnorr_commitments@[t].blindings@,
                        messages@[t]@.push(randomness@[t]),
                        challenge,
                    ),
            decreases k - j,
        {
            let mut exponents = copy_vec(&messages[j]);
            exponents.push(randomness[j]);
            let responses = SchnorrProtocol::prove(&schnorr_commitments[j], &exponents, &challenge);
            all_responses.push(responses);
            j = j + 1;
        }
        let p = IdentityBindingProof {
            commitments: copy_vec(commitments),
            schnorr_commitments,
            challenge,
            responses: all_responses,
        };
        proof {
            assert forall|t: int| 0 <= t < p.responses@.len() implies (#[trigger] p.responses@[t])@[0]
                == p.responses@[0]@[0] by {
                assert(messages@[t]@.push(randomness@[t])[0] == messages@[t]@[0]);
                assert(messages@[0]@.push(randomness@[0])[0] == messages@[0]@[0]);
            }
        }
        Result::Ok(p)
    }

    /// Verifies the per-credential Schnorr equations and the linkage at
    /// index 0; component lists that pair up wrongly are an error.
    pub fn verify(&self, public_params: &Vec<&PublicParams>) -> (res: Result<bool, Error>)
        ensures
            res is Err <==> {
                ||| self.commitments@.len() == 0
                ||| self.schnorr_commitments@.len() != self.commitments@.len()
                ||| self.responses@.len() != self.commitments@.len()
                ||| public_params@.len() != self.commitments@.len()
            },
            res matches Err(e) ==> (e matches Error::Other(m) && m@
                == "Mismatched proof component lengths"@),
            res matches Ok(b) ==> b == (spec_ib_schnorr_valid(*self, public_params@)
                && spec_ib_linked(*self)),
    {
        let k = self.commitments.len();
        if k == 0 || self.schnorr_commitments.len() != k || self.responses.len() != k
            || public_params.len() != k {
            return Result::Err(Error::Other("Mismatched proof component lengths".to_owned()));
        }
        let mut j: usize = 0;
        while j < k
            invariant
                k == self.commitments@.len(),
                k > 0,
                self.schnorr_commitments@.len() == k,
                self.responses@.len() == k,
                public_params@.len() == k,
                j <= k,
                forall|t: int|
                    #![trigger self.commitments@[t]]
                    0 <= t < j ==> spec_schnorr_valid(
                        public_params@[t].spec_g1_bases(),
                        self.commitments@[t].cm,
                        self.schnorr_commitments@[t].commitment,
                        self.responses@[t]@,
                        self.challenge,
                    ),
            decreases k - j,
        {
            let bases = public_params[j].get_g1_bases();
            let is_valid = SchnorrProtocol::verify_schnorr(
                &bases,
                &self.commitments[j].cm,
                &self.schnorr_commitments[j].commitment,
                &self.responses[j],
                &self.challenge,
            );
            if !is_valid {
                return Result::Ok(false);
            }
            j = j + 1;
        }
        proof {
            assert forall|t: int| 0 <= t < k implies (#[trigger] self.responses@[t])@.len() > 0 by {
                assert(spec_schnorr_valid(
                    public_params@[t].spec_g1_bases(),
                    self.commitments@[t].cm,
                    self.schnorr_commitments@[t].commitment,
                    self.responses@[t]@,
                    self.challenge,
                ));
                assert(public_params@[t].spec_g1_bases().len() == public_params@[t].ck@.len() + 1);
            }
        }
        let mut j: usize = 1;
        while j < k
            invariant
                k == self.commitments@.len(),
                k > 0,
                self.schnorr_commitments@.len() == k,
                self.responses@.len() == k,
                public_params@.len() == k,
                1 <= j <= k,
                forall|t: int| 0 <= t < k ==> (#[trigger] self.responses@[t])@.len() > 0,
                forall|t: int|
                    #![trigger self.commitments@[t]]
                    0 <= t < k ==> spec_schnorr_valid(
                        public_params@[t].spec_g1_bases(),
                        self.commitments@[t].cm,
                        self.schnorr_commitments@[t].commitment,
                        self.responses@[t]@,
                        self.challenge,
                    ),
                forall|t: int|
                    0 <= t < j ==> (#[trigger] self.responses@[t])@[0] == self.responses@[0]@[0],
            decreases k - j,
        {
            if !fr_eq(&self.responses[j][0], &self.responses[0][0]) {
                return Result::Ok(false);
            }
            j = j + 1;
        }
        Result::Ok(true)
    }
}

/// The linkage law: a freshly produced identity proof over message vectors
/// that agree at index 0 has equal responses at index 0 — exactly the
/// check with which a verifier ties the credentials to one identity. The
/// shared blinding, the shared challenge, and the shared identifier force
/// the agreement.
pub proof fn lemma_shared_identity_links_responses(
    p: IdentityBindingProof,
    messages: Seq<Vec<Fr>>,
    randomness: Seq<Fr>,
    pps: Seq<&PublicParams>,
)
    requires
        spec_ib_freshly_proven(p, messages, randomness, pps),
        messages.len() == p.commitments@.len(),
        randomness.len() == p.commitments@.len(),
        forall|j: int| 0 <= j < messages.len() ==> (#[trigger] messages[j])@.len() > 0,
        forall|j: int| 0 <= j < messages.len() ==> (#[trigger] messages[j])@[0] == messages[0]@[0],
    ensures
        spec_ib_linked(p),
{
    assert forall|j: int|
        0 <= j < p.responses@.len() implies (#[trigger] p.responses@[j])@[0]
        == p.responses@[0]@[0] by {
        assert(p.responses@[j]@ == spec_schnorr_responses(
            p.schnorr_commitments@[j].blindings@,
            messages[j]@.push(randomness[j]),
            p.challenge,
        ));
        assert(p.responses@[0]@ == spec_schnorr_responses(
            p.schnorr_commitments@[0].blindings@,
            messages[0]@.push(randomness[0]),
            p.challenge,
        ));
        assert(messages[j]@.push(randomness[j])[0] == messages[j]@[0]);
        assert(messages[0]@.push(randomness[0])[0] == messages[0]@[0]);
    }
}

/// The facade of the identity-binding proof.
pub struct IdentityBinding;

impl IdentityBinding {
    /// Proves that all commitments share the same identity.
    pub fn prove(
        commitments: &Vec<Commitment>,
        messages: &Vec<Vec<Fr>>,
        randomness: &Vec<Fr>,
        public_params: &Vec<&PublicParams>,
        rng: &mut Prng,
    ) -> (res: Result<IdentityBindingProof, Error>)
        ensures
            res is Ok <==> {
                &&& spec_ib_lengths_ok(commitments@, messages@, randomness@, public_params@)
                &&& !spec_ib_some_empty(messages@)
                &&& !spec_ib_ids_differ(messages@)
                &&& !spec_ib_width_mismatch(messages@, public_params@)
            },
            spec_ib_lengths_ok(commitments@, messages@, randomness@, public_params@)
                && !spec_ib_some_empty(messages@) && spec_ib_ids_differ(messages@) ==> (
            res matches Err(e) && e matches Error::Other(m) && m@
                == "User identifiers must be identical"@),
            res matches Ok(p) ==> {
                &&& p.commitments@ == commitments@
                &&& spec_ib_freshly_proven(p, messages@, randomness@, public_params@)
                &&& spec_ib_linked(p)
            },
    {
        IdentityBindingProof::prove(commitments, messages, randomness, public_params, rng)
    }

    /// Verifies an identity binding proof.
    pub fn verify(proof_obj: &IdentityBindingProof, public_params: &Vec<&PublicParams>) -> (res:
        Result<bool, Error>)
        ensures
            res is Err <==> {
                ||| proof_obj.commitments@.len() == 0
                ||| proof_obj.schnorr_commitments@.len() != proof_obj.commitments@.len()
                ||| proof_obj.responses@.len() != proof_obj.commitments@.len()
                ||| public_params@.len() != proof_obj.commitments@.len()
            },
            res matches Ok(b) ==> b == (spec_ib_schnorr_valid(*proof_obj, public_params@)
                && spec_ib_linked(*proof_obj)),
    {
        proof_obj.verify(public_params)
    }
}

} // verus!
