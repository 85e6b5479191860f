//! Batch presentation and batch verification under one issuer.

use vstd::prelude::*;

use crate::commitment::Commitment;
use crate::commitment_proof::{spec_freshly_proven, CommitmentProof};
use crate::credential::{spec_credential_valid, spec_show_output, Credential, ShowCredential};
use crate::error::Error;
use crate::groups::{fr_rand, g1_neg, spec_fr_add, spec_g1_add, spec_g1_msm, spec_g1_mul,
    spec_g1_neg, spec_g2_add, spec_g2_mul, spec_gt_is_identity, spec_multi_pairing};
use crate::groups::{Fr, Prng, G1, G2};
use crate::pairing::{create_check, PairingCheck};
use crate::public_params::PublicParams;
use crate::schnorr::spec_schnorr_responses;
use crate::signature::{spec_signature_valid, Signature, VerificationKey};

verus! {

/// Every opening proof of the batch passes its Schnorr equation.
pub open spec fn spec_all_proofs_valid(ps: Seq<CommitmentProof>) -> bool {
    forall|i: int| 0 <= i < ps.len() ==> (#[trigger] ps[i]).valid()
}

/// Every signature of the batch passes both pairing equations against the
/// commitment at its index.
pub open spec fn spec_all_signatures_valid(
    sigs: Seq<Signature>,
    cms: Seq<Commitment>,
    pp: PublicParams,
    vk: VerificationKey,
) -> bool {
    forall|i: int|
        0 <= i < sigs.len() ==> spec_signature_valid(#[trigger] sigs[i], cms[i], pp, vk)
}

/// The first-group points of the folded batch equation: for credential `i`
/// the four entries `sigma2_i, -sigma1_i, cm_i, -g`, where `cm_i` is the
/// commitment the `i`-th opening proof carries.
pub open spec fn spec_batch_g1(
    sigs: Seq<Signature>,
    proofs: Seq<CommitmentProof>,
    pp: PublicParams,
) -> Seq<G1> {
    Seq::new(
        4 * sigs.len(),
        |idx: int|
            if idx % 4 == 0 {
                sigs[idx / 4].sigma2
            } else if idx % 4 == 1 {
                spec_g1_neg(sigs[idx / 4].sigma1)
            } else if idx % 4 == 2 {
                proofs[idx / 4].commitment.cm
            } else {
                spec_g1_neg(pp.g)
            },
    )
}

/// The second-group points of the folded batch equation: for credential `i`
/// the four entries `g_tilde, vk_tilde + cm_tilde_i, g_tilde, cm_tilde_i`.
pub open spec fn spec_batch_g2(
    proofs: Seq<CommitmentProof>,
    pp: PublicParams,
    vk: VerificationKey,
) -> Seq<G2> {
    Seq::new(
        4 * proofs.len(),
        |idx: int|
            if idx % 4 == 0 {
                pp.g_tilde
            } else if idx % 4 == 1 {
                spec_g2_add(vk.vk_tilde, proofs[idx / 4].commitment.cm_tilde)
            } else if idx % 4 == 2 {
                pp.g_tilde
            } else {
                proofs[idx / 4].commitment.cm_tilde
            },
    )
}

/// One presentation of the batch derives from `c` by some coins: the
/// signature is `c`'s re-randomized, the commitment is `c`'s shifted, and
/// the opening proof is fresh for the shifted opening.
pub open spec fn spec_aggregated_with(
    c: Credential,
    pp: PublicParams,
    sig: Signature,
    cm: Commitment,
    cp: CommitmentProof,
    coins: (Fr, Fr),
) -> bool {
    &&& sig == c.signature.unwrap().spec_randomize(coins.0, coins.1)
    &&& cm.cm == spec_g1_add(c.commitment.cm, spec_g1_mul(pp.g, coins.0))
    &&& cm.cm_tilde == spec_g2_add(c.commitment.cm_tilde, spec_g2_mul(pp.g_tilde, coins.0))
    &&& spec_freshly_proven(cp, pp, c.messages@, spec_fr_add(c.r, coins.0), cm)
}

/// The whole batch derives from the credentials by the coin sequence
/// `coins`, presentation by presentation.
pub open spec fn spec_aggregated_from_all(
    cs: Seq<Credential>,
    pp: PublicParams,
    a: AggregatePresentation,
    coins: Seq<(Fr, Fr)>,
) -> bool {
    &&& coins.len() == cs.len()
    &&& forall|i: int|
        #![trigger cs[i]]
        0 <= i < cs.len() ==> spec_aggregated_with(
            cs[i],
            pp,
            a.randomized_signatures@[i],
            a.randomized_commitments@[i],
            a.proofs@[i],
            coins[i],
        )
}

/// An aggregate presentation of several credentials from one issuer:
/// parallel vectors of randomized signatures, randomized commitments, and
/// opening proofs.
pub struct AggregatePresentation {
    pub randomized_signatures: Vec<Signature>,
    pub randomized_commitments: Vec<Commitment>,
    pub proofs: Vec<CommitmentProof>,
}

impl AggregatePresentation {
    /// The three vectors pair up.
    pub open spec fn wf(&self) -> bool {
        &&& self.randomized_signatures@.len() == self.randomized_commitments@.len()
        &&& self.randomized_signatures@.len() == self.proofs@.len()
    }

    /// Collects the parts of the given presentations, in order.
    pub fn new(presentations: Vec<ShowCredential>) -> (a: AggregatePresentation)
        ensures
            a.wf(),
            a.randomized_signatures@.len() == presentations@.len(),
            forall|i: int|
                0 <= i < presentations@.len() ==> {
                    &&& a.randomized_signatures@[i] == (
                    #[trigger] presentations@[i]).randomized_signature
                    &&& a.randomized_commitments@[i] == presentations@[i].randomized_commitment
                    &&& a.proofs@[i].commitment == presentations@[i].opening_proof.commitment
                    &&& a.proofs@[i].bases@ == presentations@[i].opening_proof.bases@
                    &&& a.proofs@[i].schnorr_commitment
                        == presentations@[i].opening_proof.schnorr_commitment
                    &&& a.proofs@[i].challenge == presentations@[i].opening_proof.challenge
                    &&& a.proofs@[i].responses@ == presentations@[i].opening_proof.responses@
                    &&& a.proofs@[i].valid() == presentations@[i].opening_proof.valid()
                },
    {
        let mut randomized_signatures: Vec<Signature> = Vec::new();
        let mut randomized_commitments: Vec<Commitment> = Vec::new();
        let mut proofs: Vec<CommitmentProof> = Vec::new();
        let mut i: usize = 0;
        while i < presentations.len()
            invariant
                i <= presentations@.len(),
                randomized_signatures@.len() == i,
                randomized_commitments@.len() == i,
                proofs@.len() == i,
                forall|j: int|
                    0 <= j < i ==> {
                        &&& randomized_signatures@[j] == (
                        #[trigger] presentations@[j]).randomized_signature
                        &&& randomized_commitments@[j] == presentations@[j].randomized_commitment
                        &&& proofs@[j].commitment == presentations@[j].opening_proof.commitment
                        &&& proofs@[j].bases@ == presentations@[j].opening_proof.bases@
                        &&& proofs@[j].schnorr_commitment
                            == presentations@[j].opening_proof.schnorr_commitment
                        &&& proofs@[j].challenge == presentations@[j].opening_proof.challenge
                        &&& proofs@[j].responses@ == presentations@[j].opening_proof.responses@
                        &&& proofs@[j].valid() == presentations@[j].opening_proof.valid()
                    },
            decreases presentations@.len() - i,
        {
            let p = &presentations[i];
            randomized_signatures.push(p.randomized_signature);
            randomized_commitments.push(p.randomized_commitment);
            proofs.push(p.opening_proof.clone());
            i = i + 1;
        }
        AggregatePresentation { randomized_signatures, randomized_commitments, proofs }
    }

    /// Verifies every opening proof, then every signature against the
    /// randomized commitment at its index.
    pub fn verify_all(&self, pp: &PublicParams, vk: &VerificationKey) -> (r: bool)
        requires
            self.wf(),
        ensures
            r == (spec_all_proofs_valid(self.proofs@) && spec_all_signatures_valid(
                self.randomized_signatures@,
                self.randomized_commitments@,
                *pp,
                *vk,
            )),
    {
        let mut i: usize = 0;
        while i < self.proofs.len()
            invariant
                i <= self.proofs@.len(),
                forall|j: int| 0 <= j < i ==> (#[trigger] self.proofs@[j]).valid(),
            decreases self.proofs@.len() - i,
        {
            if !self.proofs[i].verify() {
                return false;
            }
            i = i + 1;
        }
        let mut k: usize = 0;
        while k < self.randomized_signatures.len()
            invariant
                self.wf(),
                k <= self.randomized_signatures@.len(),
                forall|j: int|
                    0 <= j < k ==> spec_signature_valid(
                        #[trigger] self.randomized_signatures@[j],
                        self.randomized_commitments@[j],
                        *pp,
                        *vk,
                    ),
            decreases self.randomized_signatures@.len() - k,
        {
            if !vk.verify(&self.randomized_signatures[k], &self.randomized_commitments[k], pp) {
                return false;
            }
            k = k + 1;
        }
        true
    }

    /// Verifies every opening proof, then folds all signature and
    /// commitment-consistency pairings into one accumulated product. The
    /// fold carries no per-equation random weights, so it is a
    /// deterministic batch: its soundness is weaker than checking each
    /// equation alone unless the equations are independent.
    pub fn batch_verify(&self, pp: &PublicParams, vk: &VerificationKey) -> (r: bool)
        requires
            self.wf(),
        ensures
            r == (spec_all_proofs_valid(self.proofs@) && spec_gt_is_identity(
                spec_multi_pairing(
                    spec_batch_g1(self.randomized_signatures@, self.proofs@, *pp),
                    spec_batch_g2(self.proofs@, *pp, *vk),
                ),
            )),
    {
        let mut i: usize = 0;
        while i < self.proofs.len()
            invariant
                i <= self.proofs@.len(),
                forall|j: int| 0 <= j < i ==> (#[trigger] self.proofs@[j]).valid(),
            decreases self.proofs@.len() - i,
        {
            if !self.proofs[i].verify() {
                return false;
            }
            i = i + 1;
        }
        let ghost gseq1 = spec_batch_g1(self.randomized_signatures@, self.proofs@, *pp);
        let ghost gseq2 = spec_batch_g2(self.proofs@, *pp, *vk);
        let mut final_check = PairingCheck::new();
        let mut k: usize = 0;
        while k < self.randomized_signatures.len()
            invariant
                self.wf(),
                k <= self.randomized_signatures@.len(),
                gseq1 == spec_batch_g1(self.randomized_signatures@, self.proofs@, *pp),
                gseq2 == spec_batch_g2(self.proofs@, *pp, *vk),
                final_check.left@ == gseq1.subrange(0, 4 * k),
                final_check.right@ == gseq2.subrange(0, 4 * k),
                final_check.target is None,
            decreases self.randomized_signatures@.len() - k,
        {
            let signature = &self.randomized_signatures[k];
            let cp = &self.proofs[k];
            let vk_plus_cm_tilde = crate::groups::g2_add(&vk.vk_tilde, &cp.commitment.cm_tilde);
            let mut sig_left: Vec<G1> = Vec::new();
            sig_left.push(signature.sigma2);
            sig_left.push(g1_neg(&signature.sigma1));
            let mut sig_right: Vec<G2> = Vec::new();
            sig_right.push(pp.g_tilde);
            sig_right.push(vk_plus_cm_tilde);
            let sig_check = create_check(&sig_left, &sig_right, Option::None);
            let mut cm_left: Vec<G1> = Vec::new();
            cm_left.push(cp.commitment.cm);
            cm_left.push(g1_neg(&pp.g));
            let mut cm_right: Vec<G2> = Vec::new();
            cm_right.push(pp.g_tilde);
            cm_right.push(cp.commitment.cm_tilde);
            let cm_check = create_check(&cm_left, &cm_right, Option::None);
            final_check.merge(&sig_check);
            final_check.merge(&cm_check);
            proof {
                assert(final_check.left@ =~= gseq1.subrange(0, 4 * (k + 1)));
                assert(final_check.right@ =~= gseq2.subrange(0, 4 * (k + 1)));
            }
            k = k + 1;
        }
        proof {
            assert(gseq1.subrange(0, 4 * self.randomized_signatures@.len() as int) =~= gseq1);
            assert(gseq2.subrange(0, 4 * self.randomized_signatures@.len() as int) =~= gseq2);
        }
        final_check.verify()
    }
}

/// Helper that turns credentials into an aggregate presentation.
pub struct CredentialAggregation;

impl CredentialAggregation {
    /// Shows every credential with fresh coins and aggregates the results.
    /// Fails exactly when some credential is unsigned.
    pub fn aggregate_credentials(
        credentials: &Vec<Credential>,
        pp: &PublicParams,
        rng: &mut Prng,
    ) -> (res: Result<AggregatePresentation, Error>)
        requires
            pp.wf(),
            forall|i: int|
                0 <= i < credentials@.len() ==> (#[trigger] credentials@[i]).messages@.len()
                    == pp.n,
        ensures
            res is Ok <==> (forall|i: int|
                0 <= i < credentials@.len() ==> (#[trigger] credentials@[i]).signed()),
            res matches Ok(a) ==> {
                &&& a.wf()
                &&& a.randomized_signatures@.len() == credentials@.len()
                &&& exists|coins: Seq<(Fr, Fr)>|
                    #[trigger] spec_aggregated_from_all(credentials@, *pp, a, coins)
            },
    {
        let mut presentations: Vec<ShowCredential> = Vec::new();
        let ghost mut coins_seq: Seq<(Fr, Fr)> = Seq::empty();
        let mut i: usize = 0;
        while i < credentials.len()
            invariant
                pp.wf(),
                i <= credentials@.len(),
                presentations@.len() == i,
                forall|j: int|
                    0 <= j < credentials@.len() ==> (#[trigger] credentials@[j]).messages@.len()
                        == pp.n,
                forall|j: int| 0 <= j < i ==> (#[trigger] credentials@[j]).signed(),
                coins_seq.len() == i,
                forall|j: int|
                    #![trigger credentials@[j]]
                    0 <= j < i ==> spec_show_output(
                        credentials@[j],
                        *pp,
                        coins_seq[j].0,
                        coins_seq[j].1,
                        presentations@[j],
                    ),
            decreases credentials@.len() - i,
        {
            let delta_r = fr_rand(rng);
            let delta_u = fr_rand(rng);
            let credential = &credentials[i];
            match credential.show(pp, &delta_r, &delta_u, rng) {
                Result::Err(e) => {
                    return Result::Err(e);
                },
                Result::Ok(p) => {
                    presentations.push(p);
                    proof {
                        coins_seq = coins_seq.push((delta_r, delta_u));
                    }
                },
            }
            i = i + 1;
        }
        let a = AggregatePresentation::new(presentations);
        proof {
            assert forall|j: int|
                #![trigger credentials@[j]]
                0 <= j < credentials@.len() implies spec_aggregated_with(
                credentials@[j],
                *pp,
                a.randomized_signatures@[j],
                a.randomized_commitments@[j],
                a.proofs@[j],
                coins_seq[j],
            ) by {
                assert(spec_show_output(
                    credentials@[j],
                    *pp,
                    coins_seq[j].0,
                    coins_seq[j].1,
                    presentations@[j],
                ));
                let cp0 = presentations@[j].opening_proof;
                let cp1 = a.proofs@[j];
                let m = credentials@[j].messages@;
                let rr = spec_fr_add(credentials@[j].r, coins_seq[j].0);
                assert(spec_freshly_proven(cp0, *pp, m, rr, a.randomized_commitments@[j]));
                let rho = choose|rho: Seq<Fr>|
                    #![auto]
                    {
                        &&& rho.len() == pp.n + 1
                        &&& cp0.schnorr_commitment == spec_g1_msm(pp.spec_g1_bases(), rho)
                        &&& cp0.responses@ == spec_schnorr_responses(rho, m.push(rr), cp0.challenge)
                    };
                assert(cp1.schnorr_commitment == spec_g1_msm(pp.spec_g1_bases(), rho));
                assert(cp1.responses@ == spec_schnorr_responses(rho, m.push(rr), cp1.challenge));
            }
            assert(spec_aggregated_from_all(credentials@, *pp, a, coins_seq));
        }
        Result::Ok(a)
    }
}

/// The non-private batch: the stored credentials themselves, verified
/// against their original commitments.
pub struct PlaintextAggregation {
    pub credentials: Vec<Credential>,
}

/// The first-group points of the plaintext batch: for credential `i` the
/// two entries `sigma2_i, -sigma1_i`.
pub open spec fn spec_plain_batch_g1(cs: Seq<Credential>) -> Seq<G1> {
    Seq::new(
        2 * cs.len(),
        |idx: int|
            if idx % 2 == 0 {
                cs[idx / 2].signature.unwrap().sigma2
            } else {
                spec_g1_neg(cs[idx / 2].signature.unwrap().sigma1)
            },
    )
}

/// The second-group points of the plaintext batch: for credential `i` the
/// two entries `g_tilde, vk_tilde + cm_tilde_i`.
pub open spec fn spec_plain_batch_g2(
    cs: Seq<Credential>,
    pp: PublicParams,
    vk: VerificationKey,
) -> Seq<G2> {
    Seq::new(
        2 * cs.len(),
        |idx: int|
            if idx % 2 == 0 {
                pp.g_tilde
            } else {
                spec_g2_add(vk.vk_tilde, cs[idx / 2].commitment.cm_tilde)
            },
    )
}

impl PlaintextAggregation {
    /// Wraps the credentials to verify.
    pub fn new(credentials: Vec<Credential>) -> (p: PlaintextAggregation)
        ensures
            p.credentials == credentials,
    {
        PlaintextAggregation { credentials }
    }

    /// Verifies each credential individually; an unsigned credential makes
    /// the whole batch false.
    pub fn verify_all(&self, pp: &PublicParams, vk: &VerificationKey) -> (r: bool)
        ensures
            r == (forall|i: int|
                0 <= i < self.credentials@.len() ==> spec_credential_valid(
                    #[trigger] self.credentials@[i],
                    *pp,
                    *vk,
                )),
    {
        let mut i: usize = 0;
        while i < self.credentials.len()
            invariant
                i <= self.credentials@.len(),
                forall|j: int|
                    0 <= j < i ==> spec_credential_valid(
                        #[trigger] self.credentials@[j],
                        *pp,
                        *vk,
                    ),
            decreases self.credentials@.len() - i,
        {
            if !self.credentials[i].verify(pp, vk) {
                return false;
            }
            i = i + 1;
        }
        true
    }

    /// Folds the signature equations of all credentials into one
    /// accumulated product; false as soon as a credential is unsigned.
    pub fn batch_verify(&self, pp: &PublicParams, vk: &VerificationKey) -> (r: bool)
        ensures
            r == ((forall|i: int|
                0 <= i < self.credentials@.len() ==> (#[trigger] self.credentials@[i]).signature
                    is Some) && spec_gt_is_identity(
                spec_multi_pairing(
                    spec_plain_batch_g1(self.credentials@),
                    spec_plain_batch_g2(self.credentials@, *pp, *vk),
                ),
            )),
    {
        let ghost gseq1 = spec_plain_batch_g1(self.credentials@);
        let ghost gseq2 = spec_plain_batch_g2(self.credentials@, *pp, *vk);
        let mut final_check = PairingCheck::new();
        let mut i: usize = 0;
        while i < self.credentials.len()
            invariant
                i <= self.credentials@.len(),
                gseq1 == spec_plain_batch_g1(self.credentials@),
                gseq2 == spec_plain_batch_g2(self.credentials@, *pp, *vk),
                forall|j: int|
                    0 <= j < i ==> (#[trigger] self.credentials@[j]).signature is Some,
                final_check.left@ == gseq1.subrange(0, 2 * i),
                final_check.right@ == gseq2.subrange(0, 2 * i),
                final_check.target is None,
            decreases self.credentials@.len() - i,
        {
            let credential = &self.credentials[i];
            match &credential.signature {
                Option::None => {
                    return false;
                },
                Option::Some(signature) => {
                    let vk_plus_cm_tilde = crate::groups::g2_add(
                        &vk.vk_tilde,
                        &credential.commitment.cm_tilde,
                    );
                    let mut sig_left: Vec<G1> = Vec::new();
                    sig_left.push(signature.sigma2);
                    sig_left.push(g1_neg(&signature.sigma1));
                    let mut sig_right: Vec<G2> = Vec::new();
                    sig_right.push(pp.g_tilde);
                    sig_right.push(vk_plus_cm_tilde);
                    let sig_check = create_check(&sig_left, &sig_right, Option::None);
                    final_check.merge(&sig_check);
                    proof {
                        assert(final_check.left@ =~= gseq1.subrange(0, 2 * (i + 1)));
                        assert(final_check.right@ =~= gseq2.subrange(0, 2 * (i + 1)));
                    }
                },
            }
            i = i + 1;
        }
        proof {
            assert(gseq1.subrange(0, 2 * self.credentials@.len() as int) =~= gseq1);
            assert(gseq2.subrange(0, 2 * self.credentials@.len() as int) =~= gseq2);
        }
        final_check.verify()
    }
}

/// An aggregate with one invalid opening proof is rejected by both
/// verification routes: the one-by-one check and the folded batch agree on
/// such a batch, and both say no.
pub proof fn lemma_invalid_proof_rejected_by_both_routes(
    a: AggregatePresentation,
    pp: PublicParams,
    vk: VerificationKey,
    j: int,
)
    requires
        a.wf(),
        0 <= j < a.proofs@.len(),
        !a.proofs@[j].valid(),
    ensures
        !(spec_all_proofs_valid(a.proofs@) && spec_all_signatures_valid(
            a.randomized_signatures@,
            a.randomized_commitments@,
            pp,
            vk,
        )),
        !(spec_all_proofs_valid(a.proofs@) && spec_gt_is_identity(
            spec_multi_pairing(
                spec_batch_g1(a.randomized_signatures@, a.proofs@, pp),
                spec_batch_g2(a.proofs@, pp, vk),
            ),
        )),
{
    assert(!(a.proofs@[j]).valid());
}

/// A plaintext batch holding an unsigned credential is rejected by both
/// verification routes: the one-by-one check and the folded pairing check
/// agree on such a batch, and both say no.
pub proof fn lemma_unsigned_rejected_by_both_routes(
    agg: PlaintextAggregation,
    pp: PublicParams,
    vk: VerificationKey,
    j: int,
)
    requires
        0 <= j < agg.credentials@.len(),
        agg.credentials@[j].signature is None,
    ensures
        !(forall|i: int|
            0 <= i < agg.credentials@.len() ==> spec_credential_valid(
                #[trigger] agg.credentials@[i],
                pp,
                vk,
            )),
        !((forall|i: int|
            0 <= i < agg.credentials@.len() ==> (#[trigger] agg.credentials@[i]).signature
                is Some) && spec_gt_is_identity(
            spec_multi_pairing(
                spec_plain_batch_g1(agg.credentials@),
                spec_plain_batch_g2(agg.credentials@, pp, vk),
            ),
        )),
{
    assert(!spec_credential_valid(agg.credentials@[j], pp, vk));
    assert(!((agg.credentials@[j]).signature is Some));
}

} // verus!
