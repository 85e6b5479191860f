//! Public parameters of one issuer.

use vstd::prelude::*;

use crate::groups::{fr_rand, g1_mul, g1_rand, g2_mul, g2_rand, spec_g1_mul, spec_g2_mul};
use crate::groups::{Fr, Prng, G1, G2};
use crate::util::copy_vec;

verus! {

/// The public parameters of one issuer: generators `g`, `g_tilde` of the two
/// source groups and the dual commitment bases `ck_i = y_i * g`,
/// `ck_tilde_i = y_i * g_tilde` derived from the secret exponents `y`.
pub struct PublicParams {
    pub n: usize,
    pub g: G1,
    pub g_tilde: G2,
    pub ck: Vec<G1>,
    pub ck_tilde: Vec<G2>,
    pub y_values: Vec<Fr>,
}

impl PublicParams {
    /// Well-formedness: the base vectors and the exponent vector have width
    /// `n`, at least 1, and base `i` of either group is the group's
    /// generator raised to `y_i`, so the two bases at each index share their
    /// discrete logarithm.
    pub open spec fn wf(&self) -> bool {
        &&& self.n >= 1
        &&& self.ck@.len() == self.n
        &&& self.ck_tilde@.len() == self.n
        &&& self.y_values@.len() == self.n
        &&& forall|i: int|
            0 <= i < self.n ==> #[trigger] self.ck@[i] == spec_g1_mul(self.g, self.y_values@[i])
        &&& forall|i: int|
            0 <= i < self.n ==> #[trigger] self.ck_tilde@[i] == spec_g2_mul(
                self.g_tilde,
                self.y_values@[i],
            )
    }

    /// The proof bases in the first group: `ck_1 … ck_n` followed by `g`.
    /// The trailing base is the slot for the blinding scalar `r`.
    pub open spec fn spec_g1_bases(&self) -> Seq<G1> {
        self.ck@.push(self.g)
    }

    /// The proof bases in the second group: `ck_tilde_1 … ck_tilde_n`
    /// followed by `g_tilde`.
    pub open spec fn spec_g_tilde_bases(&self) -> Seq<G2> {
        self.ck_tilde@.push(self.g_tilde)
    }

    /// Samples fresh generators and `n` secret exponents and derives the
    /// dual commitment bases from them.
    pub fn new(n: &usize, rng: &mut Prng) -> (pp: PublicParams)
        requires
            *n >= 1,
        ensures
            pp.wf(),
            pp.n == *n,
    {
        let g = g1_rand(rng);
        let g_tilde = g2_rand(rng);
        let mut y_values: Vec<Fr> = Vec::new();
        let mut ck: Vec<G1> = Vec::new();
        let mut ck_tilde: Vec<G2> = Vec::new();
        let mut i: usize = 0;
        while i < *n
            invariant
                i <= *n,
                y_values@.len() == i,
                ck@.len() == i,
                ck_tilde@.len() == i,
                forall|j: int| 0 <= j < i ==> #[trigger] ck@[j] == spec_g1_mul(g, y_values@[j]),
                forall|j: int|
                    0 <= j < i ==> #[trigger] ck_tilde@[j] == spec_g2_mul(g_tilde, y_values@[j]),
            decreases *n - i,
        {
            let y = fr_rand(rng);
            ck.push(g1_mul(&g, &y));
            ck_tilde.push(g2_mul(&g_tilde, &y));
            y_values.push(y);
            i = i + 1;
        }
        PublicParams { n: *n, g, g_tilde, ck, ck_tilde, y_values }
    }

    /// Returns `ck_1 … ck_n, g`.
    pub fn get_g1_bases(&self) -> (r: Vec<G1>)
        ensures
            r@ == self.spec_g1_bases(),
    {
        let mut r = copy_vec(&self.ck);
        r.push(self.g);
        r
    }

    /// Returns `ck_1 … ck_n, g`, building the vector in place.
    pub fn get_g1_basesv2(&self) -> (r: Vec<G1>)
        ensures
            r@ == self.spec_g1_bases(),
    {
        let mut g1_bases = copy_vec(&self.ck);
        g1_bases.push(self.g);
        g1_bases
    }

    /// Returns `ck_tilde_1 … ck_tilde_n, g_tilde`.
    pub fn get_g_tilde_bases(&self) -> (r: Vec<G2>)
        ensures
            r@ == self.spec_g_tilde_bases(),
    {
        let mut r = copy_vec(&self.ck_tilde);
        r.push(self.g_tilde);
        r
    }

    /// Returns the secret exponent vector `y`.
    pub fn get_y_values(&self) -> (r: Vec<Fr>)
        ensures
            r@ == self.y_values@,
    {
        copy_vec(&self.y_values)
    }
}

} // verus!
