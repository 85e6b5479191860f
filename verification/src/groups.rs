//! The trusted boundary to the pairing library.
//!
//! The protocol lives in a fixed bilinear group: the BLS12-381 curve with
//! scalar field `Fr`, source groups `G1` and `G2` (points in affine form),
//! and the target group `Gt`. The verifier treats a group element as opaque:
//! each deterministic operation of the pairing library is given an
//! uninterpreted spec-level name, and each executable wrapper below performs
//! exactly one library operation and ties its result to that name. All
//! contracts of this crate are stated over these names.

use vstd::prelude::*;

use ark_ec::pairing::Pairing;
use ark_ec::AffineRepr;
use ark_ec::CurveGroup;
use ark_ec::VariableBaseMSM;
use ark_ff::UniformRand;
use ark_std::rand::SeedableRng;
use ark_std::Zero;

verus! {

/// An element of the scalar field of BLS12-381.
#[verifier::external_body]
pub struct Fr {
    inner: ark_bls12_381::Fr,
}

/// A point of the first source group, in affine form.
#[verifier::external_body]
pub struct G1 {
    inner: ark_bls12_381::G1Affine,
}

/// A point of the second source group, in affine form.
#[verifier::external_body]
pub struct G2 {
    inner: ark_bls12_381::G2Affine,
}

/// An element of the target group of the pairing.
#[verifier::external_body]
pub struct Gt {
    inner: ark_ec::pairing::PairingOutput<ark_bls12_381::Bls12_381>,
}

/// A seedable random source for sampling scalars and points.
#[verifier::external_body]
pub struct Prng {
    inner: ark_std::rand::rngs::StdRng,
}

impl Clone for Fr {
    /// A group value is plain data: the clone is the value itself.
    #[verifier::external_body]
    fn clone(&self) -> (r: Self)
        ensures
            r == *self,
    {
        Fr { inner: self.inner }
    }
}

impl Copy for Fr {

}

impl Clone for G1 {
    /// A group value is plain data: the clone is the value itself.
    #[verifier::external_body]
    fn clone(&self) -> (r: Self)
        ensures
            r == *self,
    {
        G1 { inner: self.inner }
    }
}

impl Copy for G1 {

}

impl Clone for G2 {
    /// A group value is plain data: the clone is the value itself.
    #[verifier::external_body]
    fn clone(&self) -> (r: Self)
        ensures
            r == *self,
    {
        G2 { inner: self.inner }
    }
}

impl Copy for G2 {

}

impl Clone for Gt {
    /// A group value is plain data: the clone is the value itself.
    #[verifier::external_body]
    fn clone(&self) -> (r: Self)
        ensures
            r == *self,
    {
        Gt { inner: self.inner }
    }
}

impl Copy for Gt {

}


pub uninterp spec fn spec_fr_add(a: Fr, b: Fr) -> Fr;

pub uninterp spec fn spec_fr_mul(a: Fr, b: Fr) -> Fr;

pub uninterp spec fn spec_g1_add(a: G1, b: G1) -> G1;

pub uninterp spec fn spec_g1_mul(p: G1, k: Fr) -> G1;

pub uninterp spec fn spec_g1_neg(p: G1) -> G1;

pub uninterp spec fn spec_g1_msm(bases: Seq<G1>, scalars: Seq<Fr>) -> G1;

pub uninterp spec fn spec_g2_add(a: G2, b: G2) -> G2;

pub uninterp spec fn spec_g2_mul(p: G2, k: Fr) -> G2;

pub uninterp spec fn spec_g2_msm(bases: Seq<G2>, scalars: Seq<Fr>) -> G2;

pub uninterp spec fn spec_multi_pairing(ps: Seq<G1>, qs: Seq<G2>) -> Gt;

pub uninterp spec fn spec_gt_add(a: Gt, b: Gt) -> Gt;

pub uninterp spec fn spec_gt_is_identity(a: Gt) -> bool;

/// The pairing of a single pair of points. The pairing library defines
/// `Pairing::pairing(p, q)` as `Pairing::multi_pairing([p], [q])`, so the
/// one-pair product is the right reading of a single pairing.
pub open spec fn spec_pairing(p: G1, q: G2) -> Gt {
    spec_multi_pairing(seq![p], seq![q])
}

/// Relies on field addition in `ark_ff`: the sum is a function of the two
/// operands alone.
#[verifier::external_body]
pub fn fr_add(a: &Fr, b: &Fr) -> (r: Fr)
    ensures
        r == spec_fr_add(*a, *b),
{
    Fr { inner: a.inner + b.inner }
}

/// Relies on field multiplication in `ark_ff`: the product is a function of
/// the two operands alone.
#[verifier::external_body]
pub fn fr_mul(a: &Fr, b: &Fr) -> (r: Fr)
    ensures
        r == spec_fr_mul(*a, *b),
{
    Fr { inner: a.inner * b.inner }
}

/// Relies on `PartialEq` for `ark_ff::Fp`, which compares the canonical
/// Montgomery representations, so it agrees with structural equality.
#[verifier::external_body]
pub fn fr_eq(a: &Fr, b: &Fr) -> (r: bool)
    ensures
        r == (*a == *b),
{
    a.inner == b.inner
}

/// Relies on `UniformRand::rand` for the scalar field. Nothing is promised
/// of the sampled value.
#[verifier::external_body]
pub fn fr_rand(rng: &mut Prng) -> Fr {
    Fr { inner: ark_bls12_381::Fr::rand(&mut rng.inner) }
}

/// Relies on curve point addition in `ark_ec`; the sum is returned in
/// affine form, the canonical representation of the group element.
#[verifier::external_body]
pub fn g1_add(a: &G1, b: &G1) -> (r: G1)
    ensures
        r == spec_g1_add(*a, *b),
{
    G1 { inner: (a.inner + b.inner).into_affine() }
}

/// Relies on scalar multiplication of a curve point in `ark_ec`; the result
/// is returned in affine form.
#[verifier::external_body]
pub fn g1_mul(p: &G1, k: &Fr) -> (r: G1)
    ensures
        r == spec_g1_mul(*p, *k),
{
    G1 { inner: (p.inner * k.inner).into_affine() }
}

/// Relies on curve point negation in `ark_ec`.
#[verifier::external_body]
pub fn g1_neg(p: &G1) -> (r: G1)
    ensures
        r == spec_g1_neg(*p),
{
    G1 { inner: -p.inner }
}

/// Relies on `VariableBaseMSM::msm_unchecked` in `ark_ec`: the multi-scalar
/// product over equally long slices is a function of bases and scalars alone.
#[verifier::external_body]
pub fn g1_msm(bases: &Vec<G1>, scalars: &Vec<Fr>) -> (r: G1)
    requires
        bases@.len() == scalars@.len(),
    ensures
        r == spec_g1_msm(bases@, scalars@),
{
    let b: Vec<ark_bls12_381::G1Affine> = bases.iter().map(|p| p.inner).collect();
    let s: Vec<ark_bls12_381::Fr> = scalars.iter().map(|k| k.inner).collect();
    G1 { inner: ark_bls12_381::G1Projective::msm_unchecked(&b, &s).into_affine() }
}

/// Relies on `PartialEq` for affine curve points, which compares the
/// canonical coordinates, so it agrees with structural equality.
#[verifier::external_body]
pub fn g1_eq(a: &G1, b: &G1) -> (r: bool)
    ensures
        r == (*a == *b),
{
    a.inner == b.inner
}

/// Relies on `UniformRand::rand` for affine points of the first group.
/// Nothing is promised of the sampled point.
#[verifier::external_body]
pub fn g1_rand(rng: &mut Prng) -> G1 {
    G1 { inner: ark_bls12_381::G1Affine::rand(&mut rng.inner) }
}

/// Relies on curve point addition in `ark_ec`; the sum is returned in
/// affine form.
#[verifier::external_body]
pub fn g2_add(a: &G2, b: &G2) -> (r: G2)
    ensures
        r == spec_g2_add(*a, *b),
{
    G2 { inner: (a.inner + b.inner).into_affine() }
}

/// Relies on scalar multiplication of a curve point in `ark_ec`; the result
/// is returned in affine form.
#[verifier::external_body]
pub fn g2_mul(p: &G2, k: &Fr) -> (r: G2)
    ensures
        r == spec_g2_mul(*p, *k),
{
    G2 { inner: (p.inner * k.inner).into_affine() }
}

/// Relies on `VariableBaseMSM::msm_unchecked` in `ark_ec` for the second
/// group.
#[verifier::external_body]
pub fn g2_msm(bases: &Vec<G2>, scalars: &Vec<Fr>) -> (r: G2)
    requires
        bases@.len() == scalars@.len(),
    ensures
        r == spec_g2_msm(bases@, scalars@),
{
    let b: Vec<ark_bls12_381::G2Affine> = bases.iter().map(|p| p.inner).collect();
    let s: Vec<ark_bls12_381::Fr> = scalars.iter().map(|k| k.inner).collect();
    G2 { inner: ark_bls12_381::G2Projective::msm_unchecked(&b, &s).into_affine() }
}

/// Relies on `PartialEq` for affine curve points of the second group.
#[verifier::external_body]
pub fn g2_eq(a: &G2, b: &G2) -> (r: bool)
    ensures
        r == (*a == *b),
{
    a.inner == b.inner
}

/// Relies on `UniformRand::rand` for affine points of the second group.
/// Nothing is promised of the sampled point.
#[verifier::external_body]
pub fn g2_rand(rng: &mut Prng) -> G2 {
    G2 { inner: ark_bls12_381::G2Affine::rand(&mut rng.inner) }
}

/// Relies on `Pairing::pairing` in `ark_ec`, which the library defines as
/// the multi-pairing of the two one-element lists.
#[verifier::external_body]
pub fn pairing(p: &G1, q: &G2) -> (r: Gt)
    ensures
        r == spec_multi_pairing(seq![*p], seq![*q]),
{
    Gt { inner: ark_bls12_381::Bls12_381::pairing(p.inner, q.inner) }
}

/// Relies on `Pairing::multi_pairing` in `ark_ec`: the product of the
/// pairings of equally long lists, with a single final exponentiation.
#[verifier::external_body]
pub fn multi_pairing(ps: &Vec<G1>, qs: &Vec<G2>) -> (r: Gt)
    requires
        ps@.len() == qs@.len(),
    ensures
        r == spec_multi_pairing(ps@, qs@),
{
    let a: Vec<ark_bls12_381::G1Affine> = ps.iter().map(|p| p.inner).collect();
    let b: Vec<ark_bls12_381::G2Affine> = qs.iter().map(|q| q.inner).collect();
    Gt { inner: ark_bls12_381::Bls12_381::multi_pairing(a, b) }
}

/// Relies on addition in the target group (in the library's additive
/// notation, the product of the two target-group elements).
#[verifier::external_body]
pub fn gt_add(a: &Gt, b: &Gt) -> (r: Gt)
    ensures
        r == spec_gt_add(*a, *b),
{
    Gt { inner: a.inner + b.inner }
}

/// Relies on `PartialEq` for the target group, which compares the underlying
/// field elements structurally.
#[verifier::external_body]
pub fn gt_eq(a: &Gt, b: &Gt) -> (r: bool)
    ensures
        r == (*a == *b),
{
    a.inner == b.inner
}

/// Relies on `Zero::is_zero` for the target group: in the library's additive
/// notation the zero of `Gt` is the identity, the unit of the pairing
/// product.
#[verifier::external_body]
pub fn gt_is_identity(a: &Gt) -> (r: bool)
    ensures
        r == spec_gt_is_identity(*a),
{
    a.inner.is_zero()
}

impl Prng {
    /// Relies on `SeedableRng::seed_from_u64`: a deterministic random source
    /// for the given seed. Nothing is promised of the values it yields.
    #[verifier::external_body]
    pub fn from_seed(seed: u64) -> Prng {
        Prng { inner: ark_std::rand::rngs::StdRng::seed_from_u64(seed) }
    }
}

} // verus!
