//! An accumulator of pairing equations.
//!
//! A `PairingCheck` collects pairs `(A_k, B_k)` and an optional target; its
//! `verify` decides whether the product of the pairings of all pairs equals
//! the target, in one multi-pairing with a single final exponentiation. A
//! missing target stands for the identity of the target group.

use vstd::prelude::*;

use crate::groups::{gt_eq, gt_is_identity, multi_pairing, spec_gt_add, spec_gt_is_identity,
    spec_multi_pairing};
use crate::groups::{Gt, G1, G2};
use crate::util::copy_vec;

verus! {

/// The combined target of two accumulators: absent targets stand for the
/// identity, and two present targets multiply.
pub open spec fn spec_merge_targets(a: Option<Gt>, b: Option<Gt>) -> Option<Gt> {
    match (a, b) {
        (Option::None, Option::None) => Option::None,
        (Option::Some(t), Option::None) => Option::Some(t),
        (Option::None, Option::Some(t)) => Option::Some(t),
        (Option::Some(t1), Option::Some(t2)) => Option::Some(spec_gt_add(t1, t2)),
    }
}

/// An accumulated multi-pairing equation.
pub struct PairingCheck {
    pub left: Vec<G1>,
    pub right: Vec<G2>,
    pub target: Option<Gt>,
}

impl PairingCheck {
    /// The two point lists pair up.
    pub open spec fn wf(&self) -> bool {
        self.left@.len() == self.right@.len()
    }

    /// The accumulated equation: the product of the pairings of all pairs
    /// equals the target, the identity where no target was given.
    pub open spec fn spec_holds(&self) -> bool {
        match self.target {
            Option::None => spec_gt_is_identity(spec_multi_pairing(self.left@, self.right@)),
            Option::Some(t) => spec_multi_pairing(self.left@, self.right@) == t,
        }
    }

    /// An empty accumulator: no pairs, target the identity.
    pub fn new() -> (c: PairingCheck)
        ensures
            c.left@ == Seq::<G1>::empty(),
            c.right@ == Seq::<G2>::empty(),
            c.target is None,
            c.wf(),
    {
        PairingCheck { left: Vec::new(), right: Vec::new(), target: Option::None }
    }

    /// Concatenates the pair lists and multiplies the targets.
    pub fn merge(&mut self, other: &PairingCheck)
        ensures
            final (self).left@ == old(self).left@ + other.left@,
            final (self).right@ == old(self).right@ + other.right@,
            final (self).target == spec_merge_targets(old(self).target, other.target),
    {
        let mut i: usize = 0;
        while i < other.left.len()
            invariant
                i <= other.left@.len(),
                self.left@ == old(self).left@ + other.left@.subrange(0, i as int),
                self.right == old(self).right,
                self.target == old(self).target,
            decreases other.left@.len() - i,
        {
            let ghost prefix = self.left@;
            self.left.push(other.left[i]);
            proof {
                assert(old(self).left@ + other.left@.subrange(0, i + 1 as int) =~= prefix.push(
                    other.left@[i as int],
                ));
            }
            i = i + 1;
        }
        let mut j: usize = 0;
        while j < other.right.len()
            invariant
                j <= other.right@.len(),
                self.left@ == old(self).left@ + other.left@.subrange(0, other.left@.len() as int),
                self.right@ == old(self).right@ + other.right@.subrange(0, j as int),
                self.target == old(self).target,
            decreases other.right@.len() - j,
        {
            let ghost prefix = self.right@;
            self.right.push(other.right[j]);
            proof {
                assert(old(self).right@ + other.right@.subrange(0, j + 1 as int) =~= prefix.push(
                    other.right@[j as int],
                ));
            }
            j = j + 1;
        }
        proof {
            assert(other.left@.subrange(0, other.left@.len() as int) =~= other.left@);
            assert(other.right@.subrange(0, other.right@.len() as int) =~= other.right@);
        }
        match (&self.target, &other.target) {
            (Option::None, Option::None) => {},
            (Option::None, Option::Some(t)) => {
                self.target = Option::Some(*t);
            },
            (Option::Some(_), Option::None) => {},
            (Option::Some(t1), Option::Some(t2)) => {
                self.target = Option::Some(crate::groups::gt_add(t1, t2));
            },
        }
    }

    /// Decides the accumulated equation.
    pub fn verify(&self) -> (r: bool)
        requires
            self.wf(),
        ensures
            r == self.spec_holds(),
    {
        let mp = multi_pairing(&self.left, &self.right);
        match &self.target {
            Option::None => gt_is_identity(&mp),
            Option::Some(t) => gt_eq(&mp, t),
        }
    }
}

/// Builds an accumulator holding the given pairs and target.
pub fn create_check(left: &Vec<G1>, right: &Vec<G2>, target: Option<Gt>) -> (c: PairingCheck)
    requires
        left@.len() == right@.len(),
    ensures
        c.left@ == left@,
        c.right@ == right@,
        c.target == target,
        c.wf(),
{
    PairingCheck { left: copy_vec(left), right: copy_vec(right), target }
}

} // verus!
