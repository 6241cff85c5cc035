//! Superposition of undeformed gap descriptions.
//!
//! The undeformed gap is the only geometry the solver needs. Separations of
//! the same interface add, so a roughness is layered onto a smooth base shape
//! by superposing the two; the solver is invariant to a constant offset in the
//! gap, so neither operand needs to be normalised on its own.

use vstd::prelude::*;

verus! {

/// The superposition of two gaps, sampled as their pointwise sum.
///
/// `base` is the shape the roughness (or any other contribution) `added` is
/// layered onto; the two may be any mix of analytic profiles and sampled
/// height fields.
#[derive(Debug, Clone, Copy, PartialEq, Eq)]
pub struct Sum<A, B> {
    base: A,
    added: B,
}

impl<A, B> Sum<A, B> {
    /// The gap that the other contribution is layered onto.
    pub closed spec fn base_part(&self) -> A {
        self.base
    }

    /// The contribution layered on top of the base.
    pub closed spec fn added_part(&self) -> B {
        self.added
    }

    /// Superposes `added` on top of `base`.
    pub fn new(base: A, added: B) -> (sum: Self)
        ensures
            sum.base_part() == base,
            sum.added_part() == added,
    {
        Sum { base, added }
    }

    /// The base gap.
    pub fn base(&self) -> (base: &A)
        ensures
            *base == self.base_part(),
    {
        &self.base
    }

    /// The gap layered on top of the base.
    pub fn added(&self) -> (added: &B)
        ensures
            *added == self.added_part(),
    {
        &self.added
    }
}

} // verus!
