//! Family value and constructors of `MvNormalCholesky`.
use std::marker::PhantomData;

use vstd::prelude::*;

use gamlss_core::{Identity, Log};

use crate::error::ModelError;

verus! {

/// Fixed-dimensional multivariate normal parameterized by mean and Cholesky scale.
///
/// Diagonal Cholesky entries are transformed with `DiagonalLink` and
/// off-diagonal lower entries with `OffDiagonalLink`.
///
/// The family value is stateless: its links are type parameters and its
/// compile-time dimension `D` must satisfy `D > 0`.
#[derive(Debug, PartialEq, Eq)]
pub struct MvNormalCholesky<
    const D: usize,
    MuLink = Identity,
    DiagonalLink = Log,
    OffDiagonalLink = Identity,
> {
    marker: PhantomData<(MuLink, DiagonalLink, OffDiagonalLink)>,
}

impl<const D: usize, MuLink, DiagonalLink, OffDiagonalLink> MvNormalCholesky<D, MuLink, DiagonalLink, OffDiagonalLink> {
    /// The family value. The family is stateless, so it has no other value.
    pub closed spec fn spec_family() -> Self {
        Self { marker: PhantomData }
    }

    /// Every value of the family is [`Self::spec_family`].
    pub proof fn lemma_single_value(family: Self)
        ensures
            family == Self::spec_family(),
    {
    }

    /// The observation dimension `D`.
    pub fn observation_dimension(&self) -> (dimension: usize)
        ensures
            dimension == D,
    {
        D
    }

    /// Creates a stateless family; the compile-time dimension must satisfy `D > 0`.
    pub fn new() -> (family: Self)
        requires
            D > 0,
        ensures
            family == Self::spec_family(),
    {
        Self { marker: PhantomData }
    }
}

impl<const D: usize, MuLink, DiagonalLink, OffDiagonalLink> Clone for MvNormalCholesky<D, MuLink, DiagonalLink, OffDiagonalLink> {
    fn clone(&self) -> (copy: Self)
        ensures
            copy == Self::spec_family(),
    {
        Self { marker: PhantomData }
    }
}

impl<const D: usize, MuLink, DiagonalLink, OffDiagonalLink> Copy for MvNormalCholesky<D, MuLink, DiagonalLink, OffDiagonalLink> {

}

impl<const D: usize, MuLink, DiagonalLink, OffDiagonalLink> Default for MvNormalCholesky<D, MuLink, DiagonalLink, OffDiagonalLink> {
    /// Creates the stateless family. When `D == 0` this still returns a
    /// value, which likelihood evaluation of that shape rejects.
    fn default() -> (family: Self)
        ensures
            family == Self::spec_family(),
    {
        Self { marker: PhantomData }
    }
}

} // verus!
