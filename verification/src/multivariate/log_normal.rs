//! Family value and constructors of `MvLogNormalCholesky`.
use std::marker::PhantomData;

use vstd::prelude::*;

use gamlss_core::{Identity, Log};

use crate::error::ModelError;

verus! {

/// The family with its default links.
pub type MvLogNormalCholeskyDefault<const D: usize> = MvLogNormalCholesky<D, Identity, Log, Identity>;

/// Multivariate log-normal distribution whose logarithm is a multivariate normal
/// parameterized by its location and Cholesky scale factor.
///
/// The family value is stateless: its links are type parameters and its
/// compile-time dimension `D` must satisfy `D > 0`.
#[derive(Debug, PartialEq, Eq)]
pub struct MvLogNormalCholesky<
    const D: usize,
    LogLocationLink = Identity,
    DiagonalLink = Log,
    OffDiagonalLink = Identity,
> {
    marker: PhantomData<(LogLocationLink, DiagonalLink, OffDiagonalLink)>,
}

impl<const D: usize, LogLocationLink, DiagonalLink, OffDiagonalLink> MvLogNormalCholesky<D, LogLocationLink, DiagonalLink, OffDiagonalLink> {
    /// The family value. The family is stateless, so it has no other value.
    pub closed spec fn spec_family() -> Self {
        Self { marker: PhantomData }
    }

    /// Every value of the family is [`Self::spec_family`].
    pub proof fn lemma_single_value(family: Self)
        ensures
            family == Self::spec_family(),
    {
    }

    /// The observation dimension `D`.
    pub fn observation_dimension(&self) -> (dimension: usize)
        ensures
            dimension == D,
    {
        D
    }

    /// Creates a stateless family after validating the compile-time dimension.
    ///
    /// # Errors
    ///
    /// Returns [`ModelError::InvalidParameter`] when `D == 0`.
    pub fn try_new() -> (r: Result<Self, ModelError>)
        ensures
            D == 0 ==> r == Err::<Self, ModelError>(
                ModelError::InvalidParameter { parameter: "dimension", expected: "positive" },
            ),
            D > 0 ==> r == Ok::<Self, ModelError>(Self::spec_family()),
    {
        if D == 0 {
            return Err(ModelError::InvalidParameter { parameter: "dimension", expected: "positive" });
        }
        Ok(Self { marker: PhantomData })
    }

    /// Creates a stateless family; the compile-time dimension must satisfy `D > 0`.
    pub fn new() -> (family: Self)
        requires
            D > 0,
        ensures
            family == Self::spec_family(),
    {
        Self { marker: PhantomData }
    }
}

impl<const D: usize, LogLocationLink, DiagonalLink, OffDiagonalLink> Clone for MvLogNormalCholesky<D, LogLocationLink, DiagonalLink, OffDiagonalLink> {
    fn clone(&self) -> (copy: Self)
        ensures
            copy == Self::spec_family(),
    {
        Self { marker: PhantomData }
    }
}

impl<const D: usize, LogLocationLink, DiagonalLink, OffDiagonalLink> Copy for MvLogNormalCholesky<D, LogLocationLink, DiagonalLink, OffDiagonalLink> {

}

impl<const D: usize, LogLocationLink, DiagonalLink, OffDiagonalLink> Default for MvLogNormalCholesky<D, LogLocationLink, DiagonalLink, OffDiagonalLink> {
    /// Creates the stateless family. When `D == 0` this still returns a
    /// value, which [`Self::try_new`] and model compilation reject.
    fn default() -> (family: Self)
        ensures
            family == Self::spec_family(),
    {
        Self { marker: PhantomData }
    }
}

} // verus!
