//! Family value and constructors of `LogisticNormalAlrCholesky`.
use std::marker::PhantomData;

use vstd::prelude::*;

use gamlss_core::{Identity, Log};

use crate::error::ModelError;

verus! {

/// The family with its default links.
pub type LogisticNormalAlrCholeskyDefault<const K: usize> = LogisticNormalAlrCholesky<K, Identity, Log, Identity>;

/// Logistic-normal distribution on the open simplex with an additive-log-ratio
/// normal in `K - 1` dimensions, parameterized by its location and Cholesky factor.
///
/// The family value is stateless: its links are type parameters and its
/// compile-time dimension `K` must satisfy `K >= 2`.
#[derive(Debug, PartialEq, Eq)]
pub struct LogisticNormalAlrCholesky<
    const K: usize,
    LocationLink = Identity,
    DiagonalLink = Log,
    OffDiagonalLink = Identity,
> {
    marker: PhantomData<(LocationLink, DiagonalLink, OffDiagonalLink)>,
}

impl<const K: usize, LocationLink, DiagonalLink, OffDiagonalLink> LogisticNormalAlrCholesky<K, LocationLink, DiagonalLink, OffDiagonalLink> {
    /// The family value. The family is stateless, so it has no other value.
    pub closed spec fn spec_family() -> Self {
        Self { marker: PhantomData }
    }

    /// Every value of the family is [`Self::spec_family`].
    pub proof fn lemma_single_value(family: Self)
        ensures
            family == Self::spec_family(),
    {
    }

    /// The observation dimension `K`.
    pub fn observation_dimension(&self) -> (dimension: usize)
        ensures
            dimension == K,
    {
        K
    }

    /// Creates a stateless family after validating the compile-time dimension.
    ///
    /// # Errors
    ///
    /// Returns [`ModelError::InvalidParameter`] when `K < 2`.
    pub fn try_new() -> (r: Result<Self, ModelError>)
        ensures
            K < 2 ==> r == Err::<Self, ModelError>(
                ModelError::InvalidParameter { parameter: "logistic-normal component count", expected: "at least two" },
            ),
            K >= 2 ==> r == Ok::<Self, ModelError>(Self::spec_family()),
    {
        if K < 2 {
            return Err(ModelError::InvalidParameter { parameter: "logistic-normal component count", expected: "at least two" });
        }
        Ok(Self { marker: PhantomData })
    }

    /// Creates a stateless family; the compile-time dimension must satisfy `K >= 2`.
    pub fn new() -> (family: Self)
        requires
            K >= 2,
        ensures
            family == Self::spec_family(),
    {
        Self { marker: PhantomData }
    }
}

impl<const K: usize, LocationLink, DiagonalLink, OffDiagonalLink> Clone for LogisticNormalAlrCholesky<K, LocationLink, DiagonalLink, OffDiagonalLink> {
    fn clone(&self) -> (copy: Self)
        ensures
            copy == Self::spec_family(),
    {
        Self { marker: PhantomData }
    }
}

impl<const K: usize, LocationLink, DiagonalLink, OffDiagonalLink> Copy for LogisticNormalAlrCholesky<K, LocationLink, DiagonalLink, OffDiagonalLink> {

}

impl<const K: usize, LocationLink, DiagonalLink, OffDiagonalLink> Default for LogisticNormalAlrCholesky<K, LocationLink, DiagonalLink, OffDiagonalLink> {
    /// Creates the stateless family. When `K < 2` this still returns a
    /// value, which [`Self::try_new`] and model compilation reject.
    fn default() -> (family: Self)
        ensures
            family == Self::spec_family(),
    {
        Self { marker: PhantomData }
    }
}

} // verus!
