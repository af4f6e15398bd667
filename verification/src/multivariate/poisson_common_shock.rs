//! Family value and constructors of `MvPoissonCommonShock`.
use std::marker::PhantomData;

use vstd::prelude::*;

use gamlss_core::Log;

use crate::error::ModelError;

verus! {

/// The family with its default links.
pub type MvPoissonCommonShockDefault<const D: usize> = MvPoissonCommonShock<D, Log, Log>;

/// Multivariate Poisson counts built from independent idiosyncratic Poisson
/// components plus one shared common shock added to every component.
///
/// The family value is stateless: its links are type parameters and its
/// compile-time dimension `D` must satisfy `D >= 2`.
#[derive(Debug, PartialEq, Eq)]
pub struct MvPoissonCommonShock<
    const D: usize,
    IdiosyncraticRateLink = Log,
    SharedRateLink = Log,
> {
    marker: PhantomData<(IdiosyncraticRateLink, SharedRateLink)>,
}

impl<const D: usize, IdiosyncraticRateLink, SharedRateLink> MvPoissonCommonShock<D, IdiosyncraticRateLink, SharedRateLink> {
    /// The family value. The family is stateless, so it has no other value.
    pub closed spec fn spec_family() -> Self {
        Self { marker: PhantomData }
    }

    /// Every value of the family is [`Self::spec_family`].
    pub proof fn lemma_single_value(family: Self)
        ensures
            family == Self::spec_family(),
    {
    }

    /// The observation dimension `D`.
    pub fn observation_dimension(&self) -> (dimension: usize)
        ensures
            dimension == D,
    {
        D
    }

    /// Creates a stateless family after validating the compile-time dimension.
    ///
    /// # Errors
    ///
    /// Returns [`ModelError::InvalidParameter`] when `D < 2`.
    pub fn try_new() -> (r: Result<Self, ModelError>)
        ensures
            D < 2 ==> r == Err::<Self, ModelError>(
                ModelError::InvalidParameter { parameter: "dimension", expected: "at least two response components" },
            ),
            D >= 2 ==> r == Ok::<Self, ModelError>(Self::spec_family()),
    {
        if D < 2 {
            return Err(ModelError::InvalidParameter { parameter: "dimension", expected: "at least two response components" });
        }
        Ok(Self { marker: PhantomData })
    }

    /// Creates a stateless family; the compile-time dimension must satisfy `D >= 2`.
    pub fn new() -> (family: Self)
        requires
            D >= 2,
        ensures
            family == Self::spec_family(),
    {
        Self { marker: PhantomData }
    }
}

impl<const D: usize, IdiosyncraticRateLink, SharedRateLink> Clone for MvPoissonCommonShock<D, IdiosyncraticRateLink, SharedRateLink> {
    fn clone(&self) -> (copy: Self)
        ensures
            copy == Self::spec_family(),
    {
        Self { marker: PhantomData }
    }
}

impl<const D: usize, IdiosyncraticRateLink, SharedRateLink> Copy for MvPoissonCommonShock<D, IdiosyncraticRateLink, SharedRateLink> {

}

impl<const D: usize, IdiosyncraticRateLink, SharedRateLink> Default for MvPoissonCommonShock<D, IdiosyncraticRateLink, SharedRateLink> {
    /// Creates the stateless family. When `D < 2` this still returns a
    /// value, which [`Self::try_new`] and model compilation reject.
    fn default() -> (family: Self)
        ensures
            family == Self::spec_family(),
    {
        Self { marker: PhantomData }
    }
}

} // verus!
