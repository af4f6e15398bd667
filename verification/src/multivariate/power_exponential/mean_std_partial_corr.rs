//! Family value and constructors of `MvPowerExponentialMeanStdPartialCorr`.
use std::marker::PhantomData;

use vstd::prelude::*;

use gamlss_core::{Identity, Log};

use crate::error::ModelError;

verus! {

/// The family with its default links.
pub type MvPowerExponentialMeanStdPartialCorrDefault<const D: usize> = MvPowerExponentialMeanStdPartialCorr<D, Identity, Log, Log>;

/// Multivariate power-exponential distribution parameterized by mean, marginal
/// standard deviation, ordered partial correlations and a positive power.
///
/// The family value is stateless: its links are type parameters and its
/// compile-time dimension `D` must satisfy `D > 0`.
#[derive(Debug, PartialEq, Eq)]
pub struct MvPowerExponentialMeanStdPartialCorr<
    const D: usize,
    MuLink = Identity,
    SigmaLink = Log,
    PowerLink = Log,
> {
    marker: PhantomData<(MuLink, SigmaLink, PowerLink)>,
}

impl<const D: usize, MuLink, SigmaLink, PowerLink> MvPowerExponentialMeanStdPartialCorr<D, MuLink, SigmaLink, PowerLink> {
    /// The family value. The family is stateless, so it has no other value.
    pub closed spec fn spec_family() -> Self {
        Self { marker: PhantomData }
    }

    /// Every value of the family is [`Self::spec_family`].
    pub proof fn lemma_single_value(family: Self)
        ensures
            family == Self::spec_family(),
    {
    }

    /// The observation dimension `D`.
    pub fn observation_dimension(&self) -> (dimension: usize)
        ensures
            dimension == D,
    {
        D
    }

    /// Creates a stateless family after validating the compile-time dimension.
    ///
    /// # Errors
    ///
    /// Returns [`ModelError::InvalidParameter`] when `D == 0`.
    pub fn try_new() -> (r: Result<Self, ModelError>)
        ensures
            D == 0 ==> r == Err::<Self, ModelError>(
                ModelError::InvalidParameter { parameter: "dimension", expected: "positive" },
            ),
            D > 0 ==> r == Ok::<Self, ModelError>(Self::spec_family()),
    {
        if D == 0 {
            return Err(ModelError::InvalidParameter { parameter: "dimension", expected: "positive" });
        }
        Ok(Self { marker: PhantomData })
    }

    /// Creates a stateless family; the compile-time dimension must satisfy `D > 0`.
    pub fn new() -> (family: Self)
        requires
            D > 0,
        ensures
            family == Self::spec_family(),
    {
        Self { marker: PhantomData }
    }
}

impl<const D: usize, MuLink, SigmaLink, PowerLink> Clone for MvPowerExponentialMeanStdPartialCorr<D, MuLink, SigmaLink, PowerLink> {
    fn clone(&self) -> (copy: Self)
        ensures
            copy == Self::spec_family(),
    {
        Self { marker: PhantomData }
    }
}

impl<const D: usize, MuLink, SigmaLink, PowerLink> Copy for MvPowerExponentialMeanStdPartialCorr<D, MuLink, SigmaLink, PowerLink> {

}

impl<const D: usize, MuLink, SigmaLink, PowerLink> Default for MvPowerExponentialMeanStdPartialCorr<D, MuLink, SigmaLink, PowerLink> {
    /// Creates the stateless family. When `D == 0` this still returns a
    /// value, which [`Self::try_new`] and model compilation reject.
    fn default() -> (family: Self)
        ensures
            family == Self::spec_family(),
    {
        Self { marker: PhantomData }
    }
}

} // verus!
