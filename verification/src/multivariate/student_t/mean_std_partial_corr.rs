//! Family value and constructors of `MvStudentTMeanStdPartialCorr`.
use std::marker::PhantomData;

use vstd::prelude::*;

use crate::error::ModelError;

verus! {

/// Multivariate Student-t parameterized by mean, marginal standard deviation,
/// partial correlation and degrees of freedom.
///
/// The family value is stateless: its links are type parameters and its
/// compile-time dimension `D` must satisfy `D > 0`.
#[derive(Debug, PartialEq, Eq)]
pub struct MvStudentTMeanStdPartialCorr<const D: usize, MuLink, SigmaLink, TauLink> {
    marker: PhantomData<(MuLink, SigmaLink, TauLink)>,
}

impl<const D: usize, MuLink, SigmaLink, TauLink> MvStudentTMeanStdPartialCorr<D, MuLink, SigmaLink, TauLink> {
    /// The family value. The family is stateless, so it has no other value.
    pub closed spec fn spec_family() -> Self {
        Self { marker: PhantomData }
    }

    /// Every value of the family is [`Self::spec_family`].
    pub proof fn lemma_single_value(family: Self)
        ensures
            family == Self::spec_family(),
    {
    }

    /// The observation dimension `D`.
    pub fn observation_dimension(&self) -> (dimension: usize)
        ensures
            dimension == D,
    {
        D
    }

    /// Creates a stateless family after validating the compile-time dimension.
    ///
    /// # Errors
    ///
    /// Returns [`ModelError::InvalidParameter`] when `D == 0`.
    pub fn try_new() -> (r: Result<Self, ModelError>)
        ensures
            D == 0 ==> r == Err::<Self, ModelError>(
                ModelError::InvalidParameter { parameter: "dimension", expected: "positive" },
            ),
            D > 0 ==> r == Ok::<Self, ModelError>(Self::spec_family()),
    {
        if D == 0 {
            return Err(ModelError::InvalidParameter { parameter: "dimension", expected: "positive" });
        }
        Ok(Self { marker: PhantomData })
    }

    /// Creates a stateless family; the compile-time dimension must satisfy `D > 0`.
    pub fn new() -> (family: Self)
        requires
            D > 0,
        ensures
            family == Self::spec_family(),
    {
        Self { marker: PhantomData }
    }
}

impl<const D: usize, MuLink, SigmaLink, TauLink> Clone for MvStudentTMeanStdPartialCorr<D, MuLink, SigmaLink, TauLink> {
    fn clone(&self) -> (copy: Self)
        ensures
            copy == Self::spec_family(),
    {
        Self { marker: PhantomData }
    }
}

impl<const D: usize, MuLink, SigmaLink, TauLink> Copy for MvStudentTMeanStdPartialCorr<D, MuLink, SigmaLink, TauLink> {

}

impl<const D: usize, MuLink, SigmaLink, TauLink> Default for MvStudentTMeanStdPartialCorr<D, MuLink, SigmaLink, TauLink> {
    /// Creates the stateless family. When `D == 0` this still returns a
    /// value, which [`Self::try_new`] and model compilation reject.
    fn default() -> (family: Self)
        ensures
            family == Self::spec_family(),
    {
        Self { marker: PhantomData }
    }
}

} // verus!
