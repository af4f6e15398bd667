//! Constructors and trial policies of the Dirichlet-multinomial families.
use std::marker::PhantomData;

use vstd::prelude::*;

use crate::error::ModelError;
use gamlss_core::Log;
use crate::multivariate::count::{FixedTrialCount, PerObservationTrials, TrialPolicy};

verus! {

/// Dirichlet-multinomial family with one fixed positive number of trials per row.
///
/// The simplex mean `mu` and positive precision `phi` define Dirichlet
/// concentrations `alpha_k = mu_k * phi` over `K` categories.
#[derive(Debug, PartialEq, Eq)]
pub struct DirichletMultinomialFixedTrials<const K: usize, PrecisionLink = Log> {
    trials: u32,
    marker: PhantomData<PrecisionLink>,
}

impl<const K: usize, PrecisionLink> DirichletMultinomialFixedTrials<K, PrecisionLink> {
    /// The common number of trials.
    pub closed spec fn spec_trials(&self) -> u32 {
        self.trials
    }

    /// The trial count determines the family: two families with the same trial
    /// count are the same value, so `try_new(t)`, `new(t)` and copies of them
    /// agree.
    pub proof fn lemma_trials_determine_family(a: Self, b: Self)
        requires
            a.spec_trials() == b.spec_trials(),
        ensures
            a == b,
    {
    }

    /// The observation dimension: the number of categories `K`.
    pub fn observation_dimension(&self) -> (dimension: usize)
        ensures
            dimension == K,
    {
        K
    }

    /// Creates a fixed-trials family after validating its category count and
    /// trial count.
    ///
    /// # Errors
    ///
    /// Returns [`ModelError::InvalidParameter`] when `K < 2` or `trials == 0`;
    /// the category count is checked first.
    pub fn try_new(trials: u32) -> (r: Result<Self, ModelError>)
        ensures
            K < 2 ==> r == Err::<Self, ModelError>(
                ModelError::InvalidParameter {
                    parameter: "Dirichlet-multinomial category count",
                    expected: "at least two",
                },
            ),
            K >= 2 && trials == 0 ==> r == Err::<Self, ModelError>(
                ModelError::InvalidParameter {
                    parameter: "Dirichlet-multinomial trials",
                    expected: "positive",
                },
            ),
            K >= 2 && trials > 0 ==> (r matches Ok(family) && family.spec_trials() == trials),
    {
        if K < 2 {
            return Err(
                ModelError::InvalidParameter {
                    parameter: "Dirichlet-multinomial category count",
                    expected: "at least two",
                },
            );
        }
        if trials == 0 {
            return Err(
                ModelError::InvalidParameter {
                    parameter: "Dirichlet-multinomial trials",
                    expected: "positive",
                },
            );
        }
        Ok(Self { trials, marker: PhantomData })
    }

    /// Creates a fixed-trials family; `K` must be at least two and `trials` positive.
    pub fn new(trials: u32) -> (family: Self)
        requires
            K >= 2,
            trials > 0,
        ensures
            family.spec_trials() == trials,
    {
        Self { trials, marker: PhantomData }
    }

    /// Returns the common number of trials.
    pub fn trials(&self) -> (trials: u32)
        ensures
            trials == self.spec_trials(),
    {
        self.trials
    }

    /// The trial policy every count vector is checked against.
    pub fn trial_policy(&self) -> (policy: FixedTrialCount)
        ensures
            policy.spec_trials() == self.spec_trials(),
            policy.spec_expected_trials() == Some(self.spec_trials()),
    {
        FixedTrialCount::new(self.trials)
    }
}

impl<const K: usize, PrecisionLink> Clone for DirichletMultinomialFixedTrials<K, PrecisionLink> {
    fn clone(&self) -> (copy: Self)
        ensures
            copy == *self,
    {
        Self { trials: self.trials, marker: PhantomData }
    }
}

impl<const K: usize, PrecisionLink> Copy for DirichletMultinomialFixedTrials<K, PrecisionLink> {

}

/// Dirichlet-multinomial family whose trial count is inferred from each row.
///
/// Rows may have different totals, including zero.
#[derive(Debug, PartialEq, Eq)]
pub struct DirichletMultinomialVaryingTrials<const K: usize, PrecisionLink = Log> {
    marker: PhantomData<PrecisionLink>,
}

impl<const K: usize, PrecisionLink> DirichletMultinomialVaryingTrials<K, PrecisionLink> {
    /// The family value. The family is stateless, so it has no other value.
    pub closed spec fn spec_family() -> Self {
        Self { marker: PhantomData }
    }

    /// Every value of the family is [`Self::spec_family`].
    pub proof fn lemma_single_value(family: Self)
        ensures
            family == Self::spec_family(),
    {
    }

    /// The observation dimension: the number of categories `K`.
    pub fn observation_dimension(&self) -> (dimension: usize)
        ensures
            dimension == K,
    {
        K
    }

    /// Creates a varying-trials family after validating its category count.
    ///
    /// # Errors
    ///
    /// Returns [`ModelError::InvalidParameter`] when `K < 2`.
    pub fn try_new() -> (r: Result<Self, ModelError>)
        ensures
            K < 2 ==> r == Err::<Self, ModelError>(
                ModelError::InvalidParameter {
                    parameter: "Dirichlet-multinomial category count",
                    expected: "at least two",
                },
            ),
            K >= 2 ==> r == Ok::<Self, ModelError>(Self::spec_family()),
    {
        if K < 2 {
            return Err(
                ModelError::InvalidParameter {
                    parameter: "Dirichlet-multinomial category count",
                    expected: "at least two",
                },
            );
        }
        Ok(Self { marker: PhantomData })
    }

    /// Creates a varying-trials family; `K` must be at least two.
    pub fn new() -> (family: Self)
        requires
            K >= 2,
        ensures
            family == Self::spec_family(),
    {
        Self { marker: PhantomData }
    }

    /// The per-observation trial policy: every row supplies its own total.
    pub fn trial_policy(&self) -> (policy: PerObservationTrials)
        ensures
            policy == PerObservationTrials,
    {
        PerObservationTrials
    }
}

impl<const K: usize, PrecisionLink> Clone for DirichletMultinomialVaryingTrials<K, PrecisionLink> {
    fn clone(&self) -> (copy: Self)
        ensures
            copy == Self::spec_family(),
    {
        Self { marker: PhantomData }
    }
}

impl<const K: usize, PrecisionLink> Copy for DirichletMultinomialVaryingTrials<K, PrecisionLink> {

}

impl<const K: usize, PrecisionLink> Default for DirichletMultinomialVaryingTrials<K, PrecisionLink> {
    /// Creates the varying-trials family. For `K < 2` this still returns a
    /// value, which [`Self::try_new`] and model compilation reject.
    fn default() -> (family: Self)
        ensures
            family == Self::spec_family(),
    {
        Self { marker: PhantomData }
    }
}

} // verus!
