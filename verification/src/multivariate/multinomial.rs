//! Constructors and trial policies of the multinomial families.
use vstd::prelude::*;

use crate::multivariate::count::{PerObservationTrials, PreparedFixedTrials, TrialPolicy};
use crate::error::ModelError;

verus! {

/// Multinomial family with one fixed positive number of trials for every row.
///
/// Each observation is a `K`-component count vector whose entries must be
/// nonnegative integers summing to [`Self::trials`]. The `K - 1` free
/// predictors are baseline-softmax logits; the final category is the
/// structural baseline.
#[derive(Debug, Clone, Copy, PartialEq, Eq)]
pub struct MultinomialFixedTrials<const K: usize> {
    trials: PreparedFixedTrials,
}

impl<const K: usize> MultinomialFixedTrials<K> {
    /// The common number of trials.
    pub closed spec fn spec_trials(&self) -> u32 {
        self.trials.spec_trials()
    }

    /// The trial count determines the family: two families with the same trial
    /// count are the same value, so `try_new(t)`, `new(t)` and copies of them
    /// agree.
    pub proof fn lemma_trials_determine_family(a: Self, b: Self)
        requires
            a.spec_trials() == b.spec_trials(),
        ensures
            a == b,
    {
        PreparedFixedTrials::lemma_trials_determine_value(a.trials, b.trials);
    }

    /// Creates a fixed-trials multinomial family after validating its category
    /// count and number of trials.
    ///
    /// # Errors
    ///
    /// Returns [`ModelError::InvalidParameter`] when `K < 2` or `trials == 0`;
    /// the category count is checked first.
    pub fn try_new(trials: u32) -> (r: Result<Self, ModelError>)
        ensures
            K < 2 ==> r == Err::<Self, ModelError>(
                ModelError::InvalidParameter {
                    parameter: "multinomial category count",
                    expected: "at least two",
                },
            ),
            K >= 2 && trials == 0 ==> r == Err::<Self, ModelError>(
                ModelError::InvalidParameter {
                    parameter: "multinomial trials",
                    expected: "positive",
                },
            ),
            K >= 2 && trials > 0 ==> (r matches Ok(family) && family.spec_trials() == trials),
    {
        if K < 2 {
            return Err(
                ModelError::InvalidParameter {
                    parameter: "multinomial category count",
                    expected: "at least two",
                },
            );
        }
        if trials == 0 {
            return Err(
                ModelError::InvalidParameter { parameter: "multinomial trials", expected: "positive" },
            );
        }
        Ok(Self { trials: PreparedFixedTrials::new(trials) })
    }

    /// Creates a fixed-trials multinomial family; `K` must be at least two and
    /// `trials` positive.
    pub fn new(trials: u32) -> (family: Self)
        requires
            K >= 2,
            trials > 0,
        ensures
            family.spec_trials() == trials,
    {
        Self { trials: PreparedFixedTrials::new(trials) }
    }

    /// Returns the common number of trials.
    pub fn trials(&self) -> (trials: u32)
        ensures
            trials == self.spec_trials(),
    {
        self.trials.trials()
    }

    /// The observation dimension: the number of categories `K`.
    pub fn observation_dimension(&self) -> (dimension: usize)
        ensures
            dimension == K,
    {
        K
    }

    /// The prepared trial policy every count vector is checked against.
    pub fn trial_policy(&self) -> (policy: &PreparedFixedTrials)
        ensures
            policy.spec_trials() == self.spec_trials(),
            TrialPolicy::spec_expected_trials(policy) == Some(self.spec_trials()),
    {
        &self.trials
    }
}

/// Multinomial family whose number of trials is the sum of each observed
/// count vector.
///
/// Rows may have different totals, including zero.
#[derive(Debug, Clone, Copy, PartialEq, Eq)]
pub struct MultinomialVaryingTrials<const K: usize> {
    private: (),
}

impl<const K: usize> MultinomialVaryingTrials<K> {
    /// The family value. The family is stateless, so it has no other value.
    pub closed spec fn spec_family() -> Self {
        Self { private: () }
    }

    /// Every value of the family is [`Self::spec_family`].
    pub proof fn lemma_single_value(family: Self)
        ensures
            family == Self::spec_family(),
    {
    }

    /// Creates a varying-trials family after checking that at least two
    /// categories exist.
    ///
    /// # Errors
    ///
    /// Returns [`ModelError::InvalidParameter`] when `K < 2`.
    pub fn try_new() -> (r: Result<Self, ModelError>)
        ensures
            K < 2 ==> r == Err::<Self, ModelError>(
                ModelError::InvalidParameter {
                    parameter: "multinomial category count",
                    expected: "at least two",
                },
            ),
            K >= 2 ==> r == Ok::<Self, ModelError>(Self::spec_family()),
    {
        if K < 2 {
            return Err(
                ModelError::InvalidParameter {
                    parameter: "multinomial category count",
                    expected: "at least two",
                },
            );
        }
        Ok(Self { private: () })
    }

    /// Creates a varying-trials multinomial family; `K` must be at least two.
    pub fn new() -> (family: Self)
        requires
            K >= 2,
        ensures
            family == Self::spec_family(),
    {
        Self { private: () }
    }

    /// The observation dimension: the number of categories `K`.
    pub fn observation_dimension(&self) -> (dimension: usize)
        ensures
            dimension == K,
    {
        K
    }

    /// The per-observation trial policy: every row supplies its own total.
    pub fn trial_policy(self) -> (policy: PerObservationTrials)
        ensures
            policy == PerObservationTrials,
    {
        PerObservationTrials
    }
}

impl<const K: usize> Default for MultinomialVaryingTrials<K> {
    /// Creates the varying-trials family. For `K < 2` this still returns a
    /// value, which [`Self::try_new`] and model compilation reject.
    fn default() -> (family: Self)
        ensures
            family == Self::spec_family(),
    {
        Self { private: () }
    }
}

} // verus!
