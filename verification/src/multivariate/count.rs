//! Shared count-vector trial policies for multinomial-like families.
use vstd::prelude::*;

verus! {

/// Prepared invariants for count vectors with one trial count per model.
///
/// Two prepared values are equal exactly when their trial counts are equal.
#[derive(Debug, Clone, Copy, PartialEq, Eq)]
pub struct PreparedFixedTrials {
    trials: u32,
}

impl PreparedFixedTrials {
    /// The fixed number of trials.
    pub closed spec fn spec_trials(self) -> u32 {
        self.trials
    }

    /// Prepares a positive fixed trial count.
    pub fn new(trials: u32) -> (prepared: Self)
        requires
            trials > 0,
        ensures
            prepared.spec_trials() == trials,
    {
        Self { trials }
    }

    /// The fixed number of trials.
    pub fn trials(self) -> (trials: u32)
        ensures
            trials == self.spec_trials(),
    {
        self.trials
    }

    /// The trial count determines the prepared value: two prepared values with
    /// the same trial count are the same value.
    pub proof fn lemma_trials_determine_value(a: Self, b: Self)
        requires
            a.spec_trials() == b.spec_trials(),
        ensures
            a == b,
    {
    }
}

/// Count-total policy used by multinomial-like likelihood kernels: the trial
/// count that every observed count vector must sum to, if there is one.
pub trait TrialPolicy: Copy {
    /// The trial count that every count vector must sum to, or `None` when
    /// each observation carries its own total.
    spec fn spec_expected_trials(self) -> Option<u32>;

    /// Returns [`Self::spec_expected_trials`].
    fn expected_trials(self) -> (expected: Option<u32>)
        ensures
            expected == self.spec_expected_trials(),
    ;
}

impl<'a> TrialPolicy for &'a PreparedFixedTrials {
    open spec fn spec_expected_trials(self) -> Option<u32> {
        Some(self.spec_trials())
    }

    fn expected_trials(self) -> (expected: Option<u32>) {
        Some(self.trials)
    }
}

/// A fixed trial count without a prepared likelihood normalizer.
#[derive(Debug, Clone, Copy, PartialEq, Eq)]
pub struct FixedTrialCount(u32);

impl FixedTrialCount {
    /// The fixed number of trials.
    pub closed spec fn spec_trials(self) -> u32 {
        self.0
    }

    /// Wraps a fixed trial count.
    pub fn new(trials: u32) -> (count: Self)
        ensures
            count.spec_trials() == trials,
    {
        Self(trials)
    }

    /// The trial count determines the value: two values with the same trial
    /// count are the same value.
    pub proof fn lemma_trials_determine_value(a: Self, b: Self)
        requires
            a.spec_trials() == b.spec_trials(),
        ensures
            a == b,
    {
    }
}

impl TrialPolicy for FixedTrialCount {
    open spec fn spec_expected_trials(self) -> Option<u32> {
        Some(self.spec_trials())
    }

    fn expected_trials(self) -> (expected: Option<u32>) {
        Some(self.0)
    }
}

/// A trial count inferred independently from every observation.
#[derive(Debug, Clone, Copy, PartialEq, Eq)]
pub struct PerObservationTrials;

impl TrialPolicy for PerObservationTrials {
    open spec fn spec_expected_trials(self) -> Option<u32> {
        None
    }

    fn expected_trials(self) -> (expected: Option<u32>) {
        None
    }
}

/// A fixed-trials policy demands its trial count of every observation:
/// preparing any positive trial count `t`, or wrapping any count `t`, gives a
/// policy whose expected total is `Some(t)`; the per-observation policy
/// demands no fixed total.
pub proof fn lemma_policies_expect_their_trials(prepared: PreparedFixedTrials, count: FixedTrialCount)
    ensures
        TrialPolicy::spec_expected_trials(&prepared) == Some(prepared.spec_trials()),
        count.spec_expected_trials() == Some(count.spec_trials()),
        PerObservationTrials.spec_expected_trials() is None,
{
}

/// Two prepared policies, or two fixed counts, demand the same total exactly
/// when they are the same value: the expected total distinguishes the trial counts.
pub proof fn lemma_expected_trials_identify_policy(
    a: PreparedFixedTrials,
    b: PreparedFixedTrials,
    c: FixedTrialCount,
    d: FixedTrialCount,
)
    ensures
        TrialPolicy::spec_expected_trials(&a) == TrialPolicy::spec_expected_trials(&b) <==> a == b,
        c.spec_expected_trials() == d.spec_expected_trials() <==> c == d,
{
    if TrialPolicy::spec_expected_trials(&a) == TrialPolicy::spec_expected_trials(&b) {
        PreparedFixedTrials::lemma_trials_determine_value(a, b);
    }
    if c.spec_expected_trials() == d.spec_expected_trials() {
        FixedTrialCount::lemma_trials_determine_value(c, d);
    }
}

} // verus!
