//! Probe schedule of the finite-difference fallback for eta gradients.
//!
//! The fallback is used for families whose likelihoods are only defined
//! numerically. For every predictor component it tries central differences
//! with progressively smaller steps first, then falls back to one-sided
//! differences when nearby probes still cross a distribution boundary. The
//! negative log-likelihood at the unperturbed predictors (the base value) is
//! evaluated lazily, at most once for the whole gradient, and only when some
//! component needs a one-sided difference.
//!
//! This module decides which likelihood evaluations are made and which
//! difference quotient becomes each gradient component. The caller performs
//! the evaluations and the arithmetic: the step of attempt `a` is the initial
//! step halved `a` times, and it reports back whether each evaluated value is
//! finite.
use vstd::prelude::*;

verus! {

/// Number of retries with a halved step after the first central-difference
/// attempt, so each component evaluates at most `CENTRAL_DIFFERENCE_RETRIES + 1`
/// probe pairs.
pub const CENTRAL_DIFFERENCE_RETRIES: usize = 4;

/// How one gradient component is computed from the evaluated probes. `attempt`
/// names the probe pair (and so the step) that the quotient uses.
#[derive(Debug, Clone, Copy, PartialEq, Eq)]
pub enum DifferenceRule {
    /// `(plus - minus) / (2 * step)`.
    Central { attempt: usize },
    /// `(plus - base) / step`.
    Forward { attempt: usize },
    /// `(base - minus) / step`.
    Backward { attempt: usize },
    /// No finite quotient exists: the component is `NaN`.
    Undefined,
}

/// The next thing the caller must do.
#[derive(Debug, Clone, Copy, PartialEq, Eq)]
pub enum PlanAction {
    /// Evaluate the likelihood with component `index` moved up and down by the
    /// step of attempt `attempt`, then call [`FiniteDifferencePlan::record_pair`].
    Probe { index: usize, attempt: usize },
    /// Evaluate the likelihood at the unperturbed predictors, then call
    /// [`FiniteDifferencePlan::record_base`].
    EvaluateBase,
    /// Compute component `index` with `rule`, then call
    /// [`FiniteDifferencePlan::complete_component`].
    Component { index: usize, rule: DifferenceRule },
    /// Every component has been computed.
    Finished,
}

/// Whether both probes of a pair were finite.
pub open spec fn both_finite(pair: (bool, bool)) -> bool {
    pair.0 && pair.1
}

/// Whether at least one probe of a pair was finite.
pub open spec fn either_finite(pair: (bool, bool)) -> bool {
    pair.0 || pair.1
}

/// The latest attempt in `pairs` with at least one finite probe.
pub open spec fn latest_one_sided(pairs: Seq<(bool, bool)>) -> Option<int>
    decreases pairs.len(),
{
    if pairs.len() == 0 {
        None
    } else if either_finite(pairs.last()) {
        Some(pairs.len() - 1)
    } else {
        latest_one_sided(pairs.drop_last())
    }
}

/// The latest one-sided attempt is an attempt of `pairs` with a finite probe.
pub proof fn lemma_latest_one_sided_in_range(pairs: Seq<(bool, bool)>)
    ensures
        latest_one_sided(pairs) matches Some(a) ==> 0 <= a < pairs.len() && either_finite(pairs[a]),
    decreases pairs.len(),
{
    if pairs.len() > 0 && !either_finite(pairs.last()) {
        lemma_latest_one_sided_in_range(pairs.drop_last());
    }
}

/// The one-sided rule chosen after every central attempt failed, given
/// whether the base value is finite.
pub open spec fn fallback_rule(pairs: Seq<(bool, bool)>, base_finite: bool) -> DifferenceRule {
    match latest_one_sided(pairs) {
        Some(a) => if pairs[a].0 && base_finite {
            DifferenceRule::Forward { attempt: a as usize }
        } else if pairs[a].1 && base_finite {
            DifferenceRule::Backward { attempt: a as usize }
        } else {
            DifferenceRule::Undefined
        },
        None => DifferenceRule::Undefined,
    }
}

/// The probe results of one component form a finished central search: no
/// pair before the last had both probes finite, and the search stopped
/// either at the first pair with both probes finite or after the last retry.
pub open spec fn probing_history(pairs: Seq<(bool, bool)>) -> bool {
    &&& pairs.len() <= CENTRAL_DIFFERENCE_RETRIES + 1
    &&& forall|i: int| 0 <= i < pairs.len() - 1 ==> !both_finite(#[trigger] pairs[i])
}

/// Whether the central search over `pairs` succeeded (at its last pair).
pub open spec fn central_found(pairs: Seq<(bool, bool)>) -> bool {
    pairs.len() > 0 && both_finite(pairs.last())
}

/// Whether the central search over `pairs` is exhausted without success.
pub open spec fn central_exhausted(pairs: Seq<(bool, bool)>) -> bool {
    pairs.len() == CENTRAL_DIFFERENCE_RETRIES + 1 && !both_finite(pairs.last())
}

/// Plan of likelihood evaluations for a finite-difference gradient with
/// `components` predictor components.
pub struct FiniteDifferencePlan {
    components: usize,
    index: usize,
    attempt: usize,
    central: bool,
    candidate: Option<(usize, bool, bool)>,
    base: Option<bool>,
    pairs: Ghost<Seq<(bool, bool)>>,
}

impl FiniteDifferencePlan {
    #[verifier::type_invariant]
    spec fn consistent(self) -> bool {
        &&& probing_history(self.pairs@)
        &&& self.attempt == self.pairs@.len()
        &&& self.central == central_found(self.pairs@)
        &&& self.candidate == (match latest_one_sided(self.pairs@) {
            Some(a) => Some((a as usize, self.pairs@[a].0, self.pairs@[a].1)),
            None => None,
        })
    }

    /// Number of predictor components.
    pub closed spec fn spec_components(self) -> nat {
        self.components as nat
    }

    /// The component being computed.
    pub closed spec fn spec_index(self) -> nat {
        self.index as nat
    }

    /// Probe results of the current component, oldest first.
    pub closed spec fn spec_pairs(self) -> Seq<(bool, bool)> {
        self.pairs@
    }

    /// Whether the base value has been evaluated, and if so whether it is finite.
    pub closed spec fn spec_base(self) -> Option<bool> {
        self.base
    }

    /// The action that the plan asks for in its current state.
    pub open spec fn spec_action(self) -> PlanAction {
        let pairs = self.spec_pairs();
        if self.spec_index() >= self.spec_components() {
            PlanAction::Finished
        } else if central_found(pairs) {
            PlanAction::Component {
                index: self.spec_index() as usize,
                rule: DifferenceRule::Central { attempt: (pairs.len() - 1) as usize },
            }
        } else if pairs.len() <= CENTRAL_DIFFERENCE_RETRIES {
            PlanAction::Probe { index: self.spec_index() as usize, attempt: pairs.len() as usize }
        } else if latest_one_sided(pairs) is None {
            PlanAction::Component { index: self.spec_index() as usize, rule: DifferenceRule::Undefined }
        } else {
            match self.spec_base() {
                None => PlanAction::EvaluateBase,
                Some(base_finite) => PlanAction::Component {
                    index: self.spec_index() as usize,
                    rule: fallback_rule(pairs, base_finite),
                },
            }
        }
    }

    /// A plan for `components` predictor components, starting at component 0
    /// with no base value evaluated.
    pub fn new(components: usize) -> (plan: Self)
        ensures
            plan.spec_components() == components,
            plan.spec_index() == 0,
            plan.spec_pairs() == Seq::<(bool, bool)>::empty(),
            plan.spec_base() is None,
    {
        Self {
            components,
            index: 0,
            attempt: 0,
            central: false,
            candidate: None,
            base: None,
            pairs: Ghost(Seq::empty()),
        }
    }

    /// The action that the plan asks for next.
    pub fn action(&self) -> (action: PlanAction)
        ensures
            action == self.spec_action(),
            probing_history(self.spec_pairs()),
    {
        proof {
            use_type_invariant(self);
        }
        if self.index >= self.components {
            PlanAction::Finished
        } else if self.central {
            PlanAction::Component {
                index: self.index,
                rule: DifferenceRule::Central { attempt: self.attempt - 1 },
            }
        } else if self.attempt <= CENTRAL_DIFFERENCE_RETRIES {
            PlanAction::Probe { index: self.index, attempt: self.attempt }
        } else {
            match self.candidate {
                None => PlanAction::Component { index: self.index, rule: DifferenceRule::Undefined },
                Some((attempt, plus_finite, minus_finite)) => match self.base {
                    None => PlanAction::EvaluateBase,
                    Some(base_finite) => {
                        let rule = if plus_finite && base_finite {
                            DifferenceRule::Forward { attempt }
                        } else if minus_finite && base_finite {
                            DifferenceRule::Backward { attempt }
                        } else {
                            DifferenceRule::Undefined
                        };
                        PlanAction::Component { index: self.index, rule }
                    },
                },
            }
        }
    }

    /// Records whether the upper and lower probe of the requested pair were finite.
    pub fn record_pair(&mut self, plus_finite: bool, minus_finite: bool)
        requires
            old(self).spec_action() is Probe,
        ensures
            final(self).spec_components() == old(self).spec_components(),
            final(self).spec_index() == old(self).spec_index(),
            final(self).spec_base() == old(self).spec_base(),
            final(self).spec_pairs() == old(self).spec_pairs().push((plus_finite, minus_finite)),
    {
        proof {
            use_type_invariant(&*self);
        }
        let ghost old_pairs = self.pairs@;
        let ghost new_pairs = old_pairs.push((plus_finite, minus_finite));
        proof {
            assert(new_pairs.drop_last() =~= old_pairs);
            assert(new_pairs.last() == (plus_finite, minus_finite));
            assert(forall|i: int| 0 <= i < old_pairs.len() ==> new_pairs[i] == old_pairs[i]);
            lemma_latest_one_sided_in_range(old_pairs);
            assert forall|i: int| 0 <= i < new_pairs.len() - 1 implies !both_finite(
                #[trigger] new_pairs[i],
            ) by {
                assert(new_pairs[i] == old_pairs[i]);
            }
        }
        let candidate = if plus_finite || minus_finite {
            Some((self.attempt, plus_finite, minus_finite))
        } else {
            self.candidate
        };
        *self = Self {
            components: self.components,
            index: self.index,
            attempt: self.attempt + 1,
            central: plus_finite && minus_finite,
            candidate,
            base: self.base,
            pairs: Ghost(new_pairs),
        };
    }

    /// Records whether the base value is finite.
    pub fn record_base(&mut self, base_finite: bool)
        requires
            old(self).spec_action() is EvaluateBase,
        ensures
            final(self).spec_components() == old(self).spec_components(),
            final(self).spec_index() == old(self).spec_index(),
            final(self).spec_pairs() == old(self).spec_pairs(),
            final(self).spec_base() == Some(base_finite),
    {
        proof {
            use_type_invariant(&*self);
        }
        *self = Self {
            components: self.components,
            index: self.index,
            attempt: self.attempt,
            central: self.central,
            candidate: self.candidate,
            base: Some(base_finite),
            pairs: self.pairs,
        };
    }

    /// Moves on to the next component after the current one was computed.
    pub fn complete_component(&mut self)
        requires
            old(self).spec_action() is Component,
        ensures
            final(self).spec_components() == old(self).spec_components(),
            final(self).spec_index() == old(self).spec_index() + 1,
            final(self).spec_pairs() == Seq::<(bool, bool)>::empty(),
            final(self).spec_base() == old(self).spec_base(),
    {
        proof {
            use_type_invariant(&*self);
        }
        *self = Self {
            components: self.components,
            index: self.index + 1,
            attempt: 0,
            central: false,
            candidate: None,
            base: self.base,
            pairs: Ghost(Seq::empty()),
        };
    }
}

/// One-sided differences are a fallback: a component is computed with a
/// forward or backward difference only after all `CENTRAL_DIFFERENCE_RETRIES + 1`
/// central attempts were made and none had both probes finite; the quotient
/// then uses the latest attempt with a finite probe, and needs a finite base value.
pub proof fn lemma_one_sided_only_after_central_retries(plan: FiniteDifferencePlan)
    requires
        probing_history(plan.spec_pairs()),
        plan.spec_action() matches PlanAction::Component { rule, .. } && (rule is Forward
            || rule is Backward),
    ensures
        central_exhausted(plan.spec_pairs()),
        forall|i: int|
            0 <= i < plan.spec_pairs().len() ==> !both_finite(#[trigger] plan.spec_pairs()[i]),
        plan.spec_base() == Some(true),
        plan.spec_action() matches PlanAction::Component { rule, .. } && (match rule {
            DifferenceRule::Forward { attempt } => latest_one_sided(plan.spec_pairs()) == Some(
                attempt as int,
            ) && plan.spec_pairs()[attempt as int].0,
            DifferenceRule::Backward { attempt } => latest_one_sided(plan.spec_pairs()) == Some(
                attempt as int,
            ) && !plan.spec_pairs()[attempt as int].0 && plan.spec_pairs()[attempt as int].1,
            _ => false,
        }),
{
    lemma_latest_one_sided_in_range(plan.spec_pairs());
}

/// The base value is evaluated lazily and at most once: the plan asks for it
/// only while it is unknown, and only for a component whose central attempts
/// are exhausted while some probe of it was finite.
pub proof fn lemma_base_evaluated_lazily(plan: FiniteDifferencePlan)
    requires
        probing_history(plan.spec_pairs()),
        plan.spec_action() is EvaluateBase,
    ensures
        plan.spec_base() is None,
        plan.spec_index() < plan.spec_components(),
        plan.spec_pairs().len() == CENTRAL_DIFFERENCE_RETRIES + 1,
        !central_found(plan.spec_pairs()),
        latest_one_sided(plan.spec_pairs()) is Some,
{
}

/// A central difference is taken at the first attempt whose two probes are
/// both finite, and no further probes of that component are evaluated.
pub proof fn lemma_central_at_first_finite_pair(plan: FiniteDifferencePlan)
    requires
        probing_history(plan.spec_pairs()),
        plan.spec_action() matches PlanAction::Component { rule, .. } && rule is Central,
    ensures
        central_found(plan.spec_pairs()),
        plan.spec_action() matches PlanAction::Component { rule, .. } && (rule
            matches DifferenceRule::Central { attempt } && attempt + 1 == plan.spec_pairs().len()),
        forall|i: int|
            0 <= i < plan.spec_pairs().len() - 1 ==> !both_finite(#[trigger] plan.spec_pairs()[i]),
{
}

/// The latest attempt with a finite probe is the attempt `a` when `a` has a
/// finite probe and no later attempt has one, and there is none when no
/// attempt has a finite probe.
pub proof fn lemma_latest_one_sided_characterized(pairs: Seq<(bool, bool)>, a: int)
    ensures
        (0 <= a < pairs.len() && (pairs[a].0 || pairs[a].1) && (forall|j: int|
            a < j < pairs.len() ==> !(#[trigger] pairs[j].0) && !pairs[j].1))
            ==> latest_one_sided(pairs) == Some(a),
        (forall|j: int| 0 <= j < pairs.len() ==> !(#[trigger] pairs[j].0) && !pairs[j].1)
            ==> latest_one_sided(pairs) is None,
    decreases pairs.len(),
{
    if pairs.len() > 0 {
        let rest = pairs.drop_last();
        assert forall|j: int| 0 <= j < rest.len() implies rest[j] == pairs[j] by {}
        lemma_latest_one_sided_characterized(rest, a);
        if 0 <= a < pairs.len() - 1 && (pairs[a].0 || pairs[a].1) && (forall|j: int|
            a < j < pairs.len() ==> !(#[trigger] pairs[j].0) && !pairs[j].1) {
            assert(!pairs[pairs.len() - 1].0 && !pairs[pairs.len() - 1].1);
            assert forall|j: int| a < j < rest.len() implies !(#[trigger] rest[j].0)
                && !rest[j].1 by {
                assert(rest[j] == pairs[j]);
            }
        }
        if forall|j: int| 0 <= j < pairs.len() ==> !(#[trigger] pairs[j].0) && !pairs[j].1 {
            assert(!pairs[pairs.len() - 1].0 && !pairs[pairs.len() - 1].1);
            assert forall|j: int| 0 <= j < rest.len() implies !(#[trigger] rest[j].0)
                && !rest[j].1 by {
                assert(rest[j] == pairs[j]);
            }
        }
    }
}

/// Every action that names a component names the component being computed,
/// and the plan is finished exactly when every component has been computed.
pub proof fn lemma_action_names_current_component(plan: FiniteDifferencePlan)
    ensures
        (plan.spec_action() == PlanAction::Finished) <==> plan.spec_index()
            >= plan.spec_components(),
        plan.spec_action() matches PlanAction::Probe { index, .. } ==> index
            == plan.spec_index(),
        plan.spec_action() matches PlanAction::Component { index, .. } ==> index
            == plan.spec_index(),
        plan.spec_action() is EvaluateBase ==> plan.spec_index() < plan.spec_components(),
{
}

/// While a component's central search is running, the plan asks for the next
/// probe pair, whose attempt number is the number of pairs already evaluated;
/// as soon as the latest pair has both probes finite, whichever attempt it
/// was, the component is the central difference of that pair.
pub proof fn lemma_central_search(plan: FiniteDifferencePlan)
    requires
        plan.spec_index() < plan.spec_components(),
    ensures
        (plan.spec_pairs().len() > 0 && plan.spec_pairs().last().0 && plan.spec_pairs().last().1)
            ==> plan.spec_action() == (PlanAction::Component {
            index: plan.spec_index() as usize,
            rule: DifferenceRule::Central { attempt: (plan.spec_pairs().len() - 1) as usize },
        }),
        (plan.spec_pairs().len() <= CENTRAL_DIFFERENCE_RETRIES && !(plan.spec_pairs().len() > 0
            && plan.spec_pairs().last().0 && plan.spec_pairs().last().1)) ==> plan.spec_action()
            == (PlanAction::Probe {
            index: plan.spec_index() as usize,
            attempt: plan.spec_pairs().len() as usize,
        }),
{
}

/// After `CENTRAL_DIFFERENCE_RETRIES + 1` pairs none of which had both probes
/// finite: a component none of whose probes was finite is `NaN`; otherwise the
/// base value is evaluated if it is not known yet, and then the latest attempt
/// `a` with a finite probe gives a forward difference when its upper probe and
/// the base value are finite, else a backward difference when its lower probe
/// and the base value are finite, else `NaN`.
pub proof fn lemma_one_sided_fallback(plan: FiniteDifferencePlan, a: int)
    requires
        plan.spec_index() < plan.spec_components(),
        plan.spec_pairs().len() == CENTRAL_DIFFERENCE_RETRIES + 1,
        forall|i: int|
            0 <= i < plan.spec_pairs().len() ==> !(#[trigger] plan.spec_pairs()[i].0
                && plan.spec_pairs()[i].1),
    ensures
        (forall|j: int|
            0 <= j < plan.spec_pairs().len() ==> !(#[trigger] plan.spec_pairs()[j].0)
                && !plan.spec_pairs()[j].1) ==> plan.spec_action() == (PlanAction::Component {
            index: plan.spec_index() as usize,
            rule: DifferenceRule::Undefined,
        }),
        (0 <= a < plan.spec_pairs().len() && (plan.spec_pairs()[a].0 || plan.spec_pairs()[a].1)
            && (forall|j: int|
            a < j < plan.spec_pairs().len() ==> !(#[trigger] plan.spec_pairs()[j].0)
                && !plan.spec_pairs()[j].1)) ==> plan.spec_action() == (match plan.spec_base() {
            None => PlanAction::EvaluateBase,
            Some(base_finite) => PlanAction::Component {
                index: plan.spec_index() as usize,
                rule: if plan.spec_pairs()[a].0 && base_finite {
                    DifferenceRule::Forward { attempt: a as usize }
                } else if plan.spec_pairs()[a].1 && base_finite {
                    DifferenceRule::Backward { attempt: a as usize }
                } else {
                    DifferenceRule::Undefined
                },
            },
        }),
{
    let pairs = plan.spec_pairs();
    lemma_latest_one_sided_characterized(pairs, a);
    assert(!(pairs.last().0 && pairs.last().1));
}

} // verus!
