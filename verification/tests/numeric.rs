use gamlss_family::numeric::{
    CENTRAL_DIFFERENCE_RETRIES, DifferenceRule, FiniteDifferencePlan, PlanAction,
};

const REL_EPSILON: f64 = 1.0e-6;
const STEP_SHRINK_FACTOR: f64 = 0.5;

fn step_for(value: f64, attempt: usize) -> f64 {
    let mut step = REL_EPSILON * value.abs().max(1.0);
    for _ in 0..attempt {
        step *= STEP_SHRINK_FACTOR;
    }
    step
}

/// Runs the verified plan, performing each requested evaluation.
fn finite_difference_gradient(eta: &[f64], mut nll_at: impl FnMut(&[f64]) -> f64) -> Vec<f64> {
    let mut plan = FiniteDifferencePlan::new(eta.len());
    let mut gradient = vec![0.0; eta.len()];
    let mut base = f64::NAN;
    let mut central = (f64::NAN, f64::NAN);
    let mut one_sided = (f64::NAN, f64::NAN);
    loop {
        match plan.action() {
            PlanAction::Probe { index, attempt } => {
                let step = step_for(eta[index], attempt);
                let mut plus = eta.to_vec();
                let mut minus = eta.to_vec();
                plus[index] += step;
                minus[index] -= step;
                let plus_nll = nll_at(&plus);
                let minus_nll = nll_at(&minus);
                central = (plus_nll, minus_nll);
                if plus_nll.is_finite() || minus_nll.is_finite() {
                    one_sided = (plus_nll, minus_nll);
                }
                plan.record_pair(plus_nll.is_finite(), minus_nll.is_finite());
            }
            PlanAction::EvaluateBase => {
                base = nll_at(eta);
                plan.record_base(base.is_finite());
            }
            PlanAction::Component { index, rule } => {
                gradient[index] = match rule {
                    DifferenceRule::Central { attempt } => {
                        (central.0 - central.1) / (2.0 * step_for(eta[index], attempt))
                    }
                    DifferenceRule::Forward { attempt } => {
                        (one_sided.0 - base) / step_for(eta[index], attempt)
                    }
                    DifferenceRule::Backward { attempt } => {
                        (base - one_sided.1) / step_for(eta[index], attempt)
                    }
                    DifferenceRule::Undefined => f64::NAN,
                };
                plan.complete_component();
            }
            PlanAction::Finished => return gradient,
        }
    }
}

#[test]
fn central_difference_path_does_not_evaluate_base_nll() {
    let mut calls = 0;
    let gradient = finite_difference_gradient(&[1.0, 2.0], |eta| {
        calls += 1;
        let (first, second) = (eta[0], eta[1]);
        second.mul_add(second, first * first)
    });

    assert_eq!(calls, 4);
    assert!((gradient[0] - 2.0).abs() < 1.0e-9);
    assert!((gradient[1] - 4.0).abs() < 1.0e-9);
}

#[test]
fn one_sided_fallback_evaluates_base_nll_lazily() {
    let mut calls = 0;
    let gradient = finite_difference_gradient(&[1.0], |eta| {
        calls += 1;
        let probe = eta[0];
        if probe < 1.0 {
            f64::INFINITY
        } else {
            probe * probe
        }
    });

    assert_eq!(calls, 2 * (CENTRAL_DIFFERENCE_RETRIES + 1) + 1);
    assert!((gradient[0] - 2.0).abs() < 1.0e-5);
}

#[test]
fn central_difference_retries_with_smaller_step_before_fallback() {
    let mut calls = 0;
    let gradient = finite_difference_gradient(&[1.0], |eta| {
        calls += 1;
        let probe = eta[0];
        if (probe - 1.0).abs() <= 3.0e-7 {
            probe * probe
        } else {
            f64::INFINITY
        }
    });

    assert_eq!(calls, 6);
    assert!((gradient[0] - 2.0).abs() < 1.0e-9);
}

#[test]
fn base_nll_is_shared_by_every_one_sided_component() {
    let mut base_calls = 0;
    let mut calls = 0;
    let gradient = finite_difference_gradient(&[1.0, 1.0], |eta| {
        calls += 1;
        if eta[0] == 1.0 && eta[1] == 1.0 {
            base_calls += 1;
        }
        if eta[0] < 1.0 || eta[1] < 1.0 {
            f64::INFINITY
        } else {
            eta[0] * eta[0] + 3.0 * eta[1]
        }
    });

    assert_eq!(base_calls, 1);
    assert_eq!(calls, 2 * 2 * (CENTRAL_DIFFERENCE_RETRIES + 1) + 1);
    assert!((gradient[0] - 2.0).abs() < 1.0e-5);
    assert!((gradient[1] - 3.0).abs() < 1.0e-5);
}

#[test]
fn components_without_any_finite_probe_are_nan() {
    let mut calls = 0;
    let gradient = finite_difference_gradient(&[0.0], |_| {
        calls += 1;
        f64::INFINITY
    });
    assert_eq!(calls, 2 * (CENTRAL_DIFFERENCE_RETRIES + 1));
    assert!(gradient[0].is_nan());
}

#[test]
fn plan_states_follow_the_reported_probes() {
    let mut plan = FiniteDifferencePlan::new(1);
    assert_eq!(plan.action(), PlanAction::Probe { index: 0, attempt: 0 });
    plan.record_pair(false, false);
    assert_eq!(plan.action(), PlanAction::Probe { index: 0, attempt: 1 });
    plan.record_pair(false, true);
    for attempt in 2..=CENTRAL_DIFFERENCE_RETRIES {
        assert_eq!(plan.action(), PlanAction::Probe { index: 0, attempt });
        plan.record_pair(false, false);
    }
    assert_eq!(plan.action(), PlanAction::EvaluateBase);
    plan.record_base(true);
    assert_eq!(
        plan.action(),
        PlanAction::Component {
            index: 0,
            rule: DifferenceRule::Backward { attempt: 1 },
        }
    );
    plan.complete_component();
    assert_eq!(plan.action(), PlanAction::Finished);
}
