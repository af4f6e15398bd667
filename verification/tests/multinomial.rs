use gamlss_family::{
    DirichletMultinomialFixedTrials, DirichletMultinomialVaryingTrials, FixedTrialCount,
    ModelError, MultinomialFixedTrials, MultinomialVaryingTrials, PerObservationTrials,
    PreparedFixedTrials, TrialPolicy,
};

#[test]
fn multinomial_constructors_check_categories_then_trials() {
    assert_eq!(
        MultinomialFixedTrials::<1>::try_new(4),
        Err(ModelError::InvalidParameter {
            parameter: "multinomial category count",
            expected: "at least two",
        })
    );
    assert_eq!(
        MultinomialFixedTrials::<1>::try_new(0),
        Err(ModelError::InvalidParameter {
            parameter: "multinomial category count",
            expected: "at least two",
        })
    );
    assert_eq!(
        MultinomialFixedTrials::<3>::try_new(0),
        Err(ModelError::InvalidParameter {
            parameter: "multinomial trials",
            expected: "positive",
        })
    );
    assert_eq!(MultinomialFixedTrials::<3>::try_new(10).unwrap().trials(), 10);
    assert!(MultinomialVaryingTrials::<1>::try_new().is_err());
    assert!(MultinomialVaryingTrials::<2>::try_new().is_ok());
}

#[test]
fn multinomial_trial_policies_expect_the_right_totals() {
    let fixed = MultinomialFixedTrials::<3>::new(10);
    assert_eq!(fixed.trial_policy().expected_trials(), Some(10));
    assert_eq!(fixed.trial_policy().trials(), 10);
    let varying = MultinomialVaryingTrials::<3>::new();
    assert_eq!(varying.trial_policy().expected_trials(), None);
    assert_eq!(MultinomialVaryingTrials::<3>::default(), varying);
    assert_eq!(FixedTrialCount::new(7).expected_trials(), Some(7));
    assert_eq!(PerObservationTrials.expected_trials(), None);
    assert_eq!(PreparedFixedTrials::new(3), PreparedFixedTrials::new(3));
    assert_ne!(PreparedFixedTrials::new(3), PreparedFixedTrials::new(4));
}

#[test]
fn dirichlet_multinomial_constructors_check_categories_then_trials() {
    assert_eq!(
        DirichletMultinomialFixedTrials::<1>::try_new(5),
        Err(ModelError::InvalidParameter {
            parameter: "Dirichlet-multinomial category count",
            expected: "at least two",
        })
    );
    assert_eq!(
        DirichletMultinomialFixedTrials::<3>::try_new(0),
        Err(ModelError::InvalidParameter {
            parameter: "Dirichlet-multinomial trials",
            expected: "positive",
        })
    );
    let fixed = DirichletMultinomialFixedTrials::<3>::try_new(12).unwrap();
    assert_eq!(fixed.trials(), 12);
    assert_eq!(fixed.trial_policy().expected_trials(), Some(12));
    assert_eq!(DirichletMultinomialFixedTrials::<2>::new(4).trials(), 4);
    assert!(DirichletMultinomialVaryingTrials::<1>::try_new().is_err());
    let varying = DirichletMultinomialVaryingTrials::<4>::new();
    assert_eq!(varying.trial_policy().expected_trials(), None);
    assert_eq!(DirichletMultinomialVaryingTrials::<4>::default(), varying);
}

#[test]
fn multinomial_constructors_agree_and_report_categories() {
    assert_eq!(
        MultinomialVaryingTrials::<3>::try_new(),
        Ok(MultinomialVaryingTrials::<3>::new())
    );
    assert_eq!(MultinomialVaryingTrials::<3>::default(), MultinomialVaryingTrials::<3>::new());
    assert_eq!(MultinomialVaryingTrials::<3>::new().observation_dimension(), 3);
    assert_eq!(
        MultinomialFixedTrials::<4>::try_new(9),
        Ok(MultinomialFixedTrials::<4>::new(9))
    );
    assert_eq!(MultinomialFixedTrials::<4>::new(9).observation_dimension(), 4);
    assert_eq!(
        DirichletMultinomialFixedTrials::<3>::try_new(2),
        Ok(DirichletMultinomialFixedTrials::<3>::new(2))
    );
    assert_eq!(DirichletMultinomialFixedTrials::<3>::new(2).observation_dimension(), 3);
    assert_eq!(
        DirichletMultinomialVaryingTrials::<5>::try_new(),
        Ok(DirichletMultinomialVaryingTrials::<5>::default())
    );
    assert_eq!(DirichletMultinomialVaryingTrials::<5>::new().observation_dimension(), 5);
}
