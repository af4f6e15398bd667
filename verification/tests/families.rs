use gamlss_family::ModelError;
use gamlss_family::multivariate::log_normal::MvLogNormalCholeskyDefault;
use gamlss_family::multivariate::logistic_normal::LogisticNormalAlrCholeskyDefault;
use gamlss_family::multivariate::normal::MvNormalCholeskyDefault;
use gamlss_family::multivariate::normal::mean_std_partial_corr::MvNormalMeanStdPartialCorrDefault;
use gamlss_family::multivariate::poisson_common_shock::MvPoissonCommonShockDefault;
use gamlss_family::multivariate::power_exponential::cholesky::MvPowerExponentialCholeskyDefault;
use gamlss_family::multivariate::power_exponential::mean_std_partial_corr::MvPowerExponentialMeanStdPartialCorrDefault;
use gamlss_family::multivariate::shash::{
    MvShashMuSigmaNuTauPartialCorrDefault, MvSinhArcsinhMuSigmaNuTauPartialCorrDefault,
};
use gamlss_family::multivariate::simplex::DirichletMeanPrecision;
use gamlss_family::multivariate::skew_normal::cholesky::MvSkewNormalCholeskyDefault;
use gamlss_family::multivariate::skew_normal::location_kernel_std_partial_corr::MvSkewNormalLocationKernelStdPartialCorrDefault;
use gamlss_family::multivariate::student_t::MvStudentTMeanStdPartialCorr;

const POSITIVE_DIMENSION: ModelError = ModelError::InvalidParameter {
    parameter: "dimension",
    expected: "positive",
};

#[test]
fn mean_std_partial_corr_checked_constructor_rejects_zero_dimension() {
    assert_eq!(
        MvNormalMeanStdPartialCorrDefault::<0>::try_new(),
        Err(ModelError::InvalidParameter {
            parameter: "dimension",
            expected: "positive",
        })
    );
    assert!(MvNormalMeanStdPartialCorrDefault::<1>::try_new().is_ok());
}

#[test]
fn cholesky_checked_constructor_rejects_zero_dimension() {
    assert_eq!(
        MvPowerExponentialCholeskyDefault::<0>::try_new(),
        Err(ModelError::InvalidParameter {
            parameter: "dimension",
            expected: "positive",
        })
    );
    assert_eq!(
        MvSkewNormalCholeskyDefault::<0>::try_new(),
        Err(ModelError::InvalidParameter {
            parameter: "dimension",
            expected: "positive",
        })
    );
}

#[test]
fn checked_constructor_rejects_dimensions_below_two() {
    assert_eq!(
        DirichletMeanPrecision::<1>::try_new(),
        Err(ModelError::InvalidParameter {
            parameter: "dimension",
            expected: "at least two",
        })
    );
    assert!(DirichletMeanPrecision::<2>::try_new().is_ok());
}

#[test]
fn positive_dimension_families_reject_only_zero() {
    assert_eq!(MvLogNormalCholeskyDefault::<0>::try_new(), Err(POSITIVE_DIMENSION));
    assert!(MvLogNormalCholeskyDefault::<1>::try_new().is_ok());
    assert_eq!(MvShashMuSigmaNuTauPartialCorrDefault::<0>::try_new(), Err(POSITIVE_DIMENSION));
    assert!(MvSinhArcsinhMuSigmaNuTauPartialCorrDefault::<2>::try_new().is_ok());
    assert_eq!(
        MvPowerExponentialMeanStdPartialCorrDefault::<0>::try_new(),
        Err(POSITIVE_DIMENSION)
    );
    assert!(MvPowerExponentialMeanStdPartialCorrDefault::<3>::try_new().is_ok());
    assert_eq!(
        MvSkewNormalLocationKernelStdPartialCorrDefault::<0>::try_new(),
        Err(POSITIVE_DIMENSION)
    );
    assert!(MvSkewNormalLocationKernelStdPartialCorrDefault::<1>::try_new().is_ok());
    assert_eq!(MvStudentTMeanStdPartialCorr::<0, (), (), ()>::try_new(), Err(POSITIVE_DIMENSION));
    assert!(MvStudentTMeanStdPartialCorr::<2, (), (), ()>::try_new().is_ok());
    assert!(MvPowerExponentialCholeskyDefault::<1>::try_new().is_ok());
    assert!(MvSkewNormalCholeskyDefault::<4>::try_new().is_ok());
}

#[test]
fn two_component_families_reject_fewer_components() {
    assert_eq!(
        LogisticNormalAlrCholeskyDefault::<1>::try_new(),
        Err(ModelError::InvalidParameter {
            parameter: "logistic-normal component count",
            expected: "at least two",
        })
    );
    assert!(LogisticNormalAlrCholeskyDefault::<2>::try_new().is_ok());
    assert_eq!(
        MvPoissonCommonShockDefault::<1>::try_new(),
        Err(ModelError::InvalidParameter {
            parameter: "dimension",
            expected: "at least two response components",
        })
    );
    assert!(MvPoissonCommonShockDefault::<2>::try_new().is_ok());
}

#[test]
fn unchecked_constructors_and_defaults_build_stateless_families() {
    let normal = MvNormalCholeskyDefault::<2>::new();
    assert_eq!(normal, normal.clone());
    let partial = MvNormalMeanStdPartialCorrDefault::<3>::default();
    assert_eq!(partial, MvNormalMeanStdPartialCorrDefault::<3>::new());
    assert_eq!(
        DirichletMeanPrecision::<3>::default(),
        DirichletMeanPrecision::<3>::new()
    );
}

#[test]
fn family_constructors_agree_and_report_dimensions() {
    assert_eq!(
        MvLogNormalCholeskyDefault::<2>::try_new(),
        Ok(MvLogNormalCholeskyDefault::<2>::default())
    );
    assert_eq!(MvLogNormalCholeskyDefault::<2>::new().observation_dimension(), 2);
    assert_eq!(LogisticNormalAlrCholeskyDefault::<3>::new().observation_dimension(), 3);
    assert_eq!(MvPoissonCommonShockDefault::<4>::default().observation_dimension(), 4);
    assert_eq!(DirichletMeanPrecision::<2>::try_new(), Ok(DirichletMeanPrecision::<2>::new()));
    assert_eq!(MvNormalCholeskyDefault::<3>::default(), MvNormalCholeskyDefault::<3>::new());
}
