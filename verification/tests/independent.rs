use gamlss_family::{IndependentVec, ModelError};

/// Stateless scalar component family used as the product's component.
#[derive(Debug, Default, Clone, Copy, PartialEq, Eq)]
struct NormalMuSigma;

impl NormalMuSigma {
    fn new() -> Self {
        Self
    }
}

#[test]
fn default_and_into_component_round_trip_component_family() {
    let family = IndependentVec::<NormalMuSigma, 2>::default();
    assert_eq!(family.component(), &NormalMuSigma::new());
    assert_eq!(family.into_component(), NormalMuSigma::new());
}

#[test]
fn independent_checked_constructor_rejects_zero_dimension() {
    assert_eq!(
        IndependentVec::<NormalMuSigma, 0>::try_new(NormalMuSigma::new()),
        Err(ModelError::InvalidParameter {
            parameter: "dimension",
            expected: "positive",
        })
    );
    assert!(IndependentVec::<NormalMuSigma, 1>::try_new(NormalMuSigma::new()).is_ok());
}

#[test]
fn product_reports_its_dimension_and_component() {
    let family = IndependentVec::<u32, 3>::new(9);
    assert_eq!(family.observation_dimension(), 3);
    assert_eq!(*family.component(), 9);
    assert_eq!(IndependentVec::<u32, 5>::try_new(4).unwrap().into_component(), 4);
}
