//! Independent fixed-size products of one scalar family.
use vstd::prelude::*;

use crate::error::ModelError;

verus! {

/// Independent fixed-size product of one scalar family.
///
/// This is the baseline multivariate construction:
///
/// `p(y_0, ..., y_{D-1}) = product_i p_i(y_i)`.
///
/// It deliberately models independence rather than pretending that every scalar
/// distribution has one canonical dependent multivariate analogue.
///
/// `D == 0` is an invalid model shape: [`Self::try_new`] rejects it and
/// [`Self::new`] may not be called with it.
#[derive(Debug, Clone, Copy, PartialEq, Eq)]
pub struct IndependentVec<F, const D: usize> {
    component: F,
}

impl<F, const D: usize> IndependentVec<F, D> {
    /// The scalar component family.
    pub closed spec fn spec_component(&self) -> F {
        self.component
    }

    /// Creates an independent product family after checking the compile-time dimension.
    ///
    /// # Errors
    ///
    /// Returns [`ModelError::InvalidParameter`] when `D == 0`.
    pub fn try_new(component: F) -> (r: Result<Self, ModelError>)
        ensures
            D == 0 ==> r == Err::<Self, ModelError>(
                ModelError::InvalidParameter { parameter: "dimension", expected: "positive" },
            ),
            D > 0 ==> (r matches Ok(family) && family.spec_component() == component),
    {
        if D == 0 {
            return Err(ModelError::InvalidParameter { parameter: "dimension", expected: "positive" });
        }
        Ok(Self { component })
    }

    /// Creates an independent product family from a scalar component family.
    ///
    /// The compile-time dimension must be positive.
    pub fn new(component: F) -> (family: Self)
        requires
            D > 0,
        ensures
            family.spec_component() == component,
    {
        Self { component }
    }

    /// Returns the scalar component family.
    pub fn component(&self) -> (component: &F)
        ensures
            *component == self.spec_component(),
    {
        &self.component
    }

    /// Consumes the product family and returns the scalar component family.
    pub fn into_component(self) -> (component: F)
        ensures
            component == self.spec_component(),
    {
        self.component
    }

    /// The observation dimension `D`.
    pub fn observation_dimension(&self) -> (dimension: usize)
        ensures
            dimension == D,
    {
        D
    }
}

impl<F: Default, const D: usize> Default for IndependentVec<F, D> {
    /// Creates the product of the component family's default value.
    ///
    /// For the invalid shape `D == 0` this still returns a value, which the
    /// likelihood and CDF evaluations of that shape then reject.
    fn default() -> (family: Self)
        ensures
            call_ensures(F::default, (), family.spec_component()),
    {
        Self { component: F::default() }
    }
}

} // verus!
