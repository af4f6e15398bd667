//! Verified index, layout and policy logic of the GAMLSS distribution families.

pub mod error;
pub mod link;
pub mod multivariate;
pub mod numeric;

pub use error::ModelError;
pub use multivariate::{
    DirichletMultinomialFixedTrials, DirichletMultinomialVaryingTrials, DynMvNormalCholesky,
    FixedTrialCount, IndependentVec, MultinomialFixedTrials, MultinomialVaryingTrials,
    PackedLowerTriangular, PerObservationTrials, PreparedFixedTrials, TrialPolicy,
};
