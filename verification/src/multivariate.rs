//! Multivariate families: storage layouts, constructors and trial policies.

pub mod cholesky;
pub mod count;
pub mod dirichlet_multinomial;
pub mod independent;
pub mod log_normal;
pub mod logistic_normal;
pub mod matrix;
pub mod multinomial;
pub mod normal;
pub mod poisson_common_shock;
pub mod power_exponential;
pub mod shash;
pub mod simplex;
pub mod skew_normal;
pub mod student_t;

pub use count::{FixedTrialCount, PerObservationTrials, PreparedFixedTrials, TrialPolicy};
pub use dirichlet_multinomial::{DirichletMultinomialFixedTrials, DirichletMultinomialVaryingTrials};
pub use independent::IndependentVec;
pub use log_normal::MvLogNormalCholesky;
pub use logistic_normal::LogisticNormalAlrCholesky;
pub use matrix::PackedLowerTriangular;
pub use multinomial::{MultinomialFixedTrials, MultinomialVaryingTrials};
pub use normal::{DynMvNormalCholesky, MvNormalCholesky, MvNormalMeanStdPartialCorr};
pub use poisson_common_shock::MvPoissonCommonShock;
pub use power_exponential::{MvPowerExponentialCholesky, MvPowerExponentialMeanStdPartialCorr};
pub use shash::MvShashMuSigmaNuTauPartialCorr;
pub use simplex::DirichletMeanPrecision;
pub use skew_normal::{MvSkewNormalCholesky, MvSkewNormalLocationKernelStdPartialCorr};
pub use student_t::MvStudentTMeanStdPartialCorr;
