//! Multivariate power-exponential families.

pub mod cholesky;
pub mod mean_std_partial_corr;

pub use cholesky::MvPowerExponentialCholesky;
pub use mean_std_partial_corr::MvPowerExponentialMeanStdPartialCorr;
