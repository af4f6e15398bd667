//! Multivariate skew-normal families.

pub mod cholesky;
pub mod location_kernel_std_partial_corr;

pub use cholesky::MvSkewNormalCholesky;
pub use location_kernel_std_partial_corr::MvSkewNormalLocationKernelStdPartialCorr;
