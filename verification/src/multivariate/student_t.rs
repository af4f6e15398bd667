//! Multivariate Student-t families.

pub mod mean_std_partial_corr;

pub use mean_std_partial_corr::MvStudentTMeanStdPartialCorr;
