//! Multivariate normal families.
use vstd::prelude::*;

use gamlss_core::{Identity, Log};

pub mod dynamic;
pub mod fixed;
pub mod mean_std_partial_corr;

pub use dynamic::DynMvNormalCholesky;
pub use fixed::MvNormalCholesky;
pub use mean_std_partial_corr::{MvNormalMeanStdPartialCorr, MvNormalMeanStdPartialCorrDefault};

verus! {

/// The fixed-dimensional Cholesky family with its default links.
pub type MvNormalCholeskyDefault<const D: usize> = MvNormalCholesky<D, Identity, Log, Identity>;

/// The runtime-dimensional Cholesky family with its default links.
pub type DynMvNormalCholeskyDefault = DynMvNormalCholesky<Identity, Log, Identity>;

} // verus!
