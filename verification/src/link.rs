//! Link types of the modelling core that name the families' default links.
//!
//! The families carry their links only as type parameters, so these types are
//! declared opaque: nothing about their values is used.
use vstd::prelude::*;

verus! {

/// The identity link `gamlss_core::Identity`.
#[verifier::external_type_specification]
#[verifier::external_body]
pub struct ExIdentity(gamlss_core::Identity);

/// The log link `gamlss_core::Log`.
#[verifier::external_type_specification]
#[verifier::external_body]
pub struct ExLog(gamlss_core::Log);

} // verus!
