//! The error taxonomy of equilibrium construction and evaluation.
use vstd::prelude::*;

use rsl_interpolation::{Domain1dError, Domain2dError, InterpolationError};

verus! {

/// A query point outside the range of a one-dimensional interpolant.
#[verifier::external_type_specification]
#[verifier::external_body]
pub struct ExDomain1dError(Domain1dError);

/// A query point outside the range of a two-dimensional interpolant.
#[verifier::external_type_specification]
#[verifier::external_body]
pub struct ExDomain2dError(Domain2dError);

/// The interpolation backend's refusal to build an interpolant.
#[verifier::external_type_specification]
#[verifier::external_body]
pub struct ExInterpolationError(InterpolationError);

/// Everything that can go wrong while building or querying an equilibrium.
#[derive(Debug)]
pub enum EqError {
    /// A one-dimensional query fell outside the interpolant's range.
    DomainError(Domain1dError),
    /// A two-dimensional query fell outside the interpolant's range.
    Domain2dError(Domain2dError),
    /// The dataset could not be read, or lacks a variable; holds the reader's message.
    NcError(String),
    /// The interpolation backend rejected the supplied arrays.
    SplineError(InterpolationError),
    /// The parameters of a closed-form profile define no profile; says which.
    InvalidProfile(String),
    /// The requested interpolation method is not one this crate knows; holds the name.
    UnknownMethod(String),
}

impl From<Domain1dError> for EqError {
    fn from(e: Domain1dError) -> (r: EqError)
        ensures
            r == EqError::DomainError(e),
    {
        EqError::DomainError(e)
    }
}

impl vstd::std_specs::convert::FromSpecImpl<Domain1dError> for EqError {
    open spec fn obeys_from_spec() -> bool {
        true
    }

    open spec fn from_spec(e: Domain1dError) -> EqError {
        EqError::DomainError(e)
    }
}

impl From<Domain2dError> for EqError {
    fn from(e: Domain2dError) -> (r: EqError)
        ensures
            r == EqError::Domain2dError(e),
    {
        EqError::Domain2dError(e)
    }
}

impl vstd::std_specs::convert::FromSpecImpl<Domain2dError> for EqError {
    open spec fn obeys_from_spec() -> bool {
        true
    }

    open spec fn from_spec(e: Domain2dError) -> EqError {
        EqError::Domain2dError(e)
    }
}

impl From<InterpolationError> for EqError {
    fn from(e: InterpolationError) -> (r: EqError)
        ensures
            r == EqError::SplineError(e),
    {
        EqError::SplineError(e)
    }
}

impl vstd::std_specs::convert::FromSpecImpl<InterpolationError> for EqError {
    open spec fn obeys_from_spec() -> bool {
        true
    }

    open spec fn from_spec(e: InterpolationError) -> EqError {
        EqError::SplineError(e)
    }
}

} // verus!
