//! Electromagnetic equilibrium quantities of a tokamak plasma.
//!
//! Four capability sets describe an equilibrium: the q-factor, the magnetic
//! field, the plasma currents and the electric field. Each comes either as a
//! closed-form profile or as a profile reconstructed from tabulated data by
//! interpolation. This crate holds the parts of that model whose behaviour is
//! proved: the construction pipeline of the reconstructed profiles (axis
//! padding, table flattening, derived-quantity integration, failure
//! propagation), the choice of interpolation method by name, and the
//! composition of the four quantities into one equilibrium.
use vstd::prelude::*;

pub mod error;
pub mod efield;
pub mod method;
pub mod table;
pub mod pipeline;
pub mod qfactor;
pub mod bfield;
pub mod current;
pub mod equilibrium;
pub mod tokamak;

pub use error::EqError;
pub use equilibrium::Equilibrium;
pub use qfactor::Qfactor;
pub use tokamak::Tokamak;

verus! {

/// Result of every fallible operation of this crate.
pub type Result<T> = core::result::Result<T, EqError>;

} // verus!
