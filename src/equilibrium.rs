//! The equilibrium: one q-factor, magnetic field, current and electric field.
use vstd::prelude::*;

use crate::Result;

verus! {

/// A tokamak equilibrium, composed of one profile of each of the four
/// quantities. It holds nothing else and is never changed once built.
#[non_exhaustive]
pub struct Equilibrium<Q, B, C, E> {
    /// The equilibrium's q-factor.
    pub qfactor: Q,
    /// The equilibrium's magnetic field.
    pub bfield: B,
    /// The equilibrium's plasma currents.
    pub current: C,
    /// The equilibrium's electric field.
    pub efield: E,
}

impl<Q, B, C, E> Equilibrium<Q, B, C, E> {
    /// Composes an equilibrium from four profiles built beforehand.
    pub fn from_analytical(qfactor: Q, bfield: B, current: C, efield: E) -> (r: Result<Self>)
        ensures
            r matches Ok(eq) && eq.qfactor == qfactor && eq.bfield == bfield && eq.current
                == current && eq.efield == efield,
    {
        Ok(Equilibrium { qfactor, bfield, current, efield })
    }
}

} // verus!
