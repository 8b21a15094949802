//! A tokamak: the four quantities of an equilibrium, under another name.
use vstd::prelude::*;

use crate::Result;

verus! {

/// A tokamak, composed of one profile of each of the four quantities.
#[non_exhaustive]
pub struct Tokamak<Q, B, C, E> {
    /// The tokamak's q-factor.
    pub qfactor: Q,
    /// The tokamak's magnetic field.
    pub bfield: B,
    /// The tokamak's plasma currents.
    pub current: C,
    /// The tokamak's electric field.
    pub efield: E,
}

impl<Q, B, C, E> Tokamak<Q, B, C, E> {
    /// Composes a tokamak from four profiles built beforehand.
    pub fn build(qfactor: Q, bfield: B, current: C, efield: E) -> (r: Result<Self>)
        ensures
            r matches Ok(t) && t.qfactor == qfactor && t.bfield == bfield && t.current == current
                && t.efield == efield,
    {
        Ok(Tokamak { qfactor, bfield, current, efield })
    }
}

} // verus!
