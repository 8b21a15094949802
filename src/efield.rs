//! Electric field profiles.
use vstd::prelude::*;

use crate::Result;

verus! {

/// The absence of an electric field: a profile whose potential and field
/// vanish everywhere, for equilibria that model no electric field.
pub struct NoEfield;

impl NoEfield {
    /// Creates the vanishing electric field profile.
    pub fn new() -> (r: Result<Self>)
        ensures
            r is Ok,
    {
        Ok(NoEfield)
    }
}

} // verus!
