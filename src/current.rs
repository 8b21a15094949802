//! Plasma current profiles.
use vstd::prelude::*;

use crate::method::{method_named, refuses_name, Method};
use crate::pipeline::{
    axis_padded, build_accepts, builds, first_repeated, with_axis_value, with_first_repeated,
};
use crate::EqError;
use crate::Result;

verus! {

/// The large-aspect-ratio plasma currents: `I ≡ 0` and `g ≡ 1`.
pub struct Lar;

impl Lar {
    /// Creates the large-aspect-ratio current profile.
    pub fn new() -> (r: Result<Self>)
        ensures
            r is Ok,
    {
        Ok(Lar)
    }
}

/// Plasma currents reconstructed from tabulated `I` and `g` samples.
///
/// Derivatives taken through these interpolants are with respect to the
/// grid's flux coordinate.
pub struct Numerical<S> {
    /// Interpolant of the poloidal current function `I`.
    pub i_spline: S,
    /// Interpolant of the toroidal current function `g`.
    pub g_spline: S,
}

impl<S> Numerical<S> {
    /// Builds the profile from the flux grid `psi_raw` and the samples
    /// `i_raw` and `g_raw`, all starting off the magnetic axis.
    ///
    /// The grid gets `psi_axis` (the flux at the axis, zero) in front, and
    /// each sample array its first value repeated, standing in for the value
    /// at the axis. `build` makes an interpolant of the method named `method`,
    /// first for `I`, then for `g`. The first error is returned as it came.
    pub fn from_samples<X: Copy, B>(
        method: &str,
        psi_axis: X,
        psi_raw: &Vec<X>,
        i_raw: &Vec<X>,
        g_raw: &Vec<X>,
        build: B,
    ) -> (r: Result<Self>) where B: Fn(Method, &Vec<X>, &Vec<X>) -> Result<S>
        requires
            forall|m: Method, x: &Vec<X>, y: &Vec<X>| build.requires((m, x, y)),
        ensures
            method_named(method@) is None ==> refuses_name(r, method@),
            method_named(method@) matches Some(m) ==> {
                let psi = axis_padded(psi_axis, psi_raw@);
                let i = first_repeated(i_raw@);
                let g = first_repeated(g_raw@);
                &&& build_accepts(build, m, psi, i) && build_accepts(build, m, psi, g) ==> r is Ok
                &&& r matches Ok(n) ==> {
                    &&& builds(build, m, psi, i, Ok::<S, EqError>(n.i_spline))
                    &&& builds(build, m, psi, g, Ok::<S, EqError>(n.g_spline))
                }
                &&& r matches Err(e) ==> builds(build, m, psi, i, Err::<S, EqError>(e)) || ((exists|
                    s: S,
                | #[trigger] builds(build, m, psi, i, Ok::<S, EqError>(s))) && builds(
                    build,
                    m,
                    psi,
                    g,
                    Err::<S, EqError>(e),
                ))
            },
    {
        let m = match Method::from_name(method) {
            Ok(m) => m,
            Err(e) => {
                return Err(e);
            },
        };
        let psi = with_axis_value(psi_axis, psi_raw);
        let i_data = with_first_repeated(i_raw);
        let g_data = with_first_repeated(g_raw);
        let i_spline = match build(m, &psi, &i_data) {
            Ok(s) => s,
            Err(e) => {
                assert(builds(build, m, psi@, i_data@, Err::<S, EqError>(e)));
                return Err(e);
            },
        };
        assert(builds(build, m, psi@, i_data@, Ok::<S, EqError>(i_spline)));
        let g_spline = match build(m, &psi, &g_data) {
            Ok(s) => s,
            Err(e) => {
                assert(builds(build, m, psi@, g_data@, Err::<S, EqError>(e)));
                return Err(e);
            },
        };
        assert(builds(build, m, psi@, g_data@, Ok::<S, EqError>(g_spline)));
        Ok(Numerical { i_spline, g_spline })
    }
}

} // verus!
