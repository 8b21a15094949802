//! q-factor (safety factor) profiles.
use vstd::prelude::*;

use crate::method::{method_named, refuses_name, Method};
use crate::pipeline::{
    axis_padded, build_accepts, builds, fails_first, first_repeated, integ_accepts, integrals,
    integrate_from_axis, with_axis_value, with_first_repeated,
};
use crate::EqError;
use crate::Result;

verus! {

/// The q-factor profile `q ≡ 1`, whose poloidal flux equals the toroidal one.
pub struct Unity;

impl Unity {
    /// Creates the profile `q ≡ 1`.
    pub fn new() -> (r: Result<Self>)
        ensures
            r is Ok,
    {
        Ok(Unity)
    }
}

/// A q-factor profile reconstructed from tabulated `(ψ, q)` samples.
///
/// `q_spline` interpolates `q` over `ψ`; `psip_spline` interpolates the
/// poloidal flux `ψₚ(ψ) = ∫₀^ψ q`, whose values at the grid points are
/// `psip_data`.
pub struct Numerical<S, X> {
    /// Interpolant of the q-factor over ψ.
    pub q_spline: S,
    /// Interpolant of the poloidal flux over ψ.
    pub psip_spline: S,
    /// The poloidal flux at each ψ grid point, the axis included.
    pub psip_data: Vec<X>,
}

impl<S, X: Copy> Numerical<S, X> {
    /// Builds the profile from the tabulated samples `psi_raw` and `q_raw`,
    /// which start at the first grid point off the magnetic axis.
    ///
    /// The grid gets `psi_axis` (the flux at the axis, zero) in front, and
    /// the q samples their first value repeated, so that the profile is
    /// defined at the axis. `build` makes an interpolant of the method named
    /// `method` from a grid and values; `integ(s, a, b)` integrates the
    /// interpolant `s` from `a` to `b`. The poloidal flux at each grid point
    /// is the integral of q from the axis to it, and gets an interpolant of
    /// its own. The first error is returned as it came, and nothing is built
    /// after it.
    pub fn from_samples<B, I>(
        method: &str,
        psi_axis: X,
        psi_raw: &Vec<X>,
        q_raw: &Vec<X>,
        build: B,
        integ: I,
    ) -> (r: Result<Self>) where
        B: Fn(Method, &Vec<X>, &Vec<X>) -> Result<S>,
        I: Fn(&S, X, X) -> Result<X>,

        requires
            forall|m: Method, x: &Vec<X>, y: &Vec<X>| build.requires((m, x, y)),
            forall|t: &S, a: X, b: X| integ.requires((t, a, b)),
        ensures
            method_named(method@) is None ==> refuses_name(r, method@),
            method_named(method@) matches Some(m) ==> {
                let psi = axis_padded(psi_axis, psi_raw@);
                let q = first_repeated(q_raw@);
                &&& build_accepts(build, m, psi, q) && (forall|qs: S|
                    #[trigger] builds(build, m, psi, q, Ok::<S, EqError>(qs)) ==> integ_accepts(
                        integ,
                        qs,
                        psi_axis,
                        psi,
                    )) && (forall|qs: S, out: Seq<X>|
                    #![trigger integrals(integ, qs, psi_axis, psi, out)]
                    builds(build, m, psi, q, Ok::<S, EqError>(qs)) && integrals(
                        integ,
                        qs,
                        psi_axis,
                        psi,
                        out,
                    ) ==> build_accepts(build, m, psi, out)) ==> r is Ok
                &&& r matches Ok(n) ==> {
                    &&& builds(build, m, psi, q, Ok::<S, EqError>(n.q_spline))
                    &&& integrals(integ, n.q_spline, psi_axis, psi, n.psip_data@)
                    &&& builds(build, m, psi, n.psip_data@, Ok::<S, EqError>(n.psip_spline))
                }
                &&& r matches Err(e) ==> builds(build, m, psi, q, Err::<S, EqError>(e)) || exists|
                    qs: S,
                | #[trigger] builds(build, m, psi, q, Ok::<S, EqError>(qs)) && (fails_first(
                    integ,
                    qs,
                    psi_axis,
                    psi,
                    e,
                ) || exists|out: Seq<X>|
                    #[trigger] integrals(integ, qs, psi_axis, psi, out) && builds(
                        build,
                        m,
                        psi,
                        out,
                        Err::<S, EqError>(e),
                    ))
            },
    {
        let m = match Method::from_name(method) {
            Ok(m) => m,
            Err(e) => {
                return Err(e);
            },
        };
        let psi = with_axis_value(psi_axis, psi_raw);
        let q = with_first_repeated(q_raw);
        let q_spline = match build(m, &psi, &q) {
            Ok(s) => s,
            Err(e) => {
                assert(builds(build, m, psi@, q@, Err::<S, EqError>(e)));
                return Err(e);
            },
        };
        assert(builds(build, m, psi@, q@, Ok::<S, EqError>(q_spline)));
        let psip = match integrate_from_axis(&integ, &q_spline, psi_axis, &psi) {
            Ok(v) => v,
            Err(e) => {
                return Err(e);
            },
        };
        let psip_spline = match build(m, &psi, &psip) {
            Ok(s) => s,
            Err(e) => {
                assert(builds(build, m, psi@, psip@, Err::<S, EqError>(e)));
                return Err(e);
            },
        };
        assert(builds(build, m, psi@, psip@, Ok::<S, EqError>(psip_spline)));
        Ok(Numerical { q_spline, psip_spline, psip_data: psip })
    }
}

/// A q-factor profile over the poloidal flux, reconstructed from tabulated
/// `(ψₚ, ψ, q)` samples: `q_spline` interpolates `q(ψₚ)`, `psi_spline` the
/// toroidal flux `ψ(ψₚ)`.
pub struct Qfactor<S> {
    /// Interpolant of the q-factor over ψₚ.
    pub q_spline: S,
    /// Interpolant of the toroidal flux over ψₚ.
    pub psi_spline: S,
}

impl<S> Qfactor<S> {
    /// Builds the profile from the grid `psip_raw` and the samples `psi_raw`
    /// and `q_raw`, all starting off the magnetic axis.
    ///
    /// The grid and the toroidal flux get `axis` (the flux at the axis, zero)
    /// in front; the q samples their first value repeated. `build` makes an
    /// interpolant of the method named `method`, first for q, then for ψ.
    /// The first error is returned as it came.
    pub fn from_samples<X: Copy, B>(
        method: &str,
        axis: X,
        psip_raw: &Vec<X>,
        psi_raw: &Vec<X>,
        q_raw: &Vec<X>,
        build: B,
    ) -> (r: Result<Self>) where B: Fn(Method, &Vec<X>, &Vec<X>) -> Result<S>
        requires
            forall|m: Method, x: &Vec<X>, y: &Vec<X>| build.requires((m, x, y)),
        ensures
            method_named(method@) is None ==> refuses_name(r, method@),
            method_named(method@) matches Some(m) ==> {
                let psip = axis_padded(axis, psip_raw@);
                let psi = axis_padded(axis, psi_raw@);
                let q = first_repeated(q_raw@);
                &&& build_accepts(build, m, psip, q) && build_accepts(build, m, psip, psi)
                    ==> r is Ok
                &&& r matches Ok(n) ==> {
                    &&& builds(build, m, psip, q, Ok::<S, EqError>(n.q_spline))
                    &&& builds(build, m, psip, psi, Ok::<S, EqError>(n.psi_spline))
                }
                &&& r matches Err(e) ==> builds(build, m, psip, q, Err::<S, EqError>(e)) || ((exists|
                    s: S,
                | #[trigger] builds(build, m, psip, q, Ok::<S, EqError>(s))) && builds(
                    build,
                    m,
                    psip,
                    psi,
                    Err::<S, EqError>(e),
                ))
            },
    {
        let m = match Method::from_name(method) {
            Ok(m) => m,
            Err(e) => {
                return Err(e);
            },
        };
        let psip = with_axis_value(axis, psip_raw);
        let psi = with_axis_value(axis, psi_raw);
        let q = with_first_repeated(q_raw);
        let q_spline = match build(m, &psip, &q) {
            Ok(s) => s,
            Err(e) => {
                assert(builds(build, m, psip@, q@, Err::<S, EqError>(e)));
                return Err(e);
            },
        };
        assert(builds(build, m, psip@, q@, Ok::<S, EqError>(q_spline)));
        let psi_spline = match build(m, &psip, &psi) {
            Ok(s) => s,
            Err(e) => {
                assert(builds(build, m, psip@, psi@, Err::<S, EqError>(e)));
                return Err(e);
            },
        };
        assert(builds(build, m, psip@, psi@, Ok::<S, EqError>(psi_spline)));
        Ok(Qfactor { q_spline, psi_spline })
    }
}

} // verus!
