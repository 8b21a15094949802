//! Magnetic field profiles.
use vstd::prelude::*;

use crate::method::{method2d_named, refuses_name, Method2d};
use crate::pipeline::{
    axis_padded, builds2d, with_axis_value,
};
use crate::table::Table;
use crate::EqError;
use crate::Result;

verus! {

/// The large-aspect-ratio magnetic field `B(ψ, θ) = 1 − √(2ψ)·cos θ`.
pub struct Lar;

impl Lar {
    /// Creates the large-aspect-ratio field profile.
    pub fn new() -> (r: Result<Self>)
        ensures
            r is Ok,
    {
        Ok(Lar)
    }
}

/// A magnetic field reconstructed from a table of `|B|` over `(ψₚ, θ)`.
pub struct Numerical<S, X> {
    /// Interpolant of `|B|` over `(ψₚ, θ)`.
    pub b_spline: S,
    /// The table the interpolant was built from: one row per ψₚ grid point,
    /// the axis row first, one column per θ grid point.
    pub b_data: Table<X>,
}

impl<S, X: Copy> Numerical<S, X> {
    /// Builds the field from the ψₚ grid `psip_raw` (which starts off the
    /// magnetic axis), the θ grid `theta`, and the table `b_raw` of `|B|`
    /// with one row per ψₚ and one column per θ grid point.
    ///
    /// The grid gets `psip_axis` (the flux at the axis, zero) in front, and
    /// the table a first row of `b_axis` (the normalised field on the axis,
    /// one). `build` makes an interpolant of the method named `method` from
    /// the two grids and the table's samples in the order the backend reads
    /// them (ψₚ running fastest). Its error is returned as it came.
    pub fn from_samples<B>(
        method: &str,
        psip_axis: X,
        b_axis: X,
        psip_raw: &Vec<X>,
        theta: &Vec<X>,
        b_raw: &Table<X>,
        build: B,
    ) -> (r: Result<Self>) where B: Fn(Method2d, &Vec<X>, &Vec<X>, &Vec<X>) -> Result<S>
        requires
            forall|m: Method2d, x: &Vec<X>, y: &Vec<X>, z: &Vec<X>| build.requires((m, x, y, z)),
            b_raw.n_rows() + 1 <= usize::MAX,
            (b_raw.n_rows() + 1) * b_raw.n_cols() <= usize::MAX,
        ensures
            method2d_named(method@) is None ==> refuses_name(r, method@),
            method2d_named(method@) matches Some(m) ==> {
                let psip = axis_padded(psip_axis, psip_raw@);
                &&& (forall|z: Seq<X>, r0: Result<S>|
                    b_raw.is_axis_padded_grid(z, b_axis) && #[trigger] builds2d(
                        build,
                        m,
                        psip,
                        theta@,
                        z,
                        r0,
                    ) ==> r0 is Ok) ==> r is Ok
                &&& r matches Ok(n) ==> {
                    &&& n.b_data.is_axis_padded(b_raw, b_axis)
                    &&& b_raw.is_axis_padded_grid(n.b_data.grid_order(), b_axis)
                    &&& builds2d(
                        build,
                        m,
                        psip,
                        theta@,
                        n.b_data.grid_order(),
                        Ok::<S, EqError>(n.b_spline),
                    )
                }
                &&& r matches Err(e) ==> exists|z: Seq<X>|
                    b_raw.is_axis_padded_grid(z, b_axis) && #[trigger] builds2d(
                        build,
                        m,
                        psip,
                        theta@,
                        z,
                        Err::<S, EqError>(e),
                    )
            },
    {
        let m = match Method2d::from_name(method) {
            Ok(m) => m,
            Err(e) => {
                return Err(e);
            },
        };
        let psip = with_axis_value(psip_axis, psip_raw);
        let b_data = b_raw.with_axis_row(b_axis);
        let grid = b_data.to_grid_order();
        proof {
            let rows = b_raw.n_rows() + 1;
            assert forall|j: int| 0 <= j < b_raw.n_cols() implies #[trigger] grid@[j * rows]
                == b_axis by {
                assert(grid@[j * rows + 0] == b_data.entry(0, j));
            }
            assert forall|i: int, j: int|
                0 <= i < b_raw.n_rows() && 0 <= j < b_raw.n_cols() implies grid@[j * rows + i + 1]
                == #[trigger] b_raw.entry(i, j) by {
                assert(grid@[j * rows + (i + 1)] == b_data.entry(i + 1, j));
            }
            assert(b_raw.is_axis_padded_grid(grid@, b_axis));
        }
        match build(m, &psip, theta, &grid) {
            Ok(b_spline) => {
                assert(builds2d(build, m, psip@, theta@, grid@, Ok::<S, EqError>(b_spline)));
                Ok(Numerical { b_spline, b_data })
            },
            Err(e) => {
                assert(builds2d(build, m, psip@, theta@, grid@, Err::<S, EqError>(e)));
                Err(e)
            },
        }
    }
}

} // verus!
