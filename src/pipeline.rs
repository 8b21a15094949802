//! Preparation of tabulated samples for interpolation, and what the
//! construction of a reconstructed profile asks of the interpolation backend.
//!
//! The backend is handed in by the caller as functions: one that builds an
//! interpolant from a method and sample arrays, and one that integrates an
//! interpolant between two points. Every statement below about what a
//! construction returns is made in terms of what those functions may return.
use vstd::prelude::*;

use crate::method::{Method, Method2d};
use crate::EqError;
use crate::Result;

verus! {

/// `v` with `axis` put before its first sample.
pub open spec fn axis_padded<X>(axis: X, v: Seq<X>) -> Seq<X> {
    seq![axis] + v
}

/// `v` with its first sample repeated in front; an empty `v` stays empty.
pub open spec fn first_repeated<X>(v: Seq<X>) -> Seq<X> {
    if v.len() == 0 {
        v
    } else {
        seq![v[0]] + v
    }
}

/// `build`, given `m` and arrays holding `x` and `y`, may return `r`.
pub open spec fn builds<S, X, B>(build: B, m: Method, x: Seq<X>, y: Seq<X>, r: Result<S>) -> bool where
    B: Fn(Method, &Vec<X>, &Vec<X>) -> Result<S>,
 {
    exists|xv: Vec<X>, yv: Vec<X>|
        xv@ == x && yv@ == y && #[trigger] build.ensures((m, &xv, &yv), r)
}

/// `build`, given `m` and arrays holding `x`, `y` and `z`, may return `r`.
pub open spec fn builds2d<S, X, B>(
    build: B,
    m: Method2d,
    x: Seq<X>,
    y: Seq<X>,
    z: Seq<X>,
    r: Result<S>,
) -> bool where B: Fn(Method2d, &Vec<X>, &Vec<X>, &Vec<X>) -> Result<S> {
    exists|xv: Vec<X>, yv: Vec<X>, zv: Vec<X>|
        xv@ == x && yv@ == y && zv@ == z && #[trigger] build.ensures((m, &xv, &yv, &zv), r)
}

/// Whatever `build` returns for `m` and arrays holding `x` and `y` is `Ok`.
pub open spec fn build_accepts<S, X, B>(build: B, m: Method, x: Seq<X>, y: Seq<X>) -> bool where
    B: Fn(Method, &Vec<X>, &Vec<X>) -> Result<S>,
 {
    forall|r: Result<S>| #[trigger] builds(build, m, x, y, r) ==> r is Ok
}

/// `out` holds, for each point `grid[i]`, a value that `integ` may return for
/// the integral of `s` from `axis` to that point.
pub open spec fn integrals<S, X, I>(integ: I, s: S, axis: X, grid: Seq<X>, out: Seq<X>) -> bool where
    I: Fn(&S, X, X) -> Result<X>,
 {
    &&& out.len() == grid.len()
    &&& forall|i: int|
        0 <= i < grid.len() ==> integ.ensures((&s, axis, grid[i]), Ok(#[trigger] out[i]))
}

/// Whatever `integ` returns for the integral of `s` from `axis` to a point
/// of `grid` is `Ok`.
pub open spec fn integ_accepts<S, X, I>(integ: I, s: S, axis: X, grid: Seq<X>) -> bool where
    I: Fn(&S, X, X) -> Result<X>,
 {
    forall|i: int, r: Result<X>|
        0 <= i < grid.len() && #[trigger] integ.ensures((&s, axis, grid[i]), r) ==> r is Ok
}

/// Integrating `s` from `axis` to the points of `grid` in order, the first
/// point on which `integ` failed failed with `e`: every point before it gave
/// a value.
pub open spec fn fails_first<S, X, I>(integ: I, s: S, axis: X, grid: Seq<X>, e: EqError) -> bool where
    I: Fn(&S, X, X) -> Result<X>,
 {
    exists|k: int, out: Seq<X>|
        0 <= k < grid.len() && #[trigger] integrals(integ, s, axis, grid.take(k), out)
            && integ.ensures((&s, axis, grid[k]), Err::<X, EqError>(e))
}

/// `v` with `axis` put before its first sample: the sample at the magnetic
/// axis, which the dataset does not hold.
pub fn with_axis_value<X: Copy>(axis: X, v: &Vec<X>) -> (r: Vec<X>)
    ensures
        r@ == axis_padded(axis, v@),
{
    let mut r: Vec<X> = Vec::new();
    r.push(axis);
    let mut i: usize = 0;
    while i < v.len()
        invariant
            i <= v@.len(),
            r@ == axis_padded(axis, v@.take(i as int)),
        decreases v@.len() - i,
    {
        r.push(v[i]);
        i += 1;
        assert(v@.take(i as int) =~= v@.take(i - 1) + seq![v@[i - 1]]);
    }
    assert(v@.take(v@.len() as int) =~= v@);
    r
}

/// `v` with its first sample repeated in front, so that the first grid point
/// (the magnetic axis) gets the value of the first tabulated one.
pub fn with_first_repeated<X: Copy>(v: &Vec<X>) -> (r: Vec<X>)
    ensures
        r@ == first_repeated(v@),
{
    if v.len() == 0 {
        Vec::new()
    } else {
        with_axis_value(v[0], v)
    }
}

/// The integrals of `s` from `axis` to each point of `grid`, by `integ`,
/// in the order of the grid. The first error that `integ` returns is
/// returned unchanged, and no further point is integrated.
pub fn integrate_from_axis<S, X: Copy, I>(integ: &I, s: &S, axis: X, grid: &Vec<X>) -> (r: Result<
    Vec<X>,
>) where I: Fn(&S, X, X) -> Result<X>
    requires
        forall|t: &S, a: X, b: X| integ.requires((t, a, b)),
    ensures
        r matches Ok(out) ==> integrals(*integ, *s, axis, grid@, out@),
        r matches Err(e) ==> fails_first(*integ, *s, axis, grid@, e),
        integ_accepts(*integ, *s, axis, grid@) ==> r is Ok,
{
    let mut out: Vec<X> = Vec::new();
    let mut i: usize = 0;
    while i < grid.len()
        invariant
            forall|t: &S, a: X, b: X| integ.requires((t, a, b)),
            i <= grid@.len(),
            out@.len() == i,
            forall|k: int| 0 <= k < i ==> integ.ensures((s, axis, grid@[k]), Ok(#[trigger] out@[k])),
        decreases grid@.len() - i,
    {
        match integ(s, axis, grid[i]) {
            Ok(v) => out.push(v),
            Err(e) => {
                assert(integrals(*integ, *s, axis, grid@.take(i as int), out@));
                return Err(e);
            },
        }
        i += 1;
    }
    Ok(out)
}

} // verus!
