use std::cell::Cell;

use tokamak_equilibria::pipeline::{integrate_from_axis, with_axis_value, with_first_repeated};
use tokamak_equilibria::{EqError, Result};

#[test]
fn axis_value_is_prepended() {
    assert_eq!(with_axis_value(0.0, &vec![0.1, 0.2]), vec![0.0, 0.1, 0.2]);
    assert_eq!(with_axis_value(0.0, &vec![]), vec![0.0]);
}

#[test]
fn first_value_is_repeated() {
    assert_eq!(with_first_repeated(&vec![0.9, 1.2, 1.5]), vec![0.9, 0.9, 1.2, 1.5]);
    assert_eq!(with_first_repeated::<f64>(&vec![]), Vec::<f64>::new());
}

/// A piecewise-linear interpolant, standing in for the backend.
struct Polyline {
    xa: Vec<f64>,
    ya: Vec<f64>,
}

impl Polyline {
    fn value(&self, x: f64) -> f64 {
        let k = self.xa.windows(2).position(|w| x <= w[1]).unwrap();
        let t = (x - self.xa[k]) / (self.xa[k + 1] - self.xa[k]);
        self.ya[k] + t * (self.ya[k + 1] - self.ya[k])
    }

    /// Trapezoid rule over the breakpoints, exact for a polyline.
    fn integral(&self, a: f64, b: f64) -> Result<f64> {
        let (lo, hi) = (self.xa[0], self.xa[self.xa.len() - 1]);
        for x in [a, b] {
            if x < lo || x > hi {
                return Err(EqError::NcError(format!("outside: {}", x)));
            }
        }
        let mut pts = vec![a];
        pts.extend(self.xa.iter().copied().filter(|x| *x > a && *x < b));
        pts.push(b);
        Ok(pts.windows(2).map(|w| 0.5 * (w[1] - w[0]) * (self.value(w[0]) + self.value(w[1]))).sum())
    }
}

fn integ(s: &Polyline, a: f64, b: f64) -> Result<f64> {
    s.integral(a, b)
}

#[test]
fn integrals_from_the_axis() {
    // y = 2x, whose integral from 0 to x is x².
    let xa = vec![0.0, 0.5, 1.0, 1.5, 2.0];
    let ya: Vec<f64> = xa.iter().map(|x| 2.0 * x).collect();
    let s = Polyline { xa: xa.clone(), ya };
    let out = integrate_from_axis(&integ, &s, 0.0, &xa).unwrap();
    assert_eq!(out.len(), xa.len());
    for (x, v) in xa.iter().zip(out.iter()) {
        assert!((v - x * x).abs() < 1e-12, "{} vs {}", v, x * x);
    }
}

#[test]
fn integration_stops_at_the_first_error() {
    let calls = Cell::new(0u32);
    let grid = vec![0.0, 0.1, 0.2, 0.3, 0.4];
    let failing = |_s: &(), _a: f64, b: f64| -> Result<f64> {
        calls.set(calls.get() + 1);
        if b > 0.15 {
            Err(EqError::NcError(format!("at {}", b)))
        } else {
            Ok(b)
        }
    };
    match integrate_from_axis(&failing, &(), 0.0, &grid) {
        Err(EqError::NcError(m)) => assert_eq!(m, "at 0.2"),
        other => panic!("unexpected: {:?}", other),
    }
    assert_eq!(calls.get(), 3);
}

#[test]
fn errors_pass_through_unchanged() {
    let s = Polyline { xa: vec![0.0, 1.0, 2.0], ya: vec![1.0, 1.0, 1.0] };
    match integrate_from_axis(&integ, &s, 0.0, &vec![0.5, 3.0]) {
        Err(EqError::NcError(m)) => assert_eq!(m, "outside: 3"),
        other => panic!("unexpected: {:?}", other),
    }
}
