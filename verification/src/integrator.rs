//! Fixed-step semi-implicit Euler integration and the shared quadratic
//! drag law.
//!
//! One component of kinematic state advances by `value + dt * rate`.
//! The vehicles apply it with a fixed ordering: position first, using
//! the velocity from before the step, then velocity, using the freshly
//! computed acceleration.  That ordering is part of the contract of
//! every vehicle update and keeps trajectories reproducible.

use vstd::prelude::*;

use crate::fp::{
    fp_abs, fp_add, fp_div, fp_mul, fp_neg, spec_add, spec_div, spec_fabs, spec_mul, spec_neg,
    HALF,
};

verus! {

/// A two-component vector of fixed-point values: horizontal coordinate
/// first, altitude second.
#[derive(Clone, Copy, Debug, PartialEq, Eq, Structural)]
pub struct Vec2 {
    pub x: i64,
    pub y: i64,
}

/// One Euler step of a single state component: the value advanced by
/// the step length times its rate of change.
pub open spec fn spec_integrate(value: int, rate: int, dt: int) -> int {
    spec_add(value, spec_mul(dt, rate))
}

/// Advance one state component by one fixed time step.
pub fn integrate(value: i64, rate: i64, dt: i64) -> (r: i64)
    ensures
        r as int == spec_integrate(value as int, rate as int, dt as int),
{
    fp_add(value, fp_mul(dt, rate))
}

/// Quadratic drag deceleration along one axis:
/// `-(1/2) * density * v * |v| * drag_coeff * cross_section / mass`,
/// multiplied out left to right.  The `v * |v|` form keeps the sign of
/// the velocity, so the deceleration always opposes the current
/// direction of motion.  A non-positive mass contributes no
/// acceleration at all, so the law is total.
pub open spec fn spec_drag_accel(
    density: int,
    v: int,
    drag_coeff: int,
    cross_section: int,
    mass: int,
) -> int {
    if mass <= 0 {
        0
    } else {
        let q = spec_mul(
            spec_mul(spec_mul(spec_mul(HALF as int, density), spec_mul(v, spec_fabs(v))), drag_coeff),
            cross_section,
        );
        spec_neg(spec_div(q, mass))
    }
}

/// Quadratic drag deceleration along one axis.
pub fn drag_accel(density: i64, v: i64, drag_coeff: i64, cross_section: i64, mass: i64) -> (a: i64)
    ensures
        a as int == spec_drag_accel(
            density as int,
            v as int,
            drag_coeff as int,
            cross_section as int,
            mass as int,
        ),
{
    if mass <= 0 {
        0
    } else {
        let q = fp_mul(fp_mul(fp_mul(fp_mul(HALF, density), fp_mul(v, fp_abs(v))), drag_coeff), cross_section);
        fp_neg(fp_div(q, mass))
    }
}

} // verus!
