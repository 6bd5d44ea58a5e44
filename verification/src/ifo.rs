//! The coast vehicle: a falling body with constant mass and no engine.
//! It shares the rocket's drag and gravity laws but accepts no
//! vehicle-specific input.

use vstd::prelude::*;

use crate::engine::{fit_scale, spec_fit_scale, Key, UpdateParams, Viewport};
use crate::formulas::{air_density, earth_gravity, spec_air_density, spec_earth_gravity, spec_temperature, temperature, SURFACE_RADIUS};
use crate::fp::{fp_add, fp_neg, spec_add, spec_neg};
use crate::integrator::{drag_accel, integrate, spec_drag_accel, spec_integrate, Vec2};

verus! {

/// The coast vehicle.  All quantities are fixed-point; the recorded
/// initial position is what [`IFO::reset`] restores.
#[derive(Clone, Copy, Debug, PartialEq, Eq, Structural)]
pub struct IFO {
    /// Current velocity, horizontal and vertical.
    pub velocity: Vec2,
    /// Current position: horizontal offset and altitude above the surface.
    pub pos: Vec2,
    /// Constant mass of the body.
    pub mass: i64,
    /// Drag coefficient of the body.
    pub drag_coeff: i64,
    /// Cross-section area the drag acts on.
    pub cross_section: i64,
    /// Position recorded at construction, restored by a reset.
    pub init_pos: Vec2,
    /// Latched once the trajectory has passed its peak; cleared only by
    /// a reset.
    pub apoapsis_reached: bool,
}

/// One physics step of the coast vehicle: the rocket's step without the
/// thrust stage.  A grounded vehicle is frozen; the apoapsis flag
/// latches on a forward step (a positive time delta) whose starting
/// vertical velocity is no longer positive — the trajectory is at or
/// past its peak; density is taken at the old altitude; position
/// integrates with the old velocity; then drag (if enabled) acts on
/// each axis and gravity (if enabled) on the vertical axis, gravity
/// evaluated at the new altitude.
pub open spec fn spec_ifo_update(f: IFO, p: UpdateParams) -> IFO {
    if f.pos.y < 0 {
        f
    } else {
        let apo = f.apoapsis_reached || (p.time_delta > 0 && f.velocity.y <= 0);
        let temp = spec_temperature(f.pos.y as int);
        let density = spec_air_density(spec_add(f.pos.y as int, SURFACE_RADIUS as int), temp);
        let px = spec_integrate(f.pos.x as int, f.velocity.x as int, p.time_delta as int);
        let py = spec_integrate(f.pos.y as int, f.velocity.y as int, p.time_delta as int);
        let gy = if p.enable_gravity {
            spec_neg(spec_earth_gravity(spec_add(py, SURFACE_RADIUS as int)))
        } else {
            0
        };
        let dy = if p.enable_drag {
            spec_drag_accel(density, f.velocity.y as int, f.drag_coeff as int, f.cross_section as int, f.mass as int)
        } else {
            0
        };
        let ax = if p.enable_drag {
            spec_drag_accel(density, f.velocity.x as int, f.drag_coeff as int, f.cross_section as int, f.mass as int)
        } else {
            0
        };
        IFO {
            velocity: (Vec2 {
                x: spec_integrate(f.velocity.x as int, ax, p.time_delta as int) as i64,
                y: spec_integrate(f.velocity.y as int, spec_add(gy, dy), p.time_delta as int) as i64,
            }),
            pos: (Vec2 { x: px as i64, y: py as i64 }),
            apoapsis_reached: apo,
            ..f
        }
    }
}

/// The state a reset restores: the recorded initial position, a vehicle
/// at rest, the apoapsis latch cleared.
pub open spec fn spec_ifo_reset(f: IFO) -> IFO {
    IFO { velocity: (Vec2 { x: 0, y: 0 }), pos: f.init_pos, apoapsis_reached: false, ..f }
}

impl IFO {
    /// Advance the vehicle by one physics step under the given shared
    /// parameters.
    pub fn update(&mut self, settings: &UpdateParams)
        ensures
            *final(self) == spec_ifo_update(*old(self), *settings),
    {
        if self.pos.y < 0 {
            return;
        }
        if settings.time_delta > 0 && self.velocity.y <= 0 && !self.apoapsis_reached {
            self.apoapsis_reached = true;
        }
        let temp = temperature(self.pos.y);
        let density = air_density(fp_add(self.pos.y, SURFACE_RADIUS), temp);
        self.pos.x = integrate(self.pos.x, self.velocity.x, settings.time_delta);
        self.pos.y = integrate(self.pos.y, self.velocity.y, settings.time_delta);
        let gy = if settings.enable_gravity {
            fp_neg(earth_gravity(fp_add(self.pos.y, SURFACE_RADIUS)))
        } else {
            0
        };
        let dy = if settings.enable_drag {
            drag_accel(density, self.velocity.y, self.drag_coeff, self.cross_section, self.mass)
        } else {
            0
        };
        let ax = if settings.enable_drag {
            drag_accel(density, self.velocity.x, self.drag_coeff, self.cross_section, self.mass)
        } else {
            0
        };
        self.velocity.y = integrate(self.velocity.y, fp_add(gy, dy), settings.time_delta);
        self.velocity.x = integrate(self.velocity.x, ax, settings.time_delta);
    }

    /// Restore the recorded initial state and clear the apoapsis latch.
    pub fn reset(&mut self)
        ensures
            *final(self) == spec_ifo_reset(*old(self)),
    {
        self.velocity = Vec2 { x: 0, y: 0 };
        self.pos = self.init_pos;
        self.apoapsis_reached = false;
    }

    /// React to one key event; the coast vehicle ignores every key.
    pub fn take_input(&mut self, key: Key)
        ensures
            *final(self) == *old(self),
    {
        match key {
            _ => {},
        }
    }

    /// The render scale this vehicle asks for in the given viewport.
    pub fn scale(&self, vp: &Viewport) -> (s: i64)
        ensures
            s as int == spec_fit_scale(self.pos.x as int, self.pos.y as int, *vp),
    {
        fit_scale(self.pos.x, self.pos.y, vp)
    }
}

} // verus!
