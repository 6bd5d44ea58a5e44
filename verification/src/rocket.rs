//! The thrust vehicle: a rocket that burns propellant until a cutoff
//! time, losing mass while it accelerates, and coasts afterwards.

use vstd::prelude::*;

use crate::engine::{fit_scale, spec_fit_scale, Key, UpdateParams, Viewport};
use crate::formulas::{air_density, earth_gravity, spec_air_density, spec_earth_gravity, spec_temperature, temperature, SURFACE_RADIUS};
use crate::fp::{fp_add, fp_div, fp_mul, fp_neg, fp_sub, spec_add, spec_div, spec_mul, spec_neg, spec_sub, SCALE};
use crate::integrator::{drag_accel, integrate, spec_drag_accel, spec_integrate, Vec2};

verus! {

/// The thrust vehicle.  All quantities are fixed-point; the recorded
/// initial values are what [`Rocket::reset`] restores.
#[derive(Clone, Copy, Debug, PartialEq, Eq, Structural)]
pub struct Rocket {
    /// Current mass; non-increasing while the engine burns.
    pub mass: i64,
    /// Current velocity, horizontal and vertical.
    pub velocity: Vec2,
    /// Current position: horizontal offset and altitude above the surface.
    pub pos: Vec2,
    /// Mass recorded at construction, restored by a reset.
    pub init_mass: i64,
    /// Position recorded at construction, restored by a reset.
    pub init_pos: Vec2,
    /// Exhaust velocity of the engine, both components.
    pub exhaust_velocity: Vec2,
    /// Drag coefficient of the body.
    pub drag_coeff: i64,
    /// Cross-section area the drag acts on.
    pub cross_section: i64,
    /// Propellant mass expelled per second while the engine burns.
    pub mass_flow_rate: i64,
    /// Whether the engine is switched on.
    pub enable_thrust: bool,
    /// Simulation time after which the engine no longer burns.
    pub thrust_time: i64,
    /// Latched once the trajectory has passed its peak; cleared only by
    /// a reset.
    pub apoapsis_reached: bool,
}

/// One physics step of the rocket.
///
/// A grounded vehicle (altitude below zero) is frozen and returns
/// unchanged.  Otherwise, in order: the apoapsis flag latches on a
/// forward step (a positive time delta) whose starting vertical
/// velocity is no longer positive — the trajectory is at or past its
/// peak; a projected-altitude comparison would miss the exact peak and
/// any descent slower than the fixed-point resolution.  Density is
/// taken at the old altitude; position integrates with the old
/// velocity; drag (if
/// enabled) acts on each axis and gravity (if enabled) on the vertical
/// axis, gravity evaluated at the new altitude; last, while the clock
/// has not passed the cutoff, the engine is on and the propellant left
/// keeps the mass positive, thrust `mass_flow_rate * exhaust_velocity /
/// mass` is added to the velocity and the burnt propellant leaves the
/// mass.
pub open spec fn spec_rocket_update(r: Rocket, p: UpdateParams) -> Rocket {
    if r.pos.y < 0 {
        r
    } else {
        let apo = r.apoapsis_reached || (p.time_delta > 0 && r.velocity.y <= 0);
        let temp = spec_temperature(r.pos.y as int);
        let density = spec_air_density(spec_add(r.pos.y as int, SURFACE_RADIUS as int), temp);
        let px = spec_integrate(r.pos.x as int, r.velocity.x as int, p.time_delta as int);
        let py = spec_integrate(r.pos.y as int, r.velocity.y as int, p.time_delta as int);
        let ax = if p.enable_drag {
            spec_drag_accel(density, r.velocity.x as int, r.drag_coeff as int, r.cross_section as int, r.mass as int)
        } else {
            0
        };
        let gy = if p.enable_gravity {
            spec_neg(spec_earth_gravity(spec_add(py, SURFACE_RADIUS as int)))
        } else {
            0
        };
        let dy = if p.enable_drag {
            spec_drag_accel(density, r.velocity.y as int, r.drag_coeff as int, r.cross_section as int, r.mass as int)
        } else {
            0
        };
        let vx = spec_integrate(r.velocity.x as int, ax, p.time_delta as int);
        let vy = spec_integrate(r.velocity.y as int, spec_add(gy, dy), p.time_delta as int);
        let new_mass = spec_sub(r.mass as int, spec_mul(p.time_delta as int, r.mass_flow_rate as int));
        let thrusting = p.time <= r.thrust_time && r.enable_thrust && new_mass > 0;
        if thrusting {
            let tx = spec_div(spec_mul(r.mass_flow_rate as int, r.exhaust_velocity.x as int), r.mass as int);
            let ty = spec_div(spec_mul(r.mass_flow_rate as int, r.exhaust_velocity.y as int), r.mass as int);
            Rocket {
                mass: new_mass as i64,
                velocity: Vec2 {
                    x: spec_add(vx, spec_mul(p.time_delta as int, tx)) as i64,
                    y: spec_add(vy, spec_mul(p.time_delta as int, ty)) as i64,
                },
                pos: (Vec2 { x: px as i64, y: py as i64 }),
                apoapsis_reached: apo,
                ..r
            }
        } else {
            Rocket {
                velocity: (Vec2 { x: vx as i64, y: vy as i64 }),
                pos: (Vec2 { x: px as i64, y: py as i64 }),
                apoapsis_reached: apo,
                ..r
            }
        }
    }
}

/// The state a reset restores: initial mass and position, a vehicle at
/// rest, the apoapsis latch cleared.  The recorded constants stay.
pub open spec fn spec_rocket_reset(r: Rocket) -> Rocket {
    Rocket {
        mass: r.init_mass,
        velocity: (Vec2 { x: 0, y: 0 }),
        pos: r.init_pos,
        apoapsis_reached: false,
        ..r
    }
}

/// The effect of one key event on the rocket: exhaust nudges of one
/// hundred whole units on the horizontal component, and the thrust
/// toggle.  Every other key leaves the rocket unchanged.
pub open spec fn spec_rocket_input(r: Rocket, key: Key) -> Rocket {
    match key {
        Key::ExhaustLeft => Rocket {
            exhaust_velocity: (Vec2 {
                x: spec_sub(r.exhaust_velocity.x as int, 100 * SCALE) as i64,
                ..r.exhaust_velocity
            }),
            ..r
        },
        Key::ExhaustRight => Rocket {
            exhaust_velocity: (Vec2 {
                x: spec_add(r.exhaust_velocity.x as int, 100 * SCALE) as i64,
                ..r.exhaust_velocity
            }),
            ..r
        },
        Key::ThrustToggle => Rocket { enable_thrust: !r.enable_thrust, ..r },
        _ => r,
    }
}

impl Rocket {
    /// Advance the rocket by one physics step under the given shared
    /// parameters.
    pub fn update(&mut self, settings: &UpdateParams)
        ensures
            *final(self) == spec_rocket_update(*old(self), *settings),
    {
        if self.pos.y < 0 {
            return;
        }
        if settings.time_delta > 0 && self.velocity.y <= 0 && !self.apoapsis_reached {
            self.apoapsis_reached = true;
        }
        let temp = temperature(self.pos.y);
        let density = air_density(fp_add(self.pos.y, SURFACE_RADIUS), temp);
        self.pos.x = integrate(self.pos.x, self.velocity.x, settings.time_delta);
        self.pos.y = integrate(self.pos.y, self.velocity.y, settings.time_delta);
        let ax = if settings.enable_drag {
            drag_accel(density, self.velocity.x, self.drag_coeff, self.cross_section, self.mass)
        } else {
            0
        };
        let gy = if settings.enable_gravity {
            fp_neg(earth_gravity(fp_add(self.pos.y, SURFACE_RADIUS)))
        } else {
            0
        };
        let dy = if settings.enable_drag {
            drag_accel(density, self.velocity.y, self.drag_coeff, self.cross_section, self.mass)
        } else {
            0
        };
        self.velocity.x = integrate(self.velocity.x, ax, settings.time_delta);
        self.velocity.y = integrate(self.velocity.y, fp_add(gy, dy), settings.time_delta);
        let new_mass = fp_sub(self.mass, fp_mul(settings.time_delta, self.mass_flow_rate));
        if settings.time <= self.thrust_time && self.enable_thrust && new_mass > 0 {
            let tx = fp_div(fp_mul(self.mass_flow_rate, self.exhaust_velocity.x), self.mass);
            let ty = fp_div(fp_mul(self.mass_flow_rate, self.exhaust_velocity.y), self.mass);
            self.velocity.x = fp_add(self.velocity.x, fp_mul(settings.time_delta, tx));
            self.velocity.y = fp_add(self.velocity.y, fp_mul(settings.time_delta, ty));
            self.mass = new_mass;
        }
    }

    /// Restore the recorded initial state and clear the apoapsis latch.
    pub fn reset(&mut self)
        ensures
            *final(self) == spec_rocket_reset(*old(self)),
    {
        self.mass = self.init_mass;
        self.velocity = Vec2 { x: 0, y: 0 };
        self.pos = self.init_pos;
        self.apoapsis_reached = false;
    }

    /// React to one key event.
    pub fn take_input(&mut self, key: Key)
        ensures
            *final(self) == spec_rocket_input(*old(self), key),
    {
        match key {
            Key::ExhaustLeft => {
                self.exhaust_velocity.x = fp_sub(self.exhaust_velocity.x, 100 * SCALE);
            },
            Key::ExhaustRight => {
                self.exhaust_velocity.x = fp_add(self.exhaust_velocity.x, 100 * SCALE);
            },
            Key::ThrustToggle => {
                self.enable_thrust = !self.enable_thrust;
            },
            _ => {},
        }
    }

    /// Whether the engine is burning under the given shared
    /// parameters: switched on, with the clock not past the cutoff.
    /// This is the thrust-active observable a presentation layer reads
    /// to draw a flame.
    pub fn thrust_active(&self, settings: &UpdateParams) -> (active: bool)
        ensures
            active == (settings.time <= self.thrust_time && self.enable_thrust),
    {
        settings.time <= self.thrust_time && self.enable_thrust
    }

    /// The render scale this vehicle asks for in the given viewport.
    pub fn scale(&self, vp: &Viewport) -> (s: i64)
        ensures
            s as int == spec_fit_scale(self.pos.x as int, self.pos.y as int, *vp),
    {
        fit_scale(self.pos.x, self.pos.y, vp)
    }
}

} // verus!
