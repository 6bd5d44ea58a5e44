//! Laws of the simulation: properties that hold across whole runs.
//!
//! A run is a sequence of per-tick parameter values, applied in order;
//! the parameters may change between ticks, the way the frame driver
//! and the key toggles change them in a live simulation.

use vstd::prelude::*;

use crate::engine::{
    spec_object_pos, spec_object_reset, spec_object_update, Object, UpdateParams,
};
use crate::fp::{lemma_mul_nonneg, spec_mul, spec_sub};
use crate::integrator::{spec_integrate, Vec2};
use crate::rocket::Rocket;

verus! {

/// The vehicle after a whole run: every parameter record applied once,
/// in sequence order.
pub open spec fn spec_object_run(o: Object, ps: Seq<UpdateParams>) -> Object
    decreases ps.len(),
{
    if ps.len() == 0 {
        o
    } else {
        spec_object_update(spec_object_run(o, ps.drop_last()), ps.last())
    }
}

/// The current velocity of either vehicle.
pub open spec fn spec_object_vel(o: Object) -> Vec2 {
    match o {
        Object::Rocket(r) => r.velocity,
        Object::Ifo(f) => f.velocity,
    }
}

/// The current mass of either vehicle.
pub open spec fn spec_object_mass(o: Object) -> int {
    match o {
        Object::Rocket(r) => r.mass as int,
        Object::Ifo(f) => f.mass as int,
    }
}

/// Whether the apoapsis latch of either vehicle is set.
pub open spec fn spec_object_apo(o: Object) -> bool {
    match o {
        Object::Rocket(r) => r.apoapsis_reached,
        Object::Ifo(f) => f.apoapsis_reached,
    }
}

/// Whether the vehicle's engine cannot fire under the given parameters:
/// the coast vehicle never thrusts, the rocket only with its engine on
/// and the clock not past the cutoff.
pub open spec fn spec_nonthrusting(o: Object, p: UpdateParams) -> bool {
    match o {
        Object::Rocket(r) => !(p.time <= r.thrust_time && r.enable_thrust),
        Object::Ifo(_) => true,
    }
}

/// Whether the vehicle's engine is switched off outright.
pub open spec fn spec_thrust_off(o: Object) -> bool {
    match o {
        Object::Rocket(r) => !r.enable_thrust,
        Object::Ifo(_) => true,
    }
}

/// An update changes only the vehicle's state, never its recorded
/// constants, its engine switch or its variant.
pub proof fn lemma_update_keeps_config(o: Object, p: UpdateParams)
    ensures
        spec_object_update(o, p) is Rocket <==> o is Rocket,
        o matches Object::Rocket(r) ==> spec_object_update(o, p) matches Object::Rocket(r2)
            && r2.init_mass == r.init_mass && r2.init_pos == r.init_pos
            && r2.exhaust_velocity == r.exhaust_velocity && r2.drag_coeff == r.drag_coeff
            && r2.cross_section == r.cross_section && r2.mass_flow_rate == r.mass_flow_rate
            && r2.enable_thrust == r.enable_thrust && r2.thrust_time == r.thrust_time,
        o matches Object::Ifo(f) ==> spec_object_update(o, p) matches Object::Ifo(f2)
            && f2.mass == f.mass && f2.drag_coeff == f.drag_coeff
            && f2.cross_section == f.cross_section && f2.init_pos == f.init_pos,
{
}

/// A run changes only the vehicle's state, never its recorded
/// constants, its engine switch or its variant.
pub proof fn lemma_run_keeps_config(o: Object, ps: Seq<UpdateParams>)
    ensures
        spec_object_run(o, ps) is Rocket <==> o is Rocket,
        o matches Object::Rocket(r) ==> spec_object_run(o, ps) matches Object::Rocket(r2)
            && r2.init_mass == r.init_mass && r2.init_pos == r.init_pos
            && r2.exhaust_velocity == r.exhaust_velocity && r2.drag_coeff == r.drag_coeff
            && r2.cross_section == r.cross_section && r2.mass_flow_rate == r.mass_flow_rate
            && r2.enable_thrust == r.enable_thrust && r2.thrust_time == r.thrust_time,
        o matches Object::Ifo(f) ==> spec_object_run(o, ps) matches Object::Ifo(f2)
            && f2.mass == f.mass && f2.drag_coeff == f.drag_coeff
            && f2.cross_section == f.cross_section && f2.init_pos == f.init_pos,
    decreases ps.len(),
{
    if ps.len() > 0 {
        lemma_run_keeps_config(o, ps.drop_last());
        lemma_update_keeps_config(spec_object_run(o, ps.drop_last()), ps.last());
    }
}

/// Idempotent reset: however many updates a vehicle has seen, a reset
/// restores exactly the state a reset of the untouched vehicle gives.
pub proof fn lemma_reset_erases_updates(o: Object, ps: Seq<UpdateParams>)
    ensures
        spec_object_reset(spec_object_run(o, ps)) == spec_object_reset(o),
    decreases ps.len(),
{
    if ps.len() > 0 {
        lemma_reset_erases_updates(o, ps.drop_last());
        lemma_update_keeps_config(spec_object_run(o, ps.drop_last()), ps.last());
    }
}

/// Idempotent reset, at the fresh vehicle: a vehicle constructed at
/// rest in its recorded initial state comes back to exactly that state,
/// whatever updates it has seen.
pub proof fn lemma_reset_restores_fresh(o: Object, ps: Seq<UpdateParams>)
    requires
        o == spec_object_reset(o),
    ensures
        spec_object_reset(spec_object_run(o, ps)) == o,
{
    lemma_reset_erases_updates(o, ps);
}

/// Ground freeze: once the altitude is below zero, any number of
/// updates leaves the whole vehicle state unchanged.
pub proof fn lemma_grounded_frozen(o: Object, ps: Seq<UpdateParams>)
    requires
        spec_object_pos(o).y < 0,
    ensures
        spec_object_run(o, ps) == o,
    decreases ps.len(),
{
    if ps.len() > 0 {
        lemma_grounded_frozen(o, ps.drop_last());
    }
}

/// Apoapsis latch: once the flag is set, no run of updates clears it;
/// only a reset does.
pub proof fn lemma_apoapsis_latched(o: Object, ps: Seq<UpdateParams>)
    requires
        spec_object_apo(o),
    ensures
        spec_object_apo(spec_object_run(o, ps)),
    decreases ps.len(),
{
    if ps.len() > 0 {
        lemma_apoapsis_latched(o, ps.drop_last());
    }
}

/// Monotonic mass, one step: with a forward step and a non-negative
/// flow rate, an update never increases the rocket's mass, and never
/// takes a positive mass to zero or below.
pub proof fn lemma_rocket_mass_monotonic_step(r: Rocket, p: UpdateParams)
    requires
        p.time_delta >= 0,
        r.mass_flow_rate >= 0,
    ensures
        spec_object_update(Object::Rocket(r), p) matches Object::Rocket(r2)
            && r2.mass <= r.mass
            && (r.mass > 0 ==> r2.mass > 0),
{
    lemma_mul_nonneg(p.time_delta as int, r.mass_flow_rate as int);
}

/// Monotonic mass: over any run of forward steps, the rocket's mass
/// never increases and never leaves the positive range it started in.
pub proof fn lemma_rocket_mass_monotonic(r: Rocket, ps: Seq<UpdateParams>)
    requires
        forall|i: int| 0 <= i < ps.len() ==> ps[i].time_delta >= 0,
        r.mass_flow_rate >= 0,
    ensures
        spec_object_run(Object::Rocket(r), ps) matches Object::Rocket(r2)
            && r2.mass <= r.mass
            && (r.mass > 0 ==> r2.mass > 0),
    decreases ps.len(),
{
    if ps.len() > 0 {
        lemma_rocket_mass_monotonic(r, ps.drop_last());
        let mid = spec_object_run(Object::Rocket(r), ps.drop_last());
        lemma_run_keeps_config(Object::Rocket(r), ps.drop_last());
        let r1 = mid->Rocket_0;
        lemma_rocket_mass_monotonic_step(r1, ps.last());
    }
}

/// Pause no-op: an update with a zero time step changes nothing at all
/// on either vehicle.
pub proof fn lemma_update_zero_dt(o: Object, p: UpdateParams)
    requires
        p.time_delta == 0,
    ensures
        spec_object_update(o, p) == o,
{
}

/// Toggle independence, one step: with gravity and drag both disabled
/// and no thrust available, one airborne step leaves the velocity
/// unchanged and moves the position linearly: each coordinate advances
/// by the time step times its velocity component.
pub proof fn lemma_coast_step(o: Object, p: UpdateParams)
    requires
        !p.enable_gravity,
        !p.enable_drag,
        spec_nonthrusting(o, p),
        spec_object_pos(o).y >= 0,
    ensures
        spec_object_vel(spec_object_update(o, p)) == spec_object_vel(o),
        spec_object_mass(spec_object_update(o, p)) == spec_object_mass(o),
        spec_object_pos(spec_object_update(o, p)).x as int == spec_integrate(
            spec_object_pos(o).x as int,
            spec_object_vel(o).x as int,
            p.time_delta as int,
        ),
        spec_object_pos(spec_object_update(o, p)).y as int == spec_integrate(
            spec_object_pos(o).y as int,
            spec_object_vel(o).y as int,
            p.time_delta as int,
        ),
{
}

/// Toggle independence, over a run: with gravity and drag disabled
/// throughout and the engine switched off, the velocity never changes,
/// and a vehicle with zero horizontal velocity never moves
/// horizontally.
pub proof fn lemma_coast_run(o: Object, ps: Seq<UpdateParams>)
    requires
        forall|i: int| 0 <= i < ps.len() ==> !(#[trigger] ps[i]).enable_gravity,
        forall|i: int| 0 <= i < ps.len() ==> !(#[trigger] ps[i]).enable_drag,
        spec_thrust_off(o),
    ensures
        spec_object_vel(spec_object_run(o, ps)) == spec_object_vel(o),
        spec_object_vel(o).x == 0 ==> spec_object_pos(spec_object_run(o, ps)).x
            == spec_object_pos(o).x,
    decreases ps.len(),
{
    if ps.len() > 0 {
        lemma_coast_run(o, ps.drop_last());
        let mid = spec_object_run(o, ps.drop_last());
        lemma_run_keeps_config(o, ps.drop_last());
        if spec_object_pos(mid).y >= 0 {
            lemma_coast_step(mid, ps.last());
        }
    }
}

/// Thrust cutoff: once the clock has passed the cutoff time, an update
/// leaves the rocket's mass unchanged.
pub proof fn lemma_thrust_cutoff(r: Rocket, p: UpdateParams)
    requires
        p.time > r.thrust_time,
    ensures
        spec_object_update(Object::Rocket(r), p) matches Object::Rocket(r2) && r2.mass == r.mass,
{
}

/// Burn accounting: while airborne, one update removes exactly the
/// propellant burnt in one step precisely when the engine fires — the
/// switch on, the clock not past the cutoff, and the decremented mass
/// still positive (thrust is skipped once the mass would be depleted);
/// in every other case the mass is untouched.
pub proof fn lemma_mass_decrement_iff_burning(r: Rocket, p: UpdateParams)
    requires
        r.pos.y >= 0,
    ensures
        spec_object_update(Object::Rocket(r), p) matches Object::Rocket(r2) && {
            let burnt = spec_sub(
                r.mass as int,
                spec_mul(p.time_delta as int, r.mass_flow_rate as int),
            );
            if p.time <= r.thrust_time && r.enable_thrust && burnt > 0 {
                r2.mass == burnt
            } else {
                r2.mass == r.mass
            }
        },
{
}

} // verus!
