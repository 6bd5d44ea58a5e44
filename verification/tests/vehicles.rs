//! Vehicle behaviour: the example launch scenario, ground freeze, the
//! apoapsis latch, reset, input handling and toggle independence.

use vroom::engine::{Key, UpdateParams, Viewport};
use vroom::formulas::{air_density, temperature, EARTH_SEA_RADIUS};
use vroom::fp::SCALE;
use vroom::ifo::IFO;
use vroom::integrator::{drag_accel, integrate, Vec2};
use vroom::rocket::Rocket;

fn launch_rocket() -> Rocket {
    Rocket {
        mass: 200_000,
        velocity: Vec2 { x: 0, y: 0 },
        pos: Vec2 { x: 0, y: 0 },
        init_mass: 200_000,
        init_pos: Vec2 { x: 0, y: 0 },
        exhaust_velocity: Vec2 { x: 0, y: 650 * SCALE },
        drag_coeff: 100_000,
        cross_section: 10_000,
        mass_flow_rate: 10_000,
        enable_thrust: true,
        thrust_time: 4_500_000,
        apoapsis_reached: false,
    }
}

fn params(time: i64, dt: i64) -> UpdateParams {
    UpdateParams {
        time,
        time_delta: dt,
        paused: false,
        enable_gravity: true,
        enable_drag: true,
        scale: SCALE,
    }
}

#[test]
fn launch_scenario_first_tick() {
    // mass 0.2, exhaust (0, 650), flow 0.01, cutoff 4.5, step 0.01:
    // after one tick the mass is exactly 0.1999 and the vertical
    // velocity gained 0.325 from thrust minus 0.097980 from gravity
    let mut r = launch_rocket();
    r.update(&params(0, 10_000));
    assert_eq!(r.mass, 199_900);
    assert_eq!(r.velocity.x, 0);
    assert_eq!(r.velocity.y, 227_022);
    // position integrates with the pre-step velocity, which was zero
    assert_eq!(r.pos, Vec2 { x: 0, y: 0 });
    // at ignition the vertical velocity is not yet positive, so the
    // at-or-past-the-peak latch sets on the very first forward step
    assert!(r.apoapsis_reached);
}

#[test]
fn launch_scenario_second_tick() {
    let mut r = launch_rocket();
    r.update(&params(0, 10_000));
    r.update(&params(10_000, 10_000));
    assert_eq!(r.mass, 199_800);
    assert_eq!(r.velocity.y, 454_204);
    assert_eq!(r.pos.y, 2_270);
}

#[test]
fn grounded_rocket_is_frozen() {
    let mut r = launch_rocket();
    r.pos = Vec2 { x: 3 * SCALE, y: -SCALE };
    r.velocity = Vec2 { x: 7 * SCALE, y: -2 * SCALE };
    let before = r;
    for _ in 0..5 {
        r.update(&params(0, 10_000));
    }
    assert_eq!(r, before);
}

#[test]
fn apoapsis_latches_once_falling() {
    let mut r = launch_rocket();
    r.pos = Vec2 { x: 0, y: 50 * SCALE };
    r.velocity = Vec2 { x: 0, y: -SCALE };
    r.enable_thrust = false;
    r.update(&params(0, 10_000));
    assert!(r.apoapsis_reached);
    r.update(&params(10_000, 10_000));
    assert!(r.apoapsis_reached);
}

#[test]
fn apoapsis_does_not_latch_while_climbing() {
    let mut r = launch_rocket();
    r.pos = Vec2 { x: 0, y: 50 * SCALE };
    r.velocity = Vec2 { x: 0, y: SCALE };
    r.update(&params(0, 10_000));
    assert!(!r.apoapsis_reached);
}

#[test]
fn apoapsis_latches_at_exactly_zero_vertical_velocity() {
    // the peak itself counts: a forward step starting with vertical
    // velocity zero latches the flag
    let mut r = launch_rocket();
    r.pos = Vec2 { x: 0, y: 50 * SCALE };
    r.velocity = Vec2 { x: 0, y: 0 };
    r.enable_thrust = false;
    r.update(&params(0, 10_000));
    assert!(r.apoapsis_reached);
}

#[test]
fn apoapsis_does_not_latch_on_a_zero_length_step() {
    let mut r = launch_rocket();
    r.pos = Vec2 { x: 0, y: 50 * SCALE };
    r.velocity = Vec2 { x: 0, y: -SCALE };
    r.update(&params(0, 0));
    assert!(!r.apoapsis_reached);
}

#[test]
fn reset_after_updates_restores_fresh_state() {
    let fresh = launch_rocket();
    let mut r = launch_rocket();
    for i in 0..50 {
        r.update(&params(i * 10_000, 10_000));
    }
    assert_ne!(r.mass, fresh.mass);
    r.reset();
    assert_eq!(r, fresh);
}

#[test]
fn reset_clears_apoapsis_latch() {
    let mut r = launch_rocket();
    r.pos = Vec2 { x: 0, y: 50 * SCALE };
    r.velocity = Vec2 { x: 0, y: -SCALE };
    r.update(&params(0, 10_000));
    assert!(r.apoapsis_reached);
    r.reset();
    assert!(!r.apoapsis_reached);
}

#[test]
fn mass_never_increases_and_stays_positive() {
    let mut r = launch_rocket();
    let mut last = r.mass;
    for i in 0..2_000 {
        r.update(&params(i * 10_000, 10_000));
        assert!(r.mass <= last);
        assert!(r.mass > 0);
        last = r.mass;
    }
}

#[test]
fn exhaust_nudges_and_thrust_toggle() {
    let mut r = launch_rocket();
    r.take_input(Key::ExhaustLeft);
    assert_eq!(r.exhaust_velocity, Vec2 { x: -100 * SCALE, y: 650 * SCALE });
    r.take_input(Key::ExhaustRight);
    r.take_input(Key::ExhaustRight);
    assert_eq!(r.exhaust_velocity, Vec2 { x: 100 * SCALE, y: 650 * SCALE });
    assert!(r.enable_thrust);
    r.take_input(Key::ThrustToggle);
    assert!(!r.enable_thrust);
    // keys the rocket does not react to change nothing
    let before = r;
    r.take_input(Key::Reset);
    r.take_input(Key::PauseToggle);
    r.take_input(Key::Other);
    assert_eq!(r, before);
}

fn falling_ifo() -> IFO {
    IFO {
        velocity: Vec2 { x: 100 * SCALE, y: 100 * SCALE },
        pos: Vec2 { x: -100 * SCALE, y: 0 },
        mass: SCALE,
        drag_coeff: SCALE,
        cross_section: 10_000,
        init_pos: Vec2 { x: -100 * SCALE, y: 0 },
        apoapsis_reached: false,
    }
}

#[test]
fn coast_vehicle_first_tick() {
    let mut f = falling_ifo();
    f.update(&params(0, 10_000));
    assert_eq!(f.velocity, Vec2 { x: 99_387_565, y: 99_289_587 });
    assert_eq!(f.pos, Vec2 { x: -99 * SCALE, y: SCALE });
    assert!(!f.apoapsis_reached);
}

#[test]
fn coast_vehicle_ignores_all_keys() {
    let mut f = falling_ifo();
    let before = f;
    f.take_input(Key::ThrustToggle);
    f.take_input(Key::ExhaustLeft);
    f.take_input(Key::Reset);
    f.take_input(Key::Other);
    assert_eq!(f, before);
}

#[test]
fn coast_vehicle_reset_restores_initial_position() {
    let mut f = falling_ifo();
    f.update(&params(0, 10_000));
    f.reset();
    assert_eq!(f.pos, Vec2 { x: -100 * SCALE, y: 0 });
    assert_eq!(f.velocity, Vec2 { x: 0, y: 0 });
    assert!(!f.apoapsis_reached);
}

#[test]
fn toggles_off_keep_motion_linear() {
    // with gravity and drag off and no thrust, velocity never changes,
    // horizontal velocity of zero stays zero, and altitude moves by
    // exactly dt * vertical velocity each tick
    let mut r = launch_rocket();
    r.enable_thrust = false;
    r.velocity = Vec2 { x: 0, y: 3 * SCALE };
    let p = UpdateParams { enable_gravity: false, enable_drag: false, ..params(0, 10_000) };
    r.update(&p);
    assert_eq!(r.velocity, Vec2 { x: 0, y: 3 * SCALE });
    assert_eq!(r.pos, Vec2 { x: 0, y: 30_000 });
    r.update(&p);
    assert_eq!(r.velocity, Vec2 { x: 0, y: 3 * SCALE });
    assert_eq!(r.pos, Vec2 { x: 0, y: 60_000 });
}

#[test]
fn drag_deceleration_exact_value() {
    // at sea level, 100 m/s, drag coefficient 1, cross-section 0.01,
    // mass 1: -0.5 * 1.224870 * 100 * 100 * 1 * 0.01 / 1 = -61.2435
    let rho = air_density(EARTH_SEA_RADIUS, temperature(0));
    assert_eq!(rho, 1_224_870);
    assert_eq!(drag_accel(rho, 100 * SCALE, SCALE, 10_000, SCALE), -61_243_500);
}

#[test]
fn drag_opposes_motion_in_both_directions() {
    let rho = air_density(EARTH_SEA_RADIUS, temperature(0));
    assert!(drag_accel(rho, 100 * SCALE, SCALE, 10_000, SCALE) < 0);
    assert!(drag_accel(rho, -100 * SCALE, SCALE, 10_000, SCALE) > 0);
}

#[test]
fn integrate_exact() {
    // 5 + 0.01 * 3 = 5.03
    assert_eq!(integrate(5 * SCALE, 3 * SCALE, 10_000), 5_030_000);
}

#[test]
fn thrust_active_follows_clock_and_switch() {
    let r = launch_rocket();
    assert!(r.thrust_active(&params(0, 10_000)));
    assert!(r.thrust_active(&params(4_500_000, 10_000)));
    assert!(!r.thrust_active(&params(4_510_000, 10_000)));
    let mut off = r;
    off.take_input(Key::ThrustToggle);
    assert!(!off.thrust_active(&params(0, 10_000)));
}

#[test]
fn vehicle_scale_fits_viewport() {
    let vp = Viewport { width: 640 * SCALE, height: 480 * SCALE };
    let mut r = launch_rocket();
    r.pos = Vec2 { x: 100 * SCALE, y: 200 * SCALE };
    // vertical fit: |(480 - 75) / (5 * 200)| = 0.405
    assert_eq!(r.scale(&vp), 405_000);
}
