//! The simulation loop: defaults, ticking, pausing, key handling, the
//! thrust cutoff scenario and the shared render scale.

use vroom::engine::{Engine, Key, Object, UpdateParams, Viewport};
use vroom::fp::{FP_MAX, SCALE};
use vroom::ifo::IFO;
use vroom::integrator::Vec2;
use vroom::rocket::Rocket;

fn launch_rocket() -> Rocket {
    Rocket {
        mass: 200_000,
        velocity: Vec2 { x: 0, y: 0 },
        pos: Vec2 { x: 0, y: 0 },
        init_mass: 200_000,
        init_pos: Vec2 { x: 0, y: 0 },
        exhaust_velocity: Vec2 { x: 0, y: 650 * SCALE },
        drag_coeff: 100_000,
        cross_section: 10_000,
        mass_flow_rate: 10_000,
        enable_thrust: true,
        thrust_time: 4_500_000,
        apoapsis_reached: false,
    }
}

fn rocket_of(e: &Engine, i: usize) -> Rocket {
    match e.objects[i] {
        Object::Rocket(r) => r,
        Object::Ifo(_) => panic!("expected the thrust vehicle"),
    }
}

#[test]
fn engine_defaults() {
    let e = Engine::new();
    assert_eq!(e.objects.len(), 0);
    assert_eq!(
        e.settings,
        UpdateParams {
            time: 0,
            time_delta: 10_000,
            paused: false,
            enable_gravity: true,
            enable_drag: true,
            scale: SCALE,
        }
    );
}

#[test]
fn tick_advances_clock_and_vehicles() {
    let mut e = Engine::new();
    e.add_object(Object::Rocket(launch_rocket()));
    e.tick(10_000);
    assert_eq!(e.settings.time, 10_000);
    assert_eq!(rocket_of(&e, 0).mass, 199_900);
    assert_eq!(rocket_of(&e, 0).velocity.y, 227_022);
}

#[test]
fn paused_tick_changes_nothing() {
    let mut e = Engine::new();
    e.add_object(Object::Rocket(launch_rocket()));
    e.tick(10_000);
    let objects_before = e.objects.clone();
    let time_before = e.settings.time;
    e.take_input(Key::PauseToggle);
    assert!(e.settings.paused);
    for _ in 0..3 {
        e.tick(10_000);
    }
    assert_eq!(e.objects, objects_before);
    assert_eq!(e.settings.time, time_before);
    e.take_input(Key::PauseToggle);
    assert!(!e.settings.paused);
    e.tick(10_000);
    assert_ne!(e.objects, objects_before);
}

#[test]
fn thrust_ceases_exactly_at_cutoff() {
    // run past elapsed_time 4.5: the engine burns through tick 451
    // (the last tick that starts with the clock at 4.5 or below) and
    // the mass never changes afterwards
    let mut e = Engine::new();
    e.add_object(Object::Rocket(launch_rocket()));
    let mut burn_ticks: u32 = 0;
    let mut last_mass = rocket_of(&e, 0).mass;
    for _ in 0..470 {
        e.tick(10_000);
        let m = rocket_of(&e, 0).mass;
        if m < last_mass {
            burn_ticks += 1;
            assert_eq!(m, last_mass - 100);
        }
        last_mass = m;
    }
    assert!(e.settings.time > 4_500_000);
    assert_eq!(burn_ticks, 451);
    assert_eq!(last_mass, 200_000 - 451 * 100);
    // well past the cutoff the mass is frozen for good
    for _ in 0..50 {
        e.tick(10_000);
        assert_eq!(rocket_of(&e, 0).mass, last_mass);
    }
}

#[test]
fn reset_key_restores_vehicles_and_clock() {
    let mut e = Engine::new();
    e.add_object(Object::Rocket(launch_rocket()));
    for _ in 0..100 {
        e.tick(10_000);
    }
    assert_ne!(e.settings.time, 0);
    e.take_input(Key::Reset);
    assert_eq!(e.settings.time, 0);
    assert_eq!(rocket_of(&e, 0), launch_rocket());
}

#[test]
fn global_toggle_keys() {
    let mut e = Engine::new();
    e.take_input(Key::GravityToggle);
    assert!(!e.settings.enable_gravity);
    e.take_input(Key::DragToggle);
    assert!(!e.settings.enable_drag);
    e.take_input(Key::GravityToggle);
    assert!(e.settings.enable_gravity);
    e.take_input(Key::Other);
    assert!(e.settings.enable_gravity && !e.settings.enable_drag);
}

#[test]
fn keys_are_forwarded_to_vehicles() {
    let mut e = Engine::new();
    e.add_object(Object::Rocket(launch_rocket()));
    e.take_input(Key::ExhaustLeft);
    assert_eq!(rocket_of(&e, 0).exhaust_velocity.x, -100 * SCALE);
}

#[test]
fn render_scale_takes_the_smallest_fit() {
    let mut e = Engine::new();
    let vp = Viewport { width: 640 * SCALE, height: 480 * SCALE };
    // no vehicles: the scale stays at one
    assert_eq!(e.compute_render_scale(&vp), SCALE);
    // a vehicle at the origin puts no bound on the scale
    e.add_object(Object::Rocket(launch_rocket()));
    assert_eq!(e.compute_render_scale(&vp), SCALE);
    // a vehicle high up shrinks the shared scale to its own fit
    let far = IFO {
        velocity: Vec2 { x: 0, y: 0 },
        pos: Vec2 { x: 100 * SCALE, y: 200 * SCALE },
        mass: SCALE,
        drag_coeff: SCALE,
        cross_section: 10_000,
        init_pos: Vec2 { x: 0, y: 0 },
        apoapsis_reached: false,
    };
    e.add_object(Object::Ifo(far));
    assert_eq!(e.compute_render_scale(&vp), 405_000);
    assert_eq!(e.settings.scale, 405_000);
}

#[test]
fn fit_ratio_with_zero_position_does_not_bind() {
    // a sprite at the origin asks for an unbounded scale
    let vp = Viewport { width: 640 * SCALE, height: 480 * SCALE };
    let r = Rocket { pos: Vec2 { x: 0, y: 0 }, ..launch_rocket() };
    assert_eq!(r.scale(&vp), FP_MAX);
}

#[test]
fn multiple_vehicles_update_independently() {
    let mut e = Engine::new();
    let mut second = launch_rocket();
    second.pos = Vec2 { x: 100 * SCALE, y: 0 };
    second.init_pos = Vec2 { x: 100 * SCALE, y: 0 };
    e.add_object(Object::Rocket(launch_rocket()));
    e.add_object(Object::Rocket(second));
    e.tick(10_000);
    assert_eq!(rocket_of(&e, 0).pos.x, 0);
    assert_eq!(rocket_of(&e, 1).pos.x, 100 * SCALE);
    assert_eq!(rocket_of(&e, 0).mass, rocket_of(&e, 1).mass);
}
