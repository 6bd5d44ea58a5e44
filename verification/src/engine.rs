//! The simulation loop: shared run-time parameters, key events, the
//! closed set of vehicles, and the engine that drives them.
//!
//! The engine owns the vehicle collection and the shared parameters.
//! An external frame driver calls [`Engine::tick`] once per physics
//! step with the frame's time delta, [`Engine::take_input`] for each
//! key press, and [`Engine::compute_render_scale`] once per frame; the
//! engine performs no input or output itself.

use vstd::prelude::*;

use crate::fp::{
    fp_abs, fp_add, fp_div, fp_mul, fp_sub, spec_add, spec_div, spec_fabs, spec_mul, spec_sub,
    FP_MAX, SCALE,
};
use crate::ifo::{spec_ifo_reset, spec_ifo_update, IFO};
use crate::laws::lemma_update_zero_dt;
use crate::integrator::Vec2;
use crate::rocket::{spec_rocket_input, spec_rocket_reset, spec_rocket_update, Rocket};

verus! {

/// Shared simulation parameters, mutated only by the engine and by key
/// events; vehicles read them during an update.
#[derive(Clone, Copy, Debug, PartialEq, Eq, Structural)]
pub struct UpdateParams {
    /// Simulation clock, fixed-point seconds; never decreases.
    pub time: i64,
    /// Seconds advanced per tick, fixed-point; zero while paused.
    pub time_delta: i64,
    /// Global pause toggle: a paused tick changes nothing.
    pub paused: bool,
    /// Global gravity toggle.
    pub enable_gravity: bool,
    /// Global drag toggle.
    pub enable_drag: bool,
    /// Shared render scale, recomputed each frame; cosmetic only.
    pub scale: i64,
}

/// A key event, already translated to its symbolic meaning.  Keys the
/// simulation does not know arrive as `Other` and change nothing.
#[derive(Clone, Copy, Debug, PartialEq, Eq, Structural)]
pub enum Key {
    /// Restore every vehicle and zero the clock.
    Reset,
    /// Flip the global pause.
    PauseToggle,
    /// Flip the global gravity toggle.
    GravityToggle,
    /// Flip the global drag toggle.
    DragToggle,
    /// Flip the thrust vehicle's engine.
    ThrustToggle,
    /// Nudge the thrust vehicle's horizontal exhaust component down.
    ExhaustLeft,
    /// Nudge the thrust vehicle's horizontal exhaust component up.
    ExhaustRight,
    /// Any key the simulation does not react to.
    Other,
}

/// A viewport size in fixed-point drawing units.
#[derive(Clone, Copy, Debug, PartialEq, Eq, Structural)]
pub struct Viewport {
    pub width: i64,
    pub height: i64,
}

/// One fit constraint of the render scale: the absolute ratio of the
/// room the viewport offers to the room the sprite needs.  A zero
/// denominator means the constraint does not bind, which the saturated
/// maximum expresses.
pub open spec fn spec_fit_ratio(num: int, den: int) -> int {
    if den == 0 {
        FP_MAX as int
    } else {
        spec_fabs(spec_div(num, den))
    }
}

/// One fit constraint of the render scale.
pub fn fit_ratio(num: i64, den: i64) -> (r: i64)
    ensures
        r as int == spec_fit_ratio(num as int, den as int),
{
    if den == 0 {
        FP_MAX
    } else {
        fp_abs(fp_div(num, den))
    }
}

/// The render scale a sprite at position `(x, y)` asks for: the
/// smaller of a vertical fit and a horizontal fit, each leaving a
/// margin for the sprite's drawn size.
pub open spec fn spec_fit_scale(x: int, y: int, vp: Viewport) -> int {
    let vertical = spec_fit_ratio(
        spec_sub(vp.height as int, 75 * SCALE),
        spec_mul(5 * SCALE, y),
    );
    let horizontal = spec_fit_ratio(
        spec_sub(spec_div(vp.width as int, 2 * SCALE), 50 * SCALE),
        spec_mul(5 * SCALE, spec_fabs(x)),
    );
    if vertical <= horizontal {
        vertical
    } else {
        horizontal
    }
}

/// The render scale a sprite at position `(x, y)` asks for.
pub fn fit_scale(x: i64, y: i64, vp: &Viewport) -> (s: i64)
    ensures
        s as int == spec_fit_scale(x as int, y as int, *vp),
{
    let vertical = fit_ratio(fp_sub(vp.height, 75 * SCALE), fp_mul(5 * SCALE, y));
    let horizontal = fit_ratio(fp_sub(fp_div(vp.width, 2 * SCALE), 50 * SCALE), fp_mul(5 * SCALE, fp_abs(x)));
    if vertical <= horizontal {
        vertical
    } else {
        horizontal
    }
}

/// A simulated body.  The vehicle set is closed, so the two variants
/// share one dispatching object type rather than an open interface.
#[derive(Clone, Copy, Debug, PartialEq, Eq, Structural)]
pub enum Object {
    Rocket(Rocket),
    Ifo(IFO),
}

/// One physics step of either vehicle.
pub open spec fn spec_object_update(o: Object, p: UpdateParams) -> Object {
    match o {
        Object::Rocket(r) => Object::Rocket(spec_rocket_update(r, p)),
        Object::Ifo(f) => Object::Ifo(spec_ifo_update(f, p)),
    }
}

/// The state a reset restores, for either vehicle.
pub open spec fn spec_object_reset(o: Object) -> Object {
    match o {
        Object::Rocket(r) => Object::Rocket(spec_rocket_reset(r)),
        Object::Ifo(f) => Object::Ifo(spec_ifo_reset(f)),
    }
}

/// The effect of one key event on either vehicle; the coast vehicle
/// ignores every key.
pub open spec fn spec_object_input(o: Object, key: Key) -> Object {
    match o {
        Object::Rocket(r) => Object::Rocket(spec_rocket_input(r, key)),
        Object::Ifo(f) => Object::Ifo(f),
    }
}

/// The current position of either vehicle.
pub open spec fn spec_object_pos(o: Object) -> Vec2 {
    match o {
        Object::Rocket(r) => r.pos,
        Object::Ifo(f) => f.pos,
    }
}

/// The render scale either vehicle asks for.
pub open spec fn spec_object_scale(o: Object, vp: Viewport) -> int {
    spec_fit_scale(spec_object_pos(o).x as int, spec_object_pos(o).y as int, vp)
}

impl Object {
    /// Advance the vehicle by one physics step.
    pub fn update(&mut self, settings: &UpdateParams)
        ensures
            *final(self) == spec_object_update(*old(self), *settings),
    {
        match self {
            Object::Rocket(r) => r.update(settings),
            Object::Ifo(f) => f.update(settings),
        }
    }

    /// Restore the vehicle's recorded initial state.
    pub fn reset(&mut self)
        ensures
            *final(self) == spec_object_reset(*old(self)),
    {
        match self {
            Object::Rocket(r) => r.reset(),
            Object::Ifo(f) => f.reset(),
        }
    }

    /// React to one key event.
    pub fn take_input(&mut self, key: Key)
        ensures
            *final(self) == spec_object_input(*old(self), key),
    {
        match self {
            Object::Rocket(r) => r.take_input(key),
            Object::Ifo(f) => f.take_input(key),
        }
    }

    /// The render scale this vehicle asks for in the given viewport.
    pub fn scale(&self, vp: &Viewport) -> (s: i64)
        ensures
            s as int == spec_object_scale(*self, *vp),
    {
        match self {
            Object::Rocket(r) => r.scale(vp),
            Object::Ifo(f) => f.scale(vp),
        }
    }
}

/// The shared render scale of a collection of vehicles: one, shrunk to
/// the smallest scale any vehicle asks for.
pub open spec fn spec_render_scale(objects: Seq<Object>, vp: Viewport) -> int
    decreases objects.len(),
{
    if objects.len() == 0 {
        SCALE as int
    } else {
        let rest = spec_render_scale(objects.drop_last(), vp);
        let s = spec_object_scale(objects.last(), vp);
        if s < rest {
            s
        } else {
            rest
        }
    }
}

/// The settings after one key event: the global toggles and the clock
/// zeroing of a reset.  Other keys leave the settings unchanged.
pub open spec fn spec_settings_input(s: UpdateParams, key: Key) -> UpdateParams {
    match key {
        Key::Reset => UpdateParams { time: 0, ..s },
        Key::PauseToggle => UpdateParams { paused: !s.paused, ..s },
        Key::GravityToggle => UpdateParams { enable_gravity: !s.enable_gravity, ..s },
        Key::DragToggle => UpdateParams { enable_drag: !s.enable_drag, ..s },
        _ => s,
    }
}

/// The simulation loop: the vehicle collection and the shared
/// parameters.  The frame driver calls [`Engine::tick`],
/// [`Engine::take_input`] and [`Engine::compute_render_scale`]; the
/// engine never performs input or output itself.
pub struct Engine {
    /// The simulated vehicles, updated in order on every tick.
    pub objects: Vec<Object>,
    /// The shared run-time parameters.
    pub settings: UpdateParams,
}

impl Engine {
    /// A fresh engine: no vehicles, the clock at zero, a hundredth of a
    /// second per tick, gravity and drag on, not paused, unit render
    /// scale.
    pub fn new() -> (e: Engine)
        ensures
            e.objects@.len() == 0,
            e.settings == (UpdateParams {
                time: 0,
                time_delta: 10_000,
                paused: false,
                enable_gravity: true,
                enable_drag: true,
                scale: SCALE,
            }),
    {
        Engine {
            objects: Vec::new(),
            settings: UpdateParams {
                time: 0,
                time_delta: 10_000,
                paused: false,
                enable_gravity: true,
                enable_drag: true,
                scale: SCALE,
            },
        }
    }

    /// Add a vehicle to the simulation.
    pub fn add_object(&mut self, object: Object)
        ensures
            final(self).objects@ == old(self).objects@.push(object),
            final(self).settings == old(self).settings,
    {
        self.objects.push(object);
    }

    /// Zero the clock and restore every vehicle's recorded initial
    /// state.
    pub fn reset(&mut self)
        ensures
            final(self).settings == (UpdateParams { time: 0, ..old(self).settings }),
            final(self).objects@.len() == old(self).objects@.len(),
            forall|j: int|
                0 <= j < old(self).objects@.len() ==> final(self).objects@[j] == spec_object_reset(
                    old(self).objects@[j],
                ),
    {
        self.settings.time = 0;
        let mut i: usize = 0;
        while i < self.objects.len()
            invariant
                i <= self.objects@.len(),
                self.objects@.len() == old(self).objects@.len(),
                self.settings == (UpdateParams { time: 0, ..old(self).settings }),
                forall|j: int|
                    0 <= j < i ==> self.objects@[j] == spec_object_reset(old(self).objects@[j]),
                forall|j: int| i <= j < self.objects@.len() ==> self.objects@[j] == old(self).objects@[j],
            decreases self.objects@.len() - i,
        {
            self.objects[i].reset();
            i = i + 1;
        }
    }

    /// One update pass: advance every vehicle under the current
    /// parameters, then advance the clock by the current step.
    pub fn update(&mut self)
        ensures
            final(self).objects@.len() == old(self).objects@.len(),
            forall|j: int|
                0 <= j < old(self).objects@.len() ==> final(self).objects@[j] == spec_object_update(
                    old(self).objects@[j],
                    old(self).settings,
                ),
            final(self).settings.time as int == spec_add(
                old(self).settings.time as int,
                old(self).settings.time_delta as int,
            ),
            final(self).settings == (UpdateParams {
                time: final(self).settings.time,
                ..old(self).settings
            }),
    {
        let params = self.settings;
        let mut i: usize = 0;
        while i < self.objects.len()
            invariant
                i <= self.objects@.len(),
                self.objects@.len() == old(self).objects@.len(),
                params == old(self).settings,
                self.settings == old(self).settings,
                forall|j: int|
                    0 <= j < i ==> self.objects@[j] == spec_object_update(
                        old(self).objects@[j],
                        params,
                    ),
                forall|j: int| i <= j < self.objects@.len() ==> self.objects@[j] == old(self).objects@[j],
            decreases self.objects@.len() - i,
        {
            self.objects[i].update(&params);
            i = i + 1;
        }
        self.settings.time = fp_add(self.settings.time, self.settings.time_delta);
    }

    /// One externally driven tick: gate the supplied frame delta
    /// through the pause toggle, update every vehicle, advance the
    /// clock.  The clock never decreases, and a paused tick leaves
    /// every vehicle and the clock unchanged.
    pub fn tick(&mut self, dt: i64)
        requires
            dt >= 0,
        ensures
            final(self).settings.time_delta == if old(self).settings.paused {
                0i64
            } else {
                dt
            },
            final(self).objects@.len() == old(self).objects@.len(),
            forall|j: int|
                0 <= j < old(self).objects@.len() ==> final(self).objects@[j] == spec_object_update(
                    old(self).objects@[j],
                    UpdateParams { time_delta: final(self).settings.time_delta, ..old(self).settings },
                ),
            final(self).settings.time as int == spec_add(
                old(self).settings.time as int,
                final(self).settings.time_delta as int,
            ),
            final(self).settings.time >= old(self).settings.time,
            final(self).settings == (UpdateParams {
                time: final(self).settings.time,
                time_delta: final(self).settings.time_delta,
                ..old(self).settings
            }),
            old(self).settings.paused ==> final(self).objects@ == old(self).objects@
                && final(self).settings.time == old(self).settings.time,
    {
        self.settings.time_delta = if self.settings.paused {
            0
        } else {
            dt
        };
        self.update();
        proof {
            if old(self).settings.paused {
                let p = UpdateParams { time_delta: 0, ..old(self).settings };
                assert forall|j: int| 0 <= j < old(self).objects@.len() implies self.objects@[j]
                    == old(self).objects@[j] by {
                    lemma_update_zero_dt(old(self).objects@[j], p);
                }
                assert(self.objects@ =~= old(self).objects@);
            }
        }
    }

    /// React to one key event: the global toggles act on the settings,
    /// a reset restores every vehicle, and every key is then offered to
    /// every vehicle.
    pub fn take_input(&mut self, key: Key)
        ensures
            final(self).settings == spec_settings_input(old(self).settings, key),
            final(self).objects@.len() == old(self).objects@.len(),
            forall|j: int|
                0 <= j < old(self).objects@.len() ==> final(self).objects@[j] == spec_object_input(
                    if key == Key::Reset {
                        spec_object_reset(old(self).objects@[j])
                    } else {
                        old(self).objects@[j]
                    },
                    key,
                ),
    {
        match key {
            Key::Reset => self.reset(),
            Key::PauseToggle => {
                self.settings.paused = !self.settings.paused;
            },
            Key::GravityToggle => {
                self.settings.enable_gravity = !self.settings.enable_gravity;
            },
            Key::DragToggle => {
                self.settings.enable_drag = !self.settings.enable_drag;
            },
            _ => {},
        }
        let ghost mid = self.objects@;
        let mut i: usize = 0;
        while i < self.objects.len()
            invariant
                i <= self.objects@.len(),
                self.objects@.len() == mid.len(),
                self.settings == spec_settings_input(old(self).settings, key),
                forall|j: int| 0 <= j < i ==> self.objects@[j] == spec_object_input(mid[j], key),
                forall|j: int| i <= j < self.objects@.len() ==> self.objects@[j] == mid[j],
            decreases self.objects@.len() - i,
        {
            self.objects[i].take_input(key);
            i = i + 1;
        }
    }

    /// Recompute the shared render scale for the given viewport: one,
    /// shrunk to the smallest scale any vehicle asks for.  Cosmetic
    /// only; no vehicle state changes.
    pub fn compute_render_scale(&mut self, vp: &Viewport) -> (s: i64)
        ensures
            s as int == spec_render_scale(old(self).objects@, *vp),
            final(self).settings == (UpdateParams { scale: s, ..old(self).settings }),
            final(self).objects@ == old(self).objects@,
    {
        let mut s: i64 = SCALE;
        let mut i: usize = 0;
        while i < self.objects.len()
            invariant
                i <= self.objects@.len(),
                self.objects@ == old(self).objects@,
                self.settings == old(self).settings,
                s as int == spec_render_scale(self.objects@.take(i as int), *vp),
            decreases self.objects@.len() - i,
        {
            let t = self.objects[i].scale(vp);
            proof {
                assert(self.objects@.take(i as int + 1).drop_last() == self.objects@.take(i as int));
                assert(self.objects@.take(i as int + 1).last() == self.objects@[i as int]);
            }
            if t < s {
                s = t;
            }
            i = i + 1;
        }
        proof {
            assert(self.objects@.take(self.objects@.len() as int) == self.objects@);
        }
        self.settings.scale = s;
        s
    }
}

} // verus!
