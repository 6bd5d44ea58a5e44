//! Atmosphere model: pure, stateless functions of altitude.
//!
//! All quantities are fixed-point values (see [`crate::fp`]).  The model
//! gives gravitational acceleration from the inverse-square law,
//! temperature from a constant lapse rate, pressure from a barometric
//! approximation, and air density from the ideal-gas relation.  Each
//! function is total: the non-physical corners (a zero radius, a
//! pressure base driven negative, a non-positive absolute temperature)
//! are clamped to zero rather than left undefined.

use vstd::prelude::*;

use crate::fp::{
    clamp_i128, fp_add, fp_div, fp_mul, fp_sqrt, fp_sub, lemma_mul_nonneg, spec_add, spec_clamp,
    spec_div, spec_mul, spec_sqrt, spec_sub, spec_tdiv, tdiv_i128, SCALE,
};

verus! {

/// Standard gravitational parameter of the planet, in whole units
/// (not fixed-point): the product of the gravitational constant and the
/// planet's mass.
pub const EARTH_GRAVITY: i64 = 398_584_628_000_000;

/// The gravitational parameter pre-multiplied by the cube of the
/// fixed-point scale, so that dividing by the square of a fixed-point
/// radius yields a fixed-point acceleration.
pub const EARTH_GRAVITY_SCALED: i128 = 398_584_628_000_000 * 1_000_000 * 1_000_000 * 1_000_000;

/// Sea-level reference radius of the planet, fixed-point meters.
pub const EARTH_SEA_RADIUS: i64 = 6_378_137_000_000;

/// Radius of the reference surface the vehicles launch from,
/// fixed-point meters.  It coincides with the sea-level radius.
pub const SURFACE_RADIUS: i64 = 6_378_137_000_000;

/// Temperature at the reference surface, fixed-point kelvins.
pub const SURFACE_TEMP: i64 = 288_150_000;

/// Temperature lapse rate, fixed-point kelvins per meter of altitude.
pub const TEMP_LAPSE: i64 = 6_500;

/// Pressure at the reference surface, fixed-point pascals.
pub const SEA_PRESSURE: i64 = 101_325_000_000;

/// Normalizing acceleration in the barometric base term, fixed-point.
pub const PRESSURE_NORM: i64 = 289_510_047_000;

/// Specific gas constant of air, fixed-point.
pub const GAS_CONSTANT: i64 = 287_050_000;

/// Gravitational acceleration at a distance `radius` from the planet's
/// center: the inverse-square law.  A zero radius yields zero.
pub open spec fn spec_earth_gravity(radius: int) -> int {
    if radius == 0 {
        0
    } else {
        spec_clamp(spec_tdiv(EARTH_GRAVITY_SCALED as int, radius * radius))
    }
}

/// Gravitational acceleration at distance `radius` from the planet's
/// center, fixed-point meters per second squared.
pub fn earth_gravity(radius: i64) -> (g: i64)
    ensures
        g as int == spec_earth_gravity(radius as int),
        g >= 0,
{
    if radius == 0 {
        return 0;
    }
    proof {
        assert((radius as int) * (radius as int) > 0
            && (radius as int) * (radius as int) <= 0x4000_0000_0000_0000_0000_0000_0000_0000int)
            by (nonlinear_arith)
            requires
                radius as int != 0,
                -0x8000_0000_0000_0000int <= radius as int <= 0x7fff_ffff_ffff_ffffint,
        ;
    }
    let den: i128 = (radius as i128) * (radius as i128);
    let q: i128 = tdiv_i128(EARTH_GRAVITY_SCALED, den);
    clamp_i128(q)
}

/// Air temperature at a given altitude above the reference surface:
/// the surface temperature minus a constant lapse per meter of height
/// above the sea-level reference.
pub open spec fn spec_temperature(altitude: int) -> int {
    spec_sub(
        SURFACE_TEMP as int,
        spec_mul(
            TEMP_LAPSE as int,
            spec_add(altitude, spec_sub(SURFACE_RADIUS as int, EARTH_SEA_RADIUS as int)),
        ),
    )
}

/// Air temperature at `altitude` fixed-point meters above the surface,
/// fixed-point kelvins.
pub fn temperature(altitude: i64) -> (t: i64)
    ensures
        t as int == spec_temperature(altitude as int),
{
    fp_sub(SURFACE_TEMP, fp_mul(TEMP_LAPSE, fp_add(altitude, fp_sub(SURFACE_RADIUS, EARTH_SEA_RADIUS))))
}

/// Air pressure at a distance `radius` from the planet's center: a
/// barometric approximation `SEA_PRESSURE * base^3.5` with
/// `base = 1 - g(radius)/PRESSURE_NORM`, the half-odd power computed
/// as `base^3 * sqrt(base)`.  The reference exponent of this barometric
/// form is 3.50057557; the model rounds it to exactly 3.5, which a
/// fixed-point power can realize, and drops the factor
/// `base^0.00057557` — within one percent of one for every
/// representable positive base, and within a twentieth of a percent
/// near the surface.  A non-positive base (gravity beyond
/// the normalizing acceleration) is clamped to zero pressure, so the
/// model stays total where a fractional power of a negative number
/// would be undefined.
pub open spec fn spec_earth_pressure(radius: int) -> int {
    let base = spec_sub(SCALE as int, spec_div(spec_earth_gravity(radius), PRESSURE_NORM as int));
    if base <= 0 {
        0
    } else {
        let cubed = spec_mul(spec_mul(base, base), base);
        spec_mul(spec_mul(SEA_PRESSURE as int, cubed), spec_sqrt(base))
    }
}

/// Air pressure at distance `radius` from the planet's center,
/// fixed-point pascals.
pub fn earth_pressure(radius: i64) -> (p: i64)
    ensures
        p as int == spec_earth_pressure(radius as int),
        p >= 0,
{
    let g = earth_gravity(radius);
    let base = fp_sub(SCALE, fp_div(g, PRESSURE_NORM));
    if base <= 0 {
        0
    } else {
        let squared = fp_mul(base, base);
        proof {
            lemma_mul_nonneg(base as int, base as int);
        }
        let cubed = fp_mul(squared, base);
        proof {
            lemma_mul_nonneg(squared as int, base as int);
        }
        let scaled = fp_mul(SEA_PRESSURE, cubed);
        proof {
            lemma_mul_nonneg(SEA_PRESSURE as int, cubed as int);
        }
        let root = fp_sqrt(base);
        let p = fp_mul(scaled, root);
        proof {
            lemma_mul_nonneg(scaled as int, root as int);
        }
        p
    }
}

/// Air density at a distance `radius` from the center, at absolute
/// temperature `temp`: pressure over the gas constant times temperature.
/// A non-positive denominator (a non-physical temperature) yields zero
/// density, i.e. no drag, rather than an undefined quotient.
pub open spec fn spec_air_density(radius: int, temp: int) -> int {
    let denom = spec_mul(GAS_CONSTANT as int, temp);
    if denom <= 0 {
        0
    } else {
        spec_div(spec_earth_pressure(radius), denom)
    }
}

/// Air density at distance `radius` from the center and temperature
/// `temp`, fixed-point kilograms per cubic meter.
pub fn air_density(radius: i64, temp: i64) -> (d: i64)
    ensures
        d as int == spec_air_density(radius as int, temp as int),
        d >= 0,
{
    let denom = fp_mul(GAS_CONSTANT, temp);
    if denom <= 0 {
        0
    } else {
        let p = earth_pressure(radius);
        fp_div(p, denom)
    }
}

} // verus!
