//! A small verified model of a 2D "firefly" particle animation.
//!
//! A fixed swarm of particles orbits the centre of a drawing surface, each
//! advancing its two-component phase angle by a fixed per-frame increment.
//! All quantities are fixed-point integers: lengths and colour channels carry
//! a scale of [`FP`] units per pixel (or per colour step), angles are measured
//! in units of [`QUARTER`] per quarter turn.  Each frame is computed as a
//! sequence of drawing commands; a thin host layer replays the commands on a
//! real surface and drives the loop.

use vstd::prelude::*;

pub mod trig;
pub mod particle;
pub mod scene;

verus! {

/// Fixed-point scale: 1 pixel (or 1 colour step) is `FP` units.
pub const FP: i64 = 1000;

/// Angle units in a quarter turn.
pub const QUARTER: i64 = 1_000_000;

/// Angle units in a full turn.
pub const TURN: i64 = 4 * QUARTER;

/// Logical canvas width, in `FP` units.
pub const CANVAS_WIDTH: i64 = 200 * FP;

/// Logical canvas height, in `FP` units.
pub const CANVAS_HEIGHT: i64 = 200 * FP;

/// x-centre of the canvas, half of `CANVAS_WIDTH`, in `FP` units.
pub const CANVAS_CENTER_X: i64 = 100 * FP;

/// y-centre of the canvas, half of `CANVAS_HEIGHT`, in `FP` units.
pub const CANVAS_CENTER_Y: i64 = 100 * FP;

/// Visual radius of a drawn firefly (independent of its orbital radius),
/// in `FP` units.
pub const FIREFLY_RADIUS: i64 = 2 * FP;

/// Number of fireflies the standard animation starts with.
pub const FIREFLY_MAX: usize = 50;

/// Builds the greeting that the host logs for a given name.
pub fn greeting(whoami: &str) -> (r: String)
    ensures
        r@ == "hello "@ + whoami@ + " from rust!"@,
{
    let mut s = String::new();
    s.append("hello ");
    s.append(whoami);
    s.append(" from rust!");
    s
}

} // verus!
