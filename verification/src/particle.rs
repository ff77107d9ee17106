//! The particle model: a firefly's state and its one-step update rule.

use vstd::prelude::*;

verus! {

use crate::{FP, TURN, QUARTER, CANVAS_CENTER_X, CANVAS_CENTER_Y, FIREFLY_RADIUS};
use crate::trig::{spec_cos, spec_sin, cos, sin, ANGLE_BOUND};
use crate::scene::Cmd;
use vstd::arithmetic::div_mod::{
    lemma_div_multiples_vanish,
    lemma_div_pos_is_pos,
    lemma_hoist_over_denominator,
};

/// Largest orbital radius (in `FP` units) a well-formed firefly may carry.
pub const RADIUS_LIMIT: i64 = 1000 * FP;

/// Largest per-frame angle increment (in angle units) a well-formed firefly
/// may carry: one full turn per frame.
pub const SPEED_LIMIT: i64 = TURN;

/// One past the largest colour channel value, in `FP` units: channels live
/// in `[0, 255)` colour steps.
pub const RGB_SPAN: i64 = 255 * FP;

/// An rgb colour; each channel is a fixed-point intensity in `FP` units,
/// truncated to a whole colour step when rendered.
#[derive(Clone, Copy, PartialEq, Eq, Structural, Debug)]
pub struct Rgb {
    pub r: i64,
    pub g: i64,
    pub b: i64,
}

impl Rgb {
    /// Each channel is a fixed-point value in `[0, 255)` colour steps.
    pub open spec fn wf(self) -> bool {
        &&& 0 <= self.r < RGB_SPAN
        &&& 0 <= self.g < RGB_SPAN
        &&& 0 <= self.b < RGB_SPAN
    }

    #[inline]
    pub fn new(r: i64, g: i64, b: i64) -> (c: Rgb)
        ensures
            c == (Rgb { r, g, b }),
    {
        Rgb { r, g, b }
    }
}

/// A vector in 2D space (x, y); used both for a phase angle and for a
/// per-frame angle increment, which must not be confused.
#[derive(Clone, Copy, PartialEq, Eq, Structural, Debug)]
pub struct Vector {
    pub x: i64,
    pub y: i64,
}

impl Vector {
    #[inline]
    pub fn new(x: i64, y: i64) -> (v: Vector)
        ensures
            v == (Vector { x, y }),
    {
        Vector { x, y }
    }
}

/// The integer colour step shown for a channel: the fixed-point value
/// truncated toward zero.
pub open spec fn trunc_channel(c: int) -> int {
    c / (FP as int)
}

/// Truncates a fixed-point colour channel to its whole colour step.
pub fn channel_level(c: i64) -> (k: i64)
    requires
        0 <= c,
    ensures
        k == trunc_channel(c as int),
{
    c / FP
}

/// Law: colour rounding is deterministic and idempotent — the shown step is a
/// function of the channel value alone, and truncating a channel that already
/// sits on a whole step changes nothing.
pub proof fn lemma_trunc_channel_idempotent(c: int)
    requires
        0 <= c,
    ensures
        trunc_channel(trunc_channel(c) * FP) == trunc_channel(c),
{
    lemma_div_pos_is_pos(c, FP as int);
    lemma_div_multiples_vanish(trunc_channel(c), FP as int);
}

/// A firefly: one orbiting point with fixed radius, speed and colour, and a
/// mutable two-component phase angle.
#[derive(Clone, Copy, PartialEq, Eq, Structural, Debug)]
pub struct Firefly {
    pub radius: i64,
    pub angle: Vector,
    pub speed: Vector,
    pub color: Rgb,
}

impl Firefly {
    /// The fields fixed at creation sit in their machine-safe ranges.
    pub open spec fn wf(self) -> bool {
        &&& 0 <= self.radius <= RADIUS_LIMIT
        &&& -SPEED_LIMIT <= self.speed.x <= SPEED_LIMIT
        &&& -SPEED_LIMIT <= self.speed.y <= SPEED_LIMIT
        &&& self.color.wf()
    }

    /// The phase angle still has headroom for another update.
    pub open spec fn in_range(self) -> bool {
        &&& -ANGLE_BOUND <= self.angle.x <= ANGLE_BOUND
        &&& -ANGLE_BOUND <= self.angle.y <= ANGLE_BOUND
    }

    #[inline]
    pub fn new(angle: Vector, radius: i64, speed: Vector, color: Rgb) -> (f: Firefly)
        ensures
            f == (Firefly { angle, radius, speed, color }),
    {
        Firefly { angle, radius, speed, color }
    }

    /// Screen x this frame, in `FP` units: the canvas centre plus
    /// `cos(angle.x) * radius`, the fixed-point product floored to `FP` units.
    pub open spec fn pos_x(self) -> int {
        CANVAS_CENTER_X + (spec_cos(self.angle.x as int) * self.radius) / (FP as int)
    }

    /// Screen y this frame, in `FP` units: the canvas centre plus
    /// `sin(angle.y) * radius`, the fixed-point product floored to `FP` units.
    pub open spec fn pos_y(self) -> int {
        CANVAS_CENTER_Y + (spec_sin(self.angle.y as int) * self.radius) / (FP as int)
    }

    /// The state one update later: the angle advanced by the speed,
    /// every other field unchanged.
    pub open spec fn step(self) -> Firefly {
        Firefly {
            radius: self.radius,
            angle: Vector {
                x: (self.angle.x + self.speed.x) as i64,
                y: (self.angle.y + self.speed.y) as i64,
            },
            speed: self.speed,
            color: self.color,
        }
    }

    /// The draw command this frame issues for the firefly: a dot of the
    /// fixed visual radius at the current screen position, in the firefly's
    /// colour truncated to whole colour steps.
    pub open spec fn dot(self) -> Cmd {
        Cmd::Dot {
            x: self.pos_x() as i64,
            y: self.pos_y() as i64,
            radius: FIREFLY_RADIUS,
            red: trunc_channel(self.color.r as int) as i64,
            green: trunc_channel(self.color.g as int) as i64,
            blue: trunc_channel(self.color.b as int) as i64,
        }
    }

    /// Computes this frame's dot from the current phase angle, then advances
    /// the angle by the speed.  The radius, speed and colour are untouched.
    pub fn update(&mut self) -> (d: Cmd)
        requires
            old(self).wf(),
            old(self).in_range(),
        ensures
            *final(self) == old(self).step(),
            final(self).angle.x == old(self).angle.x + old(self).speed.x,
            final(self).angle.y == old(self).angle.y + old(self).speed.y,
            final(self).radius == old(self).radius,
            final(self).speed == old(self).speed,
            final(self).color == old(self).color,
            final(self).wf(),
            d == old(self).dot(),
    {
        let x = scaled_offset(cos(self.angle.x), self.radius, CANVAS_CENTER_X);
        let y = scaled_offset(sin(self.angle.y), self.radius, CANVAS_CENTER_Y);
        let red = channel_level(self.color.r);
        let green = channel_level(self.color.g);
        let blue = channel_level(self.color.b);
        self.angle.x = self.angle.x + self.speed.x;
        self.angle.y = self.angle.y + self.speed.y;
        Cmd::Dot { x, y, radius: FIREFLY_RADIUS, red, green, blue }
    }
}

/// The state of a firefly after `k` updates.
pub open spec fn iter_step(f: Firefly, k: nat) -> Firefly
    decreases k,
{
    if k == 0 {
        f
    } else {
        iter_step(f, (k - 1) as nat).step()
    }
}

/// Law: the radius, speed and colour are invariant across any number of
/// updates; only the phase angle ever changes.
pub proof fn lemma_fixed_fields_invariant(f: Firefly, k: nat)
    ensures
        iter_step(f, k).radius == f.radius,
        iter_step(f, k).speed == f.speed,
        iter_step(f, k).color == f.color,
    decreases k,
{
    if k > 0 {
        lemma_fixed_fields_invariant(f, (k - 1) as nat);
    }
}

/// Law: with speed `(0, 0)`, any number of updates leaves the whole state —
/// and so the screen position — exactly as it was.
pub proof fn lemma_still_when_speed_zero(f: Firefly, k: nat)
    requires
        f.speed.x == 0,
        f.speed.y == 0,
    ensures
        iter_step(f, k) == f,
        iter_step(f, k).pos_x() == f.pos_x(),
        iter_step(f, k).pos_y() == f.pos_y(),
    decreases k,
{
    if k > 0 {
        lemma_still_when_speed_zero(f, (k - 1) as nat);
    }
}

/// Law: the screen position is periodic in the phase angle — a firefly whose
/// angle components sit a full turn further along is drawn at the same spot.
pub proof fn lemma_position_periodic(f: Firefly, g: Firefly)
    requires
        g.radius == f.radius,
        g.angle.x == f.angle.x + TURN,
        g.angle.y == f.angle.y + TURN,
    ensures
        g.pos_x() == f.pos_x(),
        g.pos_y() == f.pos_y(),
{
    crate::trig::lemma_cos_periodic(f.angle.x as int);
    crate::trig::lemma_cos_periodic(f.angle.y - QUARTER);
}

/// Computes `center + (c * radius) / FP` with the quotient floored, by
/// shifting the product into nonnegative range before dividing.
fn scaled_offset(c: i64, radius: i64, center: i64) -> (p: i64)
    requires
        -FP <= c <= FP,
        0 <= radius <= RADIUS_LIMIT,
        0 <= center <= 1_000_000,
    ensures
        p == center + (c * radius) / (FP as int),
{
    proof {
        assert(-1_000_000_000 <= c as int * radius as int <= 1_000_000_000) by (nonlinear_arith)
            requires -1000 <= c <= 1000, 0 <= radius <= 1_000_000;
        lemma_hoist_over_denominator(c as int * radius as int, RADIUS_LIMIT as int, FP as nat);
        lemma_div_pos_is_pos(c as int * radius as int + RADIUS_LIMIT * FP, FP as int);
        vstd::arithmetic::div_mod::lemma_div_is_ordered(
            c as int * radius as int + RADIUS_LIMIT * FP,
            2 * RADIUS_LIMIT * FP,
            FP as int,
        );
        lemma_div_multiples_vanish(2 * RADIUS_LIMIT, FP as int);
    }
    center + (c * radius + RADIUS_LIMIT * FP) / FP - RADIUS_LIMIT
}

} // verus!
