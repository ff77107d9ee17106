//! The animation driver: the particle collection, its construction from a
//! stream of uniform samples, and the per-frame command sequence.

use vstd::prelude::*;

verus! {

use crate::{FP, TURN};
use crate::particle::{Firefly, Vector, Rgb};
use vstd::arithmetic::div_mod::{lemma_div_pos_is_pos, lemma_multiply_divide_lt};
use vstd::pervasive::VecAdditionalExecFns;

/// One past the largest value of a uniform sample: the random source hands
/// the driver fixed-point samples in `[0, RAND_ONE)` standing for `[0, 1)`.
pub const RAND_ONE: i64 = 1_000_000;

/// Width of the seed range of each phase-angle component: two full turns,
/// an intentionally wide range that decorrelates initial phases beyond a
/// single revolution.
pub const ANGLE_SEED_SPAN: i64 = 2 * TURN;

/// Base orbital radius, and also the width of its seed range, in `FP`
/// units: radii are seeded in `[RADIUS_OFFSET, 2 * RADIUS_OFFSET)`.
pub const RADIUS_OFFSET: i64 = 50 * FP;

/// Half-width of the seed range of each speed component, in angle units;
/// close to a twentieth of a radian per frame.
pub const SPEED_SPREAD: i64 = 31_831;

/// One drawing-surface command of a frame.  The host replays these in order:
/// clear the surface, fill one dot per firefly, then re-register the frame
/// callback with the scheduler.
#[derive(Clone, Copy, PartialEq, Eq, Structural, Debug)]
pub enum Cmd {
    /// Clear the whole surface region, `width` by `height` in `FP` units.
    Clear { width: i64, height: i64 },
    /// Fill a circle of radius `radius` at `(x, y)` (all in `FP` units) with
    /// the colour whose channels are the whole steps `red`, `green`, `blue`.
    Dot { x: i64, y: i64, radius: i64, red: i64, green: i64, blue: i64 },
    /// Ask the scheduler to invoke the frame callback once more.
    Reschedule,
}

/// A uniform sample scaled onto `[0, span)`: `raw * span / RAND_ONE`,
/// floored to a whole unit.
pub open spec fn spec_scale(raw: int, span: int) -> int {
    (raw * span) / (RAND_ONE as int)
}

/// Scales a uniform sample onto `[0, span)`.
fn scale_sample(raw: i64, span: i64) -> (v: i64)
    requires
        0 <= raw < RAND_ONE,
        0 < span <= 10_000_000,
    ensures
        v == spec_scale(raw as int, span as int),
        0 <= v < span,
{
    proof {
        assert(0 <= raw * span <= 10_000_000_000_000) by (nonlinear_arith)
            requires 0 <= raw < 1_000_000, 0 < span <= 10_000_000;
        assert(raw * span < span * 1_000_000) by (nonlinear_arith)
            requires 0 <= raw < 1_000_000, 0 < span;
        lemma_div_pos_is_pos(raw * span, RAND_ONE as int);
        lemma_multiply_divide_lt(raw * span, 1_000_000, span as int);
    }
    (raw * span) / RAND_ONE
}

/// The firefly seeded by eight uniform samples, in the order the driver
/// draws them: the two phase-angle components, the radius, the two speed
/// components, and the three colour channels.
pub open spec fn spec_seed_firefly(
    a0: int, a1: int, r: int, s0: int, s1: int, c0: int, c1: int, c2: int,
) -> Firefly {
    Firefly {
        radius: (RADIUS_OFFSET + spec_scale(r, RADIUS_OFFSET as int)) as i64,
        angle: Vector {
            x: spec_scale(a0, ANGLE_SEED_SPAN as int) as i64,
            y: spec_scale(a1, ANGLE_SEED_SPAN as int) as i64,
        },
        speed: Vector {
            x: (spec_scale(s0, 2 * SPEED_SPREAD) - SPEED_SPREAD) as i64,
            y: (spec_scale(s1, 2 * SPEED_SPREAD) - SPEED_SPREAD) as i64,
        },
        color: Rgb {
            r: spec_scale(c0, crate::particle::RGB_SPAN as int) as i64,
            g: spec_scale(c1, crate::particle::RGB_SPAN as int) as i64,
            b: spec_scale(c2, crate::particle::RGB_SPAN as int) as i64,
        },
    }
}

/// Builds one firefly from eight uniform samples, with every randomised
/// parameter landing in its documented range.
pub fn seed_firefly(
    a0: i64, a1: i64, r: i64, s0: i64, s1: i64, c0: i64, c1: i64, c2: i64,
) -> (f: Firefly)
    requires
        0 <= a0 < RAND_ONE,
        0 <= a1 < RAND_ONE,
        0 <= r < RAND_ONE,
        0 <= s0 < RAND_ONE,
        0 <= s1 < RAND_ONE,
        0 <= c0 < RAND_ONE,
        0 <= c1 < RAND_ONE,
        0 <= c2 < RAND_ONE,
    ensures
        f == spec_seed_firefly(
            a0 as int, a1 as int, r as int, s0 as int, s1 as int,
            c0 as int, c1 as int, c2 as int,
        ),
        f.wf(),
        f.in_range(),
        RADIUS_OFFSET <= f.radius < 2 * RADIUS_OFFSET,
        -SPEED_SPREAD <= f.speed.x < SPEED_SPREAD,
        -SPEED_SPREAD <= f.speed.y < SPEED_SPREAD,
        0 <= f.color.r < crate::particle::RGB_SPAN,
        0 <= f.color.g < crate::particle::RGB_SPAN,
        0 <= f.color.b < crate::particle::RGB_SPAN,
        0 <= f.angle.x < ANGLE_SEED_SPAN,
        0 <= f.angle.y < ANGLE_SEED_SPAN,
{
    let angle = Vector::new(
        scale_sample(a0, ANGLE_SEED_SPAN),
        scale_sample(a1, ANGLE_SEED_SPAN),
    );
    let radius = RADIUS_OFFSET + scale_sample(r, RADIUS_OFFSET);
    let speed = Vector::new(
        scale_sample(s0, 2 * SPEED_SPREAD) - SPEED_SPREAD,
        scale_sample(s1, 2 * SPEED_SPREAD) - SPEED_SPREAD,
    );
    let color = Rgb::new(
        scale_sample(c0, crate::particle::RGB_SPAN),
        scale_sample(c1, crate::particle::RGB_SPAN),
        scale_sample(c2, crate::particle::RGB_SPAN),
    );
    Firefly::new(angle, radius, speed, color)
}

/// The animation state: the firefly collection, and the dimensions of the
/// region each frame clears (in `FP` units, sized to the backing pixel
/// buffer the host set up).
pub struct Scene {
    pub fireflies: Vec<Firefly>,
    pub width: i64,
    pub height: i64,
}

impl Scene {
    /// Every firefly sits in its machine-safe ranges.
    pub open spec fn wf(self) -> bool {
        forall|i: int| 0 <= i < self.fireflies@.len() ==> (#[trigger] self.fireflies@[i]).wf()
    }

    /// Every firefly's phase angle has headroom for another update.
    pub open spec fn in_range(self) -> bool {
        forall|i: int| 0 <= i < self.fireflies@.len()
            ==> (#[trigger] self.fireflies@[i]).in_range()
    }

    /// Populates `count` fireflies from a stream of `8 * count` uniform
    /// samples, eight per firefly in seeding order, and records the clear
    /// dimensions.  Every randomised parameter lands in its documented
    /// range: the radius in `[RADIUS_OFFSET, 2 * RADIUS_OFFSET)`, each
    /// speed component in `[-SPEED_SPREAD, SPEED_SPREAD)`, each colour
    /// channel in `[0, RGB_SPAN)`, each angle component in
    /// `[0, ANGLE_SEED_SPAN)`.
    pub fn init(count: usize, width: i64, height: i64, raw: &Vec<i64>) -> (s: Scene)
        requires
            raw@.len() == 8 * count,
            forall|i: int| 0 <= i < raw@.len() ==> 0 <= #[trigger] raw@[i] < RAND_ONE,
        ensures
            s.width == width,
            s.height == height,
            s.fireflies@.len() == count,
            forall|i: int| 0 <= i < count ==> #[trigger] s.fireflies@[i] == spec_seed_firefly(
                raw@[8 * i] as int, raw@[8 * i + 1] as int, raw@[8 * i + 2] as int,
                raw@[8 * i + 3] as int, raw@[8 * i + 4] as int, raw@[8 * i + 5] as int,
                raw@[8 * i + 6] as int, raw@[8 * i + 7] as int,
            ),
            s.wf(),
            s.in_range(),
            forall|i: int| 0 <= i < count ==> {
                let f = #[trigger] s.fireflies@[i];
                &&& RADIUS_OFFSET <= f.radius < 2 * RADIUS_OFFSET
                &&& -SPEED_SPREAD <= f.speed.x < SPEED_SPREAD
                &&& -SPEED_SPREAD <= f.speed.y < SPEED_SPREAD
                &&& 0 <= f.color.r < crate::particle::RGB_SPAN
                &&& 0 <= f.color.g < crate::particle::RGB_SPAN
                &&& 0 <= f.color.b < crate::particle::RGB_SPAN
                &&& 0 <= f.angle.x < ANGLE_SEED_SPAN
                &&& 0 <= f.angle.y < ANGLE_SEED_SPAN
            },
    {
        // bind the sample count so `8 * count` is known to sit in `usize`
        let _total = raw.len();
        let mut fireflies: Vec<Firefly> = Vec::new();
        let mut idx: usize = 0;
        while idx < count
            invariant
                idx <= count,
                8 * count <= usize::MAX,
                raw@.len() == 8 * count,
                forall|i: int| 0 <= i < raw@.len() ==> 0 <= #[trigger] raw@[i] < RAND_ONE,
                fireflies@.len() == idx,
                forall|i: int| 0 <= i < idx ==> #[trigger] fireflies@[i] == spec_seed_firefly(
                    raw@[8 * i] as int, raw@[8 * i + 1] as int, raw@[8 * i + 2] as int,
                    raw@[8 * i + 3] as int, raw@[8 * i + 4] as int, raw@[8 * i + 5] as int,
                    raw@[8 * i + 6] as int, raw@[8 * i + 7] as int,
                ),
                forall|i: int| 0 <= i < idx ==> {
                    let f = #[trigger] fireflies@[i];
                    &&& f.wf()
                    &&& f.in_range()
                    &&& RADIUS_OFFSET <= f.radius < 2 * RADIUS_OFFSET
                    &&& -SPEED_SPREAD <= f.speed.x < SPEED_SPREAD
                    &&& -SPEED_SPREAD <= f.speed.y < SPEED_SPREAD
                    &&& 0 <= f.color.r < crate::particle::RGB_SPAN
                    &&& 0 <= f.color.g < crate::particle::RGB_SPAN
                    &&& 0 <= f.color.b < crate::particle::RGB_SPAN
                    &&& 0 <= f.angle.x < ANGLE_SEED_SPAN
                    &&& 0 <= f.angle.y < ANGLE_SEED_SPAN
                },
            decreases count - idx,
        {
            let base: usize = 8 * idx;
            let f = seed_firefly(
                raw[base], raw[base + 1], raw[base + 2], raw[base + 3],
                raw[base + 4], raw[base + 5], raw[base + 6], raw[base + 7],
            );
            fireflies.push(f);
            idx = idx + 1;
        }
        Scene { fireflies, width, height }
    }

    /// Runs one frame: clears the whole surface, draws every firefly in
    /// collection order against its current angle while advancing the angle
    /// by its speed, and re-registers the callback — as the command
    /// sequence states, the clear comes exactly once and first, then one
    /// dot per firefly, then exactly one reschedule.
    pub fn frame(&mut self) -> (cmds: Vec<Cmd>)
        requires
            old(self).wf(),
            old(self).in_range(),
        ensures
            final(self).width == old(self).width,
            final(self).height == old(self).height,
            final(self).fireflies@.len() == old(self).fireflies@.len(),
            forall|i: int| 0 <= i < old(self).fireflies@.len()
                ==> #[trigger] final(self).fireflies@[i] == old(self).fireflies@[i].step(),
            final(self).wf(),
            cmds@.len() == old(self).fireflies@.len() + 2,
            cmds@[0] == (Cmd::Clear { width: old(self).width, height: old(self).height }),
            forall|i: int| 0 <= i < old(self).fireflies@.len()
                ==> #[trigger] cmds@[i + 1] == old(self).fireflies@[i].dot(),
            cmds@[cmds@.len() - 1] == Cmd::Reschedule,
    {
        let mut cmds: Vec<Cmd> = Vec::new();
        cmds.push(Cmd::Clear { width: self.width, height: self.height });
        let n = self.fireflies.len();
        let mut idx: usize = 0;
        while idx < n
            invariant
                idx <= n,
                n == self.fireflies@.len(),
                self.fireflies@.len() == old(self).fireflies@.len(),
                self.width == old(self).width,
                self.height == old(self).height,
                old(self).wf(),
                old(self).in_range(),
                forall|i: int| 0 <= i < idx
                    ==> #[trigger] self.fireflies@[i] == old(self).fireflies@[i].step(),
                forall|i: int| idx <= i < n
                    ==> #[trigger] self.fireflies@[i] == old(self).fireflies@[i],
                cmds@.len() == idx + 1,
                cmds@[0] == (Cmd::Clear { width: old(self).width, height: old(self).height }),
                forall|i: int| 0 <= i < idx
                    ==> #[trigger] cmds@[i + 1] == old(self).fireflies@[i].dot(),
            decreases n - idx,
        {
            let mut f = self.fireflies[idx];
            let d = f.update();
            self.fireflies.set(idx, f);
            cmds.push(d);
            idx = idx + 1;
        }
        cmds.push(Cmd::Reschedule);
        cmds
    }
}

} // verus!
