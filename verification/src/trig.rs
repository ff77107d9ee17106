//! Fixed-point trigonometry on binary angles.
//!
//! An angle is an `i64` counted in [`QUARTER`](crate::QUARTER) units per
//! quarter turn, so a full turn is [`TURN`](crate::TURN) units and every
//! quarter-turn multiple is exactly representable.  `cos` and `sin` return
//! values in [`FP`](crate::FP) units (so `FP` stands for 1.0).  Within a
//! quadrant the cosine is the quadratic `1 - (r / QUARTER)^2`, which is exact
//! at every quarter-turn multiple, bounded by one in magnitude, and periodic
//! in a full turn.

use vstd::prelude::*;

verus! {

use crate::{FP, QUARTER, TURN};
use vstd::arithmetic::div_mod::{
    lemma_mod_multiples_vanish,
    lemma_mod_bound,
    lemma_div_pos_is_pos,
    lemma_div_is_ordered,
    lemma_basic_div,
};

/// Largest angle magnitude the executable trig functions accept; a multiple
/// of `TURN`, roughly a billion turns, far beyond any realistic run length.
pub const ANGLE_BOUND: i64 = 1_000_000_000 * TURN;

/// Divisor taking `r * r` (with `0 <= r <= QUARTER` in angle units) to
/// `FP` units; it equals `QUARTER * QUARTER / FP`.
pub const COS_DENOM: i64 = 1_000_000_000;

/// Cosine on the first quadrant, `0 <= r <= QUARTER`, in `FP` units:
/// the quadratic `FP * (1 - (r / QUARTER)^2)` evaluated in fixed point.
pub open spec fn cos_base(r: int) -> int {
    FP - (r * r) / (COS_DENOM as int)
}

/// Fixed-point cosine of an angle in `QUARTER`-per-quarter-turn units,
/// reduced to one turn and folded onto the first quadrant.
pub open spec fn spec_cos(a: int) -> int {
    let m = a % (TURN as int);
    if m < QUARTER {
        cos_base(m)
    } else if m < 2 * QUARTER {
        -cos_base(2 * QUARTER - m)
    } else if m < 3 * QUARTER {
        -cos_base(m - 2 * QUARTER)
    } else {
        cos_base(4 * QUARTER - m)
    }
}

/// Fixed-point sine: the cosine a quarter turn behind.
pub open spec fn spec_sin(a: int) -> int {
    spec_cos(a - QUARTER)
}

/// Cosine on the first quadrant stays between 0 and one.
pub proof fn lemma_cos_base_range(r: int)
    requires
        0 <= r <= QUARTER,
    ensures
        0 <= cos_base(r) <= FP,
{
    assert(0 <= r * r <= QUARTER * QUARTER) by (nonlinear_arith)
        requires 0 <= r <= QUARTER;
    lemma_div_pos_is_pos(r * r, COS_DENOM as int);
    lemma_div_is_ordered(r * r, QUARTER * QUARTER, COS_DENOM as int);
    assert((QUARTER * QUARTER) as int / (COS_DENOM as int) == FP);
}

/// The cosine of any angle stays between minus one and one.
pub proof fn lemma_cos_range(a: int)
    ensures
        -FP <= spec_cos(a) <= FP,
{
    lemma_mod_bound(a, TURN as int);
    let m = a % (TURN as int);
    if m < QUARTER {
        lemma_cos_base_range(m);
    } else if m < 2 * QUARTER {
        lemma_cos_base_range(2 * QUARTER - m);
    } else if m < 3 * QUARTER {
        lemma_cos_base_range(m - 2 * QUARTER);
    } else {
        lemma_cos_base_range(4 * QUARTER - m);
    }
}

/// Law: the cosine is periodic in a full turn.
pub proof fn lemma_cos_periodic(a: int)
    ensures
        spec_cos(a + TURN) == spec_cos(a),
{
    lemma_mod_multiples_vanish(1, a, TURN as int);
}

/// Law: the cosine is exact at the four quarter-turn multiples.
pub proof fn lemma_cos_quarters()
    ensures
        spec_cos(0) == FP,
        spec_cos(QUARTER as int) == 0,
        spec_cos(2 * QUARTER) == -FP,
        spec_cos(3 * QUARTER) == 0,
{
    lemma_small_quarter_facts();
}

/// The divisions that the quarter-turn values come down to.
proof fn lemma_small_quarter_facts()
    ensures
        0int % (TURN as int) == 0,
        (QUARTER as int) % (TURN as int) == QUARTER,
        (2 * QUARTER) % (TURN as int) == 2 * QUARTER,
        (3 * QUARTER) % (TURN as int) == 3 * QUARTER,
        0int / (COS_DENOM as int) == 0,
        ((QUARTER * QUARTER) as int) / (COS_DENOM as int) == FP,
{
    vstd::arithmetic::div_mod::lemma_small_mod(0nat, TURN as nat);
    vstd::arithmetic::div_mod::lemma_small_mod(QUARTER as nat, TURN as nat);
    vstd::arithmetic::div_mod::lemma_small_mod((2 * QUARTER) as nat, TURN as nat);
    vstd::arithmetic::div_mod::lemma_small_mod((3 * QUARTER) as nat, TURN as nat);
    lemma_basic_div(0, COS_DENOM as int);
}

/// Cosine on the first quadrant, executable.
fn cos_base_exec(r: i64) -> (c: i64)
    requires
        0 <= r <= QUARTER,
    ensures
        c == cos_base(r as int),
{
    proof {
        assert(0 <= r * r <= QUARTER * QUARTER) by (nonlinear_arith)
            requires 0 <= r <= QUARTER;
        lemma_div_pos_is_pos(r as int * r as int, COS_DENOM as int);
        lemma_div_is_ordered(r as int * r as int, QUARTER * QUARTER, COS_DENOM as int);
    }
    FP - (r * r) / COS_DENOM
}

/// Fixed-point cosine of an angle in `QUARTER`-per-quarter-turn units.
pub fn cos(a: i64) -> (c: i64)
    requires
        -ANGLE_BOUND - TURN <= a <= ANGLE_BOUND + TURN,
    ensures
        c == spec_cos(a as int),
        -FP <= c <= FP,
{
    proof {
        lemma_mod_multiples_vanish(2 * 1_000_000_000int, a as int, TURN as int);
        lemma_mod_bound((a + 2 * ANGLE_BOUND) as int, TURN as int);
        lemma_cos_range(a as int);
    }
    let b: i64 = a + 2 * ANGLE_BOUND;
    let m: i64 = b % TURN;
    if m < QUARTER {
        cos_base_exec(m)
    } else if m < 2 * QUARTER {
        -cos_base_exec(2 * QUARTER - m)
    } else if m < 3 * QUARTER {
        -cos_base_exec(m - 2 * QUARTER)
    } else {
        cos_base_exec(4 * QUARTER - m)
    }
}

/// Fixed-point sine of an angle in `QUARTER`-per-quarter-turn units.
pub fn sin(a: i64) -> (s: i64)
    requires
        -ANGLE_BOUND <= a <= ANGLE_BOUND,
    ensures
        s == spec_sin(a as int),
        -FP <= s <= FP,
{
    cos(a - QUARTER)
}

} // verus!
