//! The amplitude envelope of a voice, in integer levels.
//!
//! Levels run from `0` (silence) to `LEVEL_MAX` (full amplitude); sustain
//! levels are parameter values, which share that scale. Times are in any
//! one unit, the same for every argument of a call.
use vstd::prelude::*;
use vstd::arithmetic::div_mod::{lemma_div_is_ordered, lemma_div_multiples_vanish};
use vstd::arithmetic::mul::lemma_mul_inequality;

verus! {

/// Full amplitude.
pub const LEVEL_MAX: u16 = 1000;

/// The level `t` after note-on: a linear rise from silence to full over
/// `a`, a linear fall from full to `s` over the next `d`, then `s`.
pub open spec fn envelope_spec(t: int, a: int, d: int, s: int) -> int {
    if t < a {
        t * LEVEL_MAX / a
    } else if t < a + d {
        LEVEL_MAX - (LEVEL_MAX - s) * (t - a) / d
    } else {
        s
    }
}

/// The level `t` after release began from level `start`: a linear fall to
/// silence over `r`, then silence.
pub open spec fn release_spec(start: int, t: int, r: int) -> int {
    if t >= r {
        0
    } else {
        start * (r - t) / r
    }
}

/// `k * x / z` lies between `0` and `k` when `x` lies between `0` and `z`.
proof fn lemma_scaled_within(k: int, x: int, z: int)
    requires
        0 <= k,
        0 <= x <= z,
        0 < z,
    ensures
        0 <= k * x / z <= k,
{
    lemma_mul_inequality(x, z, k);
    assert(x * k == k * x && z * k == k * z) by (nonlinear_arith);
    lemma_div_is_ordered(k * x, k * z, z);
    lemma_div_is_ordered(0, k * x, z);
    lemma_div_multiples_vanish(k, z);
    assert(z * k == k * z) by (nonlinear_arith);
}

/// The level of a voice `t` after its note began.
pub fn envelope_level(t: u64, attack: u64, decay: u64, sustain: u16) -> (r: u16)
    requires
        sustain <= LEVEL_MAX,
    ensures
        r == envelope_spec(t as int, attack as int, decay as int, sustain as int),
        r <= LEVEL_MAX,
{
    if t < attack {
        proof {
            lemma_scaled_within(LEVEL_MAX as int, t as int, attack as int);
            assert(t as int * LEVEL_MAX as int == LEVEL_MAX as int * t as int) by (nonlinear_arith);
        }
        ((t as u128 * LEVEL_MAX as u128) / attack as u128) as u16
    } else if t - attack < decay {
        let fall = (LEVEL_MAX - sustain) as u128;
        let into = (t - attack) as u128;
        proof {
            lemma_scaled_within(fall as int, into as int, decay as int);
            assert(fall * into <= u16::MAX as int * u64::MAX as int) by (nonlinear_arith)
                requires
                    fall <= u16::MAX,
                    into <= u64::MAX,
            ;
        }
        let drop = (fall * into / decay as u128) as u16;
        LEVEL_MAX - drop
    } else {
        sustain
    }
}

/// The level of a voice `t` after its release began from level `start`.
pub fn release_level(start: u16, t: u64, release: u64) -> (r: u16)
    requires
        start <= LEVEL_MAX,
    ensures
        r == release_spec(start as int, t as int, release as int),
        r <= start,
{
    if t >= release {
        0
    } else {
        let left = (release - t) as u128;
        proof {
            lemma_scaled_within(start as int, left as int, release as int);
            assert(start * left <= u16::MAX as int * u64::MAX as int) by (nonlinear_arith)
                requires
                    start <= u16::MAX,
                    left <= u64::MAX,
            ;
        }
        ((start as u128 * left) / release as u128) as u16
    }
}

/// During the rise the level never falls, and it stays within range.
pub proof fn lemma_attack_rises(t1: int, t2: int, a: int, d: int, s: int)
    requires
        0 <= t1 <= t2 < a,
        0 <= s <= LEVEL_MAX,
    ensures
        envelope_spec(t1, a, d, s) <= envelope_spec(t2, a, d, s),
        0 <= envelope_spec(t2, a, d, s) <= LEVEL_MAX,
{
    lemma_mul_inequality(t1, t2, LEVEL_MAX as int);
    lemma_div_is_ordered(t1 * LEVEL_MAX, t2 * LEVEL_MAX, a);
    lemma_scaled_within(LEVEL_MAX as int, t2, a);
    assert(t2 * LEVEL_MAX == LEVEL_MAX * t2) by (nonlinear_arith);
}

/// Once released, a voice only gets quieter, and from `r` on it is silent
/// for good.
pub proof fn lemma_release_decays(start: int, t1: int, t2: int, r: int)
    requires
        0 <= start <= LEVEL_MAX,
        0 <= t1 <= t2,
    ensures
        release_spec(start, t2, r) <= release_spec(start, t1, r),
        0 <= release_spec(start, t2, r),
        t2 >= r ==> release_spec(start, t2, r) == 0,
{
    if t2 < r {
        lemma_mul_inequality(r - t2, r - t1, start);
        assert((r - t2) * start == start * (r - t2) && (r - t1) * start == start * (r - t1))
            by (nonlinear_arith);
        lemma_div_is_ordered(start * (r - t2), start * (r - t1), r);
        lemma_scaled_within(start, r - t2, r);
    } else if t1 < r {
        lemma_scaled_within(start, r - t1, r);
    }
}

} // verus!
