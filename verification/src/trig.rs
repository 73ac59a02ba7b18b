//! Fixed-point trigonometry on millidegree angles. The sine over a half turn
//! is Bhaskara I's rational approximation, exact at 0, 30, 90, 150 and 180
//! degrees, scaled so that one equals 1000; the full turn extends it by
//! symmetry and the cosine is the sine shifted a quarter turn.

use vstd::prelude::*;
use vstd::arithmetic::div_mod::lemma_div_is_ordered;
use vstd::arithmetic::div_mod::lemma_div_multiples_vanish;
use vstd::arithmetic::div_mod::lemma_small_mod;
use vstd::arithmetic::div_mod::lemma_fundamental_div_mod_converse;
use vstd::arithmetic::div_mod::lemma_mod_multiples_vanish;

verus! {

/// Half a turn, in millidegrees.
pub const HALF_TURN: u64 = 180_000;

/// A full turn, in millidegrees.
pub const FULL_TURN: u64 = 360_000;

/// Bhaskara's sine over a half turn: for `x` millidegrees in [0, 180000],
/// `4000 x (180000 - x) / (40500e6 - x (180000 - x))`, in [0, 1000].
pub open spec fn spec_sin_half(x: int) -> int {
    4000 * x * (180000 - x) / (40_500_000_000 - x * (180000 - x))
}

/// Sine over the full turn, by half-turn antisymmetry; `x` in [0, 360000).
pub open spec fn spec_sin(x: int) -> int {
    if x <= 180000 {
        spec_sin_half(x)
    } else {
        -spec_sin_half(x - 180000)
    }
}

/// Cosine as the sine shifted a quarter turn; `x` in [0, 360000).
pub open spec fn spec_cos(x: int) -> int {
    spec_sin((x + 90000) % 360000)
}

/// Sine of a signed angle, by antisymmetry.
pub open spec fn spec_sin_signed(x: int) -> int {
    if x >= 0 {
        spec_sin(x)
    } else {
        -spec_sin(-x)
    }
}

/// Cosine of a signed angle, by symmetry.
pub open spec fn spec_cos_signed(x: int) -> int {
    if x >= 0 {
        spec_cos(x)
    } else {
        spec_cos(-x)
    }
}

/// Any angle reduced to [0, 360000).
pub open spec fn spec_norm_angle(x: int) -> int {
    x % 360000
}

/// Computes `spec_sin_half` exactly.
pub fn sin_half_turn(x: u64) -> (r: u64)
    requires
        x <= HALF_TURN,
    ensures
        r == spec_sin_half(x as int),
        r <= 1000,
{
    proof {
        assert(x * (180_000 - x) <= 8_100_000_000) by (nonlinear_arith)
            requires
                0 <= x <= 180_000,
        ;
    }
    let p = x * (180_000 - x);
    let num = 4000 * p;
    let den = 40_500_000_000 - p;
    let r = num / den;
    proof {
        lemma_div_is_ordered(num as int, 1000 * den, den as int);
        lemma_div_multiples_vanish(1000, den as int);
        assert(4000 * (x as int) * (180000 - x as int) == 4000 * (x * (180_000 - x)) as int)
            by (nonlinear_arith)
            requires
                0 <= x <= 180_000,
        ;
    }
    r
}

/// Computes `spec_sin` exactly; the result lies in [-1000, 1000].
pub fn sin_mdeg(x: u64) -> (r: i64)
    requires
        x < FULL_TURN,
    ensures
        r == spec_sin(x as int),
        -1000 <= r <= 1000,
{
    if x <= 180_000 {
        sin_half_turn(x) as i64
    } else {
        let m = sin_half_turn(x - 180_000);
        -(m as i64)
    }
}

/// Computes `spec_cos` exactly; the result lies in [-1000, 1000].
pub fn cos_mdeg(x: u64) -> (r: i64)
    requires
        x < FULL_TURN,
    ensures
        r == spec_cos(x as int),
        -1000 <= r <= 1000,
{
    let shifted = if x < 270_000 {
        x + 90_000
    } else {
        x - 270_000
    };
    proof {
        if x < 270_000 {
            lemma_small_mod((x + 90_000) as nat, 360_000nat);
        } else {
            lemma_fundamental_div_mod_converse(x + 90_000, 360_000, 1, x - 270_000);
        }
    }
    sin_mdeg(shifted)
}

/// Computes `spec_sin_signed` exactly.
pub fn sin_signed(x: i64) -> (r: i64)
    requires
        -180_000 <= x <= 180_000,
    ensures
        r == spec_sin_signed(x as int),
        -1000 <= r <= 1000,
{
    if x >= 0 {
        sin_mdeg(x as u64)
    } else {
        let m = sin_mdeg((-x) as u64);
        -m
    }
}

/// Computes `spec_cos_signed` exactly.
pub fn cos_signed(x: i64) -> (r: i64)
    requires
        -180_000 <= x <= 180_000,
    ensures
        r == spec_cos_signed(x as int),
        -1000 <= r <= 1000,
{
    if x >= 0 {
        cos_mdeg(x as u64)
    } else {
        cos_mdeg((-x) as u64)
    }
}

/// Adds a (bounded) signed delta to an angle and reduces the sum back into
/// [0, 360000).
pub fn norm_angle_add(yaw: u64, delta: i64) -> (r: u64)
    requires
        yaw < 360_000,
        -2_520_000 <= delta <= 2_520_000,
    ensures
        r == spec_norm_angle(yaw + delta),
        r < 360_000,
{
    // Shift by a multiple of the full turn to make the sum nonnegative,
    // which leaves the remainder unchanged.
    let shifted = yaw as i64 + delta + 2_520_000;
    let r = (shifted as u64) % 360_000;
    proof {
        lemma_mod_multiples_vanish(7, yaw + delta, 360_000);
    }
    r
}

} // verus!
