//! Fixed-point quality values and the temporal-difference update rule.
//!
//! A quality, a learning rate, a discount factor and an exploration
//! probability are all held as whole multiples of one millionth: the integer
//! `QUALITY_ONE` stands for the real number 1.

use vstd::arithmetic::div_mod::lemma_fundamental_div_mod;
use vstd::prelude::*;

verus! {

/// The fixed-point representation of 1.
pub const QUALITY_ONE: i64 = 1_000_000;

/// `QUALITY_ONE` squared: the denominator of a product of two fixed-point values.
pub const QUALITY_ONE_SQUARED: i128 = 1_000_000_000_000;

/// The value a greedy search over a row reports: the larger entry, but never
/// below the baseline 0.
pub open spec fn row_best(left: int, right: int) -> int {
    if right > left && right > 0 {
        right
    } else if left > 0 {
        left
    } else {
        0
    }
}

/// The larger entry of a row: the best value the table expects from a position.
pub open spec fn row_max(left: int, right: int) -> int {
    if right > left {
        right
    } else {
        left
    }
}

/// A greedy search over a row picks the right-hand action only when that
/// entry beats both the left-hand entry and the baseline 0.
pub open spec fn greedy_picks_right(left: int, right: int) -> bool {
    right > left && right > 0
}

/// `x` kept inside the range of `i64`.
pub open spec fn clamp_i64(x: int) -> int {
    if x > i64::MAX {
        i64::MAX as int
    } else if x < i64::MIN {
        i64::MIN as int
    } else {
        x
    }
}

/// The target of an update, `reward + gamma * best`, scaled by `QUALITY_ONE`
/// once more than a quality is.
pub open spec fn scaled_target(gamma: int, reward: int, best: int) -> int {
    reward * QUALITY_ONE * QUALITY_ONE + gamma * best
}

/// The target of an update as a quality, rounded down.
pub open spec fn td_target(gamma: int, reward: int, best: int) -> int {
    scaled_target(gamma, reward, best) / (QUALITY_ONE as int)
}

/// `(1 - alpha) * q + alpha * (reward + gamma * best)`, rounded down and kept
/// inside the range of `i64`; `alpha` and `gamma` are fixed-point, `reward` is
/// a whole number.
pub open spec fn td_update(q: int, alpha: int, gamma: int, reward: int, best: int) -> int {
    clamp_i64(
        ((QUALITY_ONE - alpha) * q * QUALITY_ONE + alpha * scaled_target(gamma, reward, best)) / (
        QUALITY_ONE_SQUARED as int),
    )
}

/// Computes `td_update(q, alpha, gamma, reward, best)` in 128-bit arithmetic,
/// where no intermediate value can overflow.
pub fn td_update_value(q: i64, alpha: u32, gamma: u32, reward: i64, best: i64) -> (r: i64)
    requires
        alpha <= QUALITY_ONE,
        gamma <= QUALITY_ONE,
    ensures
        r == td_update(q as int, alpha as int, gamma as int, reward as int, best as int),
{
    let one: i128 = QUALITY_ONE as i128;
    let a: i128 = alpha as i128;
    let g: i128 = gamma as i128;
    let qq: i128 = q as i128;
    let rw: i128 = reward as i128;
    let b: i128 = best as i128;
    proof {
        let lim: int = 0x8000_0000_0000_0000;
        assert(-lim <= qq < lim && -lim <= rw < lim && -lim <= b < lim);
        assert(-lim * 1_000_000 <= g * b <= lim * 1_000_000) by (nonlinear_arith)
            requires
                0 <= g <= 1_000_000,
                -lim <= b < lim,
        ;
        assert(-lim * 1_000_000_000_000 <= rw * one * one <= lim * 1_000_000_000_000)
            by (nonlinear_arith)
            requires
                one == 1_000_000,
                -lim <= rw < lim,
        ;
        assert(-lim * 1_000_000_000_000 <= (one - a) * qq * one <= lim * 1_000_000_000_000)
            by (nonlinear_arith)
            requires
                one == 1_000_000,
                0 <= a <= one,
                -lim <= qq < lim,
        ;
        let s = rw * one * one + g * b;
        assert(-lim * 1_000_001_000_000_000_000 <= a * s <= lim * 1_000_001_000_000_000_000)
            by (nonlinear_arith)
            requires
                0 <= a <= 1_000_000,
                -lim * 1_000_001_000_000 <= s <= lim * 1_000_001_000_000,
        ;
    }
    let s: i128 = rw * one * one + g * b;
    let n: i128 = (one - a) * qq * one + a * s;
    let floor: i128 = if n >= 0 {
        (n as u128 / QUALITY_ONE_SQUARED as u128) as i128
    } else {
        let m: u128 = (-n) as u128;
        let up: u128 = (m + (QUALITY_ONE_SQUARED as u128 - 1)) / QUALITY_ONE_SQUARED as u128;
        -(up as i128)
    };
    proof {
        let d = QUALITY_ONE_SQUARED as int;
        let ni = n as int;
        if ni < 0 {
            let m = -ni;
            let up = (m + d - 1) / d;
            lemma_fundamental_div_mod(m + d - 1, d);
            lemma_fundamental_div_mod(ni, d);
            assert(-up == ni / d) by (nonlinear_arith)
                requires
                    d > 0,
                    m + d - 1 == d * up + (m + d - 1) % d,
                    0 <= (m + d - 1) % d < d,
                    ni == d * (ni / d) + ni % d,
                    0 <= ni % d < d,
                    m == -ni,
            ;
        }
    }
    if floor > i64::MAX as i128 {
        i64::MAX
    } else if floor < i64::MIN as i128 {
        i64::MIN
    } else {
        floor as i64
    }
}

/// Rounding down after a division by a positive number keeps the order with
/// multiples of it.
proof fn lemma_floor_bounds(x: int, d: int, k: int)
    requires
        d > 0,
    ensures
        k * d <= x ==> k <= x / d,
        x < (k + 1) * d ==> x / d <= k,
{
    lemma_fundamental_div_mod(x, d);
    let f = x / d;
    let m = x % d;
    assert(0 <= m < d);
    if k * d <= x {
        assert(k <= f) by (nonlinear_arith)
            requires
                k * d <= x,
                x == d * f + m,
                m < d,
                d > 0,
        ;
    }
    if x < (k + 1) * d {
        assert(f <= k) by (nonlinear_arith)
            requires
                x < (k + 1) * d,
                x == d * f + m,
                0 <= m,
                d > 0,
        ;
    }
}

/// The update is a convex combination: the new quality lies between the old
/// one and the (rounded-down) target, both included, for every learning rate
/// in [0, 1], every discount factor and every reward.
pub proof fn lemma_td_update_between(q: int, alpha: int, gamma: int, reward: int, best: int)
    requires
        i64::MIN <= q <= i64::MAX,
        0 <= alpha <= QUALITY_ONE,
    ensures
        ({
            let t = td_target(gamma, reward, best);
            let v = td_update(q, alpha, gamma, reward, best);
            (q <= v <= t) || (t <= v <= q)
        }),
{
    let one = QUALITY_ONE as int;
    let d = QUALITY_ONE_SQUARED as int;
    let s = scaled_target(gamma, reward, best);
    let t = td_target(gamma, reward, best);
    let n = (one - alpha) * q * one + alpha * s;
    lemma_floor_bounds(s, one, t);
    lemma_fundamental_div_mod(s, one);
    assert(t * one <= s < (t + 1) * one) by (nonlinear_arith)
        requires
            s == one * t + s % one,
            0 <= s % one < one,
    ;
    lemma_floor_bounds(n, d, q);
    lemma_floor_bounds(n, d, t);
    if q <= t {
        assert(q * d <= n) by (nonlinear_arith)
            requires
                q <= t,
                t * one <= s,
                0 <= alpha <= one,
                one == 1_000_000,
                d == one * one,
                n == (one - alpha) * q * one + alpha * s,
        ;
        assert(n < (t + 1) * d) by (nonlinear_arith)
            requires
                q <= t,
                s < (t + 1) * one,
                0 <= alpha <= one,
                one == 1_000_000,
                d == one * one,
                n == (one - alpha) * q * one + alpha * s,
        ;
    } else {
        assert(t * d <= n) by (nonlinear_arith)
            requires
                t < q,
                t * one <= s,
                0 <= alpha <= one,
                one == 1_000_000,
                d == one * one,
                n == (one - alpha) * q * one + alpha * s,
        ;
        assert(n < (q + 1) * d) by (nonlinear_arith)
            requires
                t + 1 <= q,
                s < (t + 1) * one,
                0 <= alpha <= one,
                one == 1_000_000,
                d == one * one,
                n == (one - alpha) * q * one + alpha * s,
        ;
        lemma_floor_bounds(n, d, q);
    }
}

} // verus!
