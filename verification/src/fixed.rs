//! Fixed-point arithmetic for the substrate's continuous quantities.
//!
//! Probabilities, weights, learning rates and access frequencies are stored
//! as an integer number of millionths (`SCALE` units per 1.0). Every update
//! rule of the model is then exact integer arithmetic, stated and proved
//! over mathematical integers.

use vstd::arithmetic::div_mod::{
    lemma_div_is_ordered, lemma_div_is_ordered_by_denominator, lemma_div_multiples_vanish,
    lemma_div_pos_is_pos,
};
use vstd::arithmetic::mul::{
    lemma_mul_inequality, lemma_mul_is_commutative, lemma_mul_nonnegative, lemma_mul_upper_bound,
};
use vstd::prelude::*;

verus! {

/// Fixed-point units per 1.0: all ratios are counted in millionths.
pub const SCALE: u64 = 1_000_000;

/// Milliseconds in one hour.
pub const MS_PER_HOUR: u64 = 3_600_000;

/// Milliseconds in one day.
pub const MS_PER_DAY: u64 = 86_400_000;

/// Largest representable access frequency, in `SCALE` units of accesses
/// per hour: two accesses one millisecond apart rate 3,600,000 per hour.
pub const MAX_FREQUENCY: u64 = 3_600_000_000_000;

/// Decay exponents at or above this value (20.0 in `SCALE` units) decay a
/// probability all the way to zero.
pub const DECAY_EXP_CAP: u64 = 20_000_000;

/// A value clamped into the unit interval `[0, SCALE]`.
pub open spec fn clamp_unit_spec(x: int) -> int {
    if x < 0 {
        0
    } else if x > SCALE {
        SCALE as int
    } else {
        x
    }
}

/// Clamp a possibly out-of-range fixed-point ratio into `[0, SCALE]`.
pub fn clamp_unit(x: i64) -> (r: u64)
    ensures
        r == clamp_unit_spec(x as int),
        r <= SCALE,
{
    if x < 0 {
        0
    } else if x > SCALE as i64 {
        SCALE
    } else {
        x as u64
    }
}

/// Milliseconds elapsed from `last` to `now`; a clock that moved backwards
/// counts as no elapsed time.
pub open spec fn elapsed_ms_spec(now: int, last: int) -> int {
    if now >= last {
        now - last
    } else {
        0
    }
}

/// Milliseconds elapsed from `last` to `now`, saturating at zero.
pub fn elapsed_ms(now: u64, last: u64) -> (r: u64)
    ensures
        r == elapsed_ms_spec(now as int, last as int),
{
    if now >= last {
        now - last
    } else {
        0
    }
}

/// A span of milliseconds converted to hours, in `SCALE` units.
pub open spec fn hours_fixed_spec(ms: int) -> int {
    ms * SCALE / MS_PER_HOUR as int
}

/// Convert a span of milliseconds to fixed-point hours.
pub fn hours_fixed(ms: u64) -> (r: u64)
    ensures
        r == hours_fixed_spec(ms as int),
        r <= ms,
{
    proof {
        lemma_mul_div_le(ms as int, SCALE as int, MS_PER_HOUR as int);
        assert((ms as u128) * (SCALE as u128) == (ms as int) * (SCALE as int)) by (nonlinear_arith);
    }
    let wide: u128 = (ms as u128) * (SCALE as u128);
    let q: u128 = wide / (MS_PER_HOUR as u128);
    q as u64
}

/// One learning step of the probabilistic edge model: both inputs are
/// clamped into the unit interval, then the probability moves a
/// `rate`-sized fraction of the way toward `target`.
pub open spec fn learn_spec(p: int, target: int, rate: int) -> int {
    let t = clamp_unit_spec(target);
    let a = clamp_unit_spec(rate);
    if t >= p {
        p + a * (t - p) / SCALE as int
    } else {
        p - a * (p - t) / SCALE as int
    }
}

/// One exponential-moving-average learning step toward `target`
/// (both `target` and `rate` are fixed-point ratios, clamped to
/// `[0, SCALE]`). The result never leaves the unit interval.
pub fn learn_step(p: u64, target: i64, rate: i64) -> (r: u64)
    requires
        p <= SCALE,
    ensures
        r == learn_spec(p as int, target as int, rate as int),
        r <= SCALE,
{
    let t = clamp_unit(target);
    let a = clamp_unit(rate);
    if t >= p {
        proof {
            lemma_mul_upper_bound(a as int, SCALE as int, t - p, SCALE as int);
            lemma_mul_nonnegative(a as int, t - p);
            lemma_mul_is_commutative(a as int, t - p);
            lemma_mul_div_le((t - p) as int, a as int, SCALE as int);
        }
        let delta = a * (t - p) / SCALE;
        p + delta
    } else {
        proof {
            lemma_mul_upper_bound(a as int, SCALE as int, p - t, SCALE as int);
            lemma_mul_nonnegative(a as int, p - t);
            lemma_mul_is_commutative(a as int, p - t);
            lemma_mul_div_le((p - t) as int, a as int, SCALE as int);
        }
        let delta = a * (p - t) / SCALE;
        p - delta
    }
}

/// A learning step never leaves the interval spanned by the old
/// probability and the clamped target: learning moves toward the target,
/// monotonically, and never overshoots it. In particular the result
/// always stays in the unit interval.
pub proof fn lemma_learn_bounds(p: int, target: int, rate: int)
    requires
        0 <= p <= SCALE,
    ensures
        clamp_unit_spec(target) >= p ==> p <= learn_spec(p, target, rate) <= clamp_unit_spec(
            target,
        ),
        clamp_unit_spec(target) < p ==> clamp_unit_spec(target) <= learn_spec(p, target, rate)
            <= p,
        0 <= learn_spec(p, target, rate) <= SCALE,
{
    let t = clamp_unit_spec(target);
    let a = clamp_unit_spec(rate);
    if t >= p {
        lemma_mul_is_commutative(a, t - p);
        lemma_mul_div_le(t - p, a, SCALE as int);
    } else {
        lemma_mul_is_commutative(a, p - t);
        lemma_mul_div_le(p - t, a, SCALE as int);
    }
}

/// The rolling access frequency after one access, `elapsed_ms`
/// milliseconds after the previous one: an exponential moving average
/// (smoothing factor 0.1) of the instantaneous rate in accesses per hour,
/// left unchanged when no time has passed.
pub open spec fn ema_frequency_spec(freq: int, elapsed_ms: int) -> int {
    if elapsed_ms <= 0 {
        freq
    } else {
        (9 * freq + (MS_PER_HOUR * SCALE) as int / elapsed_ms) / 10
    }
}

/// Fold one access, made `elapsed_ms` milliseconds after the previous
/// one, into the exponential moving average of the access frequency.
pub fn ema_frequency(freq: u64, elapsed_ms: u64) -> (r: u64)
    requires
        freq <= MAX_FREQUENCY,
    ensures
        r == ema_frequency_spec(freq as int, elapsed_ms as int),
        r <= MAX_FREQUENCY,
{
    if elapsed_ms == 0 {
        freq
    } else {
        let instant = (MS_PER_HOUR * SCALE) / elapsed_ms;
        proof {
            lemma_div_is_ordered_by_denominator(MAX_FREQUENCY as int, 1, elapsed_ms as int);
            lemma_div_is_ordered(
                9 * freq + instant,
                10 * MAX_FREQUENCY as int,
                10,
            );
            lemma_div_multiples_vanish(MAX_FREQUENCY as int, 10);
            lemma_div_pos_is_pos(9 * freq + instant, 10);
        }
        (9 * freq + instant) / 10
    }
}

/// A span of milliseconds converted to days, in `SCALE` units.
pub open spec fn days_fixed_spec(ms: int) -> int {
    ms * SCALE / MS_PER_DAY as int
}

/// Convert a span of milliseconds to fixed-point days.
pub fn days_fixed(ms: u64) -> (r: u64)
    ensures
        r == days_fixed_spec(ms as int),
        r <= ms,
{
    proof {
        lemma_mul_div_le(ms as int, SCALE as int, MS_PER_DAY as int);
        assert((ms as u128) * (SCALE as u128) == (ms as int) * (SCALE as int)) by (nonlinear_arith);
    }
    let wide: u128 = (ms as u128) * (SCALE as u128);
    let q: u128 = wide / (MS_PER_DAY as u128);
    q as u64
}

/// The decay exponent `rate * days`, both factors in `SCALE` units.
pub open spec fn decay_exponent_spec(rate: int, elapsed_ms: int) -> int {
    rate * days_fixed_spec(elapsed_ms) / SCALE as int
}

/// Cubic polynomial lower approximation of `exp` at a nonnegative
/// fixed-point exponent `x`: the first four terms of the exponential
/// series, in `SCALE` units.
pub open spec fn exp_poly_spec(x: int) -> int {
    SCALE + x + x * x / (2 * SCALE) as int + x * x * x / (6 * SCALE * SCALE) as int
}

/// The multiplicative decay factor `exp(-x)` for a nonnegative
/// fixed-point exponent `x`, approximated as the reciprocal of the
/// exponential series' first four terms; exponents of 20.0 or more
/// decay to zero outright. The approximation is accurate for the small
/// exponents that a decay sweep running at short intervals produces:
/// within a millionth of the true exponential for exponents up to a few
/// hundredths, and never more than about 0.03 of full scale away from
/// it, the drift being worst (the stand-in decaying too slowly) near
/// exponents around 3.
pub open spec fn decay_factor_spec(x: int) -> int {
    if x >= DECAY_EXP_CAP {
        0
    } else {
        SCALE as int * SCALE as int / exp_poly_spec(x)
    }
}

/// A probability after exponential decay over `elapsed_ms` milliseconds
/// at `rate` per day (fixed-point).
pub open spec fn decay_spec(p: int, rate: int, elapsed_ms: int) -> int {
    p * decay_factor_spec(decay_exponent_spec(rate, elapsed_ms)) / SCALE as int
}

/// The decay factor is itself a ratio in the unit interval.
pub proof fn lemma_decay_factor_bounds(x: int)
    requires
        0 <= x,
    ensures
        0 <= decay_factor_spec(x) <= SCALE,
{
    if x < DECAY_EXP_CAP {
        lemma_exp_poly_at_least_scale(x);
        lemma_div_pos_is_pos(SCALE as int * SCALE as int, exp_poly_spec(x));
        lemma_div_is_ordered_by_denominator(
            SCALE as int * SCALE as int,
            SCALE as int,
            exp_poly_spec(x),
        );
        lemma_div_multiples_vanish(SCALE as int, SCALE as int);
    }
}

/// The exponential series at a nonnegative exponent is at least its
/// constant term.
proof fn lemma_exp_poly_at_least_scale(x: int)
    requires
        0 <= x,
    ensures
        exp_poly_spec(x) >= SCALE,
{
    lemma_mul_nonnegative(x, x);
    lemma_div_pos_is_pos(x * x, (2 * SCALE) as int);
    lemma_mul_nonnegative(x * x, x);
    lemma_mul_is_commutative(x * x, x);
    lemma_div_pos_is_pos(x * x * x, (6 * SCALE * SCALE) as int);
}

/// The decay factor for an exponent known to lie under the cap.
fn decay_factor_small(x: u64) -> (r: u64)
    requires
        x < DECAY_EXP_CAP,
    ensures
        r == decay_factor_spec(x as int),
        r <= SCALE,
{
    proof {
        lemma_mul_upper_bound(x as int, DECAY_EXP_CAP as int, x as int, DECAY_EXP_CAP as int);
        lemma_mul_nonnegative(x as int, x as int);
    }
    let sq: u64 = x * x;
    let quad_term: u64 = sq / (2 * SCALE);
    proof {
        lemma_div_is_ordered(sq as int, 400_000_000_000_000, (2 * SCALE) as int);
        assert((x as u128) * (x as u128) == (x as int) * (x as int)) by (nonlinear_arith);
        lemma_mul_upper_bound(
            (x * x) as int,
            400_000_000_000_000,
            x as int,
            DECAY_EXP_CAP as int,
        );
        lemma_mul_nonnegative((x * x) as int, x as int);
        assert((sq as u128) * (x as u128) == (sq as int) * (x as int)) by (nonlinear_arith);
        lemma_div_is_ordered(
            (sq as int) * (x as int),
            8_000_000_000_000_000_000_000,
            (6 * SCALE * SCALE) as int,
        );
        lemma_div_pos_is_pos((sq as int) * (x as int), (6 * SCALE * SCALE) as int);
    }
    let cube: u128 = (sq as u128) * (x as u128);
    let cube_term: u64 = (cube / ((6 * SCALE * SCALE) as u128)) as u64;
    let poly: u64 = SCALE + x + quad_term + cube_term;
    proof {
        lemma_exp_poly_at_least_scale(x as int);
        lemma_div_is_ordered_by_denominator(
            SCALE as int * SCALE as int,
            SCALE as int,
            poly as int,
        );
        lemma_div_multiples_vanish(SCALE as int, SCALE as int);
    }
    (SCALE * SCALE) / poly
}

/// Decay a probability over `elapsed_ms` milliseconds at `rate` per day.
/// The result never exceeds the probability it started from.
pub fn decay_value(p: u64, rate: u64, elapsed_ms: u64) -> (r: u64)
    requires
        p <= SCALE,
    ensures
        r == decay_spec(p as int, rate as int, elapsed_ms as int),
        r <= p,
{
    let days: u64 = days_fixed(elapsed_ms);
    proof {
        lemma_mul_upper_bound(rate as int, u64::MAX as int, days as int, u64::MAX as int);
        assert((rate as u128) * (days as u128) == (rate as int) * (days as int))
            by (nonlinear_arith);
        lemma_mul_nonnegative(rate as int, days as int);
        lemma_div_pos_is_pos((rate as int) * (days as int), SCALE as int);
    }
    let x128: u128 = (rate as u128) * (days as u128) / (SCALE as u128);
    let factor: u64 = if x128 >= DECAY_EXP_CAP as u128 {
        proof {
            lemma_decay_factor_bounds(decay_exponent_spec(rate as int, elapsed_ms as int));
        }
        0u64
    } else {
        decay_factor_small(x128 as u64)
    };
    proof {
        lemma_mul_upper_bound(p as int, SCALE as int, factor as int, SCALE as int);
        lemma_mul_nonnegative(p as int, factor as int);
        lemma_mul_div_le(p as int, factor as int, SCALE as int);
    }
    (p * factor) / SCALE
}

/// `r` is the integer square root of `n`.
pub open spec fn is_sqrt_spec(n: int, r: int) -> bool {
    &&& 0 <= r
    &&& r * r <= n
    &&& n < (r + 1) * (r + 1)
}

/// The integer square root: the largest `r` with `r * r <= n`.
pub fn isqrt(n: u64) -> (r: u64)
    ensures
        is_sqrt_spec(n as int, r as int),
{
    let mut lo: u64 = 0;
    let mut hi: u64 = 4_294_967_296;
    proof {
        assert((n as int) < 4_294_967_296 * 4_294_967_296) by (nonlinear_arith)
            requires
                n <= u64::MAX,
        ;
    }
    while lo + 1 < hi
        invariant
            lo < hi,
            hi <= 4_294_967_296,
            (lo as int) * (lo as int) <= n as int,
            (n as int) < (hi as int) * (hi as int),
        decreases hi - lo,
    {
        let mid: u64 = lo + (hi - lo) / 2;
        proof {
            lemma_mul_upper_bound(mid as int, 4_294_967_296, mid as int, 4_294_967_296);
            lemma_mul_nonnegative(mid as int, mid as int);
            assert((mid as u128) * (mid as u128) == (mid as int) * (mid as int))
                by (nonlinear_arith);
        }
        let sq: u128 = (mid as u128) * (mid as u128);
        if sq <= n as u128 {
            lo = mid;
        } else {
            hi = mid;
        }
    }
    lo
}

/// `x * a / b` stays between 0 and `x` when `0 <= a <= b`.
pub proof fn lemma_mul_div_le(x: int, a: int, b: int)
    requires
        0 <= x,
        0 <= a <= b,
        0 < b,
    ensures
        0 <= x * a / b <= x,
{
    lemma_mul_nonnegative(x, a);
    lemma_div_pos_is_pos(x * a, b);
    lemma_mul_inequality(a, b, x);
    lemma_mul_is_commutative(a, x);
    lemma_mul_is_commutative(b, x);
    lemma_div_is_ordered(x * a, x * b, b);
    lemma_div_multiples_vanish(x, b);
    lemma_mul_is_commutative(x, b);
}

} // verus!
