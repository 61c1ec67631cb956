//! Fixed-point arithmetic in millionths: an integer square root and a
//! rational sine wave.

use vstd::prelude::*;

verus! {

/// The number one, in millionths.
pub const UNIT: u64 = 1_000_000;

/// Half a turn of the wave (the number pi), in millionths.
pub const HALF_TURN: u64 = 3_141_593;

/// A quarter of a turn of the wave, in millionths.
pub const QUARTER_TURN: u64 = 1_570_796;

/// A full turn of the wave, in millionths: the wave's period.
pub const FULL_TURN: u64 = 6_283_186;

/// Whether `r` is the integer square root of `n`: the largest integer
/// whose square does not exceed `n`.
pub open spec fn is_root(n: int, r: int) -> bool {
    0 <= r && r * r <= n < (r + 1) * (r + 1)
}

/// The integer square root of `n`.
pub open spec fn root(n: int) -> int {
    choose|r: int| is_root(n, r)
}

/// A number has at most one integer square root.
pub proof fn lemma_root_unique(n: int, a: int, b: int)
    requires
        is_root(n, a),
        is_root(n, b),
    ensures
        a == b,
{
    if a < b {
        assert((a + 1) * (a + 1) <= b * b) by (nonlinear_arith)
            requires
                0 <= a + 1 <= b,
        ;
    }
    if b < a {
        assert((b + 1) * (b + 1) <= a * a) by (nonlinear_arith)
            requires
                0 <= b + 1 <= a,
        ;
    }
}

/// The integer square root grows with its argument.
pub proof fn lemma_root_monotonic(n: int, m: int, a: int, b: int)
    requires
        is_root(n, a),
        is_root(m, b),
        n <= m,
    ensures
        a <= b,
{
    if b < a {
        assert((b + 1) * (b + 1) <= a * a) by (nonlinear_arith)
            requires
                0 <= b + 1 <= a,
        ;
    }
}

/// The integer square root of `n`, found by bisection.
pub fn isqrt(n: u128) -> (r: u64)
    ensures
        is_root(n as int, r as int),
        r == root(n as int),
{
    let mut low: u128 = 0;
    let mut high: u128 = 0x1_0000_0000_0000_0000;
    assert(high * high > n) by (nonlinear_arith)
        requires
            high == 0x1_0000_0000_0000_0000,
            n <= u128::MAX,
    ;
    while high - low > 1
        invariant
            low < high <= 0x1_0000_0000_0000_0000,
            low * low <= n < high * high,
        decreases high - low,
    {
        let mid: u128 = low + (high - low) / 2;
        assert(mid * mid <= 0xFFFF_FFFF_FFFF_FFFF * 0xFFFF_FFFF_FFFF_FFFF) by (nonlinear_arith)
            requires
                0 <= mid <= 0xFFFF_FFFF_FFFF_FFFF,
        ;
        if mid * mid <= n {
            low = mid;
        } else {
            high = mid;
        }
    }
    proof {
        assert(high == low + 1);
        assert(is_root(n as int, low as int));
        lemma_root_unique(n as int, low as int, root(n as int));
    }
    low as u64
}

/// One arch of the wave: for `x` between zero and half a turn, a
/// rational function in the shape of the sine's first arch. It is 0 at
/// both ends and stays between 0 and `UNIT`.
pub open spec fn arch(x: int) -> int {
    let q = x * (HALF_TURN - x);
    16 * q * UNIT / (5 * HALF_TURN * HALF_TURN - 4 * q)
}

/// The wave at `phase`, in millionths: an arch upwards over the first
/// half turn, the same arch downwards over the second, and so on with
/// period `FULL_TURN`.
pub open spec fn sine(phase: int) -> int {
    let p = phase % (FULL_TURN as int);
    if p < HALF_TURN {
        arch(p)
    } else {
        -arch(p - HALF_TURN)
    }
}

/// The wave a quarter turn ahead.
pub open spec fn cosine(phase: int) -> int {
    sine(phase + QUARTER_TURN)
}

/// An arch stays between zero and `UNIT`.
pub proof fn lemma_arch_bounds(x: int)
    requires
        0 <= x <= HALF_TURN,
    ensures
        0 <= arch(x) <= UNIT,
        0 <= x * (HALF_TURN - x),
        4 * (x * (HALF_TURN - x)) <= HALF_TURN * HALF_TURN,
{
    let p = HALF_TURN as int;
    let q = x * (p - x);
    assert(0 <= q) by (nonlinear_arith)
        requires
            q == x * (p - x),
            0 <= x <= p,
    ;
    assert(4 * q <= p * p) by (nonlinear_arith)
        requires
            q == x * (p - x),
    {
        assert((p - 2 * x) * (p - 2 * x) >= 0);
        assert((p - 2 * x) * (p - 2 * x) == p * p - 4 * (x * (p - x)));
    }
    let d = 5 * p * p - 4 * q;
    assert(p * p == 9_869_606_577_649);
    assert(d >= 4 * p * p);
    let num = 16 * q * UNIT;
    assert(num <= UNIT * d);
    assert(0 <= num / d <= UNIT) by (nonlinear_arith)
        requires
            0 <= num <= UNIT * d,
            d > 0,
    ;
}

/// The wave stays between minus `UNIT` and `UNIT`.
pub proof fn lemma_sine_bounds(phase: int)
    ensures
        -UNIT <= sine(phase) <= UNIT,
{
    let p = phase % (FULL_TURN as int);
    if p < HALF_TURN {
        lemma_arch_bounds(p);
    } else {
        lemma_arch_bounds(p - HALF_TURN);
    }
}

/// The wave at `phase`.
pub fn wave(phase: u64) -> (w: i64)
    ensures
        w == sine(phase as int),
        -UNIT <= w <= UNIT,
{
    let p: u64 = phase % FULL_TURN;
    let x: u64 = if p < HALF_TURN {
        p
    } else {
        p - HALF_TURN
    };
    proof {
        lemma_arch_bounds(x as int);
    }
    let q: u128 = (x as u128) * ((HALF_TURN - x) as u128);
    let below: u128 = 5 * (HALF_TURN as u128) * (HALF_TURN as u128) - 4 * q;
    let a: u128 = 16 * q * (UNIT as u128) / below;
    if p < HALF_TURN {
        a as i64
    } else {
        -(a as i64)
    }
}

/// The wave a quarter turn ahead of `phase`.
pub fn wave_ahead(phase: u64) -> (w: i64)
    ensures
        w == cosine(phase as int),
        -UNIT <= w <= UNIT,
{
    let p: u64 = phase % FULL_TURN;
    proof {
        lemma_sine_shift(phase as int);
    }
    wave(p + QUARTER_TURN)
}

/// The wave depends on the phase only through its remainder modulo the
/// period, also a quarter turn ahead.
pub proof fn lemma_sine_shift(phase: int)
    ensures
        sine(phase % (FULL_TURN as int) + QUARTER_TURN) == cosine(phase),
{
    let t = FULL_TURN as int;
    assert((phase % t + QUARTER_TURN) % t == (phase + QUARTER_TURN) % t) by {
        vstd::arithmetic::div_mod::lemma_add_mod_noop(phase, QUARTER_TURN as int, t);
        vstd::arithmetic::div_mod::lemma_add_mod_noop(phase % t, QUARTER_TURN as int, t);
        vstd::arithmetic::div_mod::lemma_mod_twice(phase, t);
    }
}

} // verus!
