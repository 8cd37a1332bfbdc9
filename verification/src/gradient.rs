//! Color math: the oscillating distance function and linear interpolation
//! along a color range.

use vstd::arithmetic::div_mod::*;
use vstd::arithmetic::mul::*;
use vstd::prelude::*;

use crate::color::Rgb;
use crate::color::RgbRange;

verus! {

/// An exact distance along a gradient, as the fraction `num / den`.
///
/// Values outside `[0, 1]` (that is, `num` below `0` or above `den`) are
/// meaningful arguments to [`linear_gradient`], which clamps them.
#[derive(Clone, Copy, Debug, PartialEq, Eq, Structural)]
pub struct Dist {
    /// numerator of the fraction
    pub num: i128,
    /// denominator of the fraction; a distance needs `den >= 1`
    pub den: usize,
}

/// The denominator used by the oscillation at half-period `n`: a half
/// period of `0` is treated as `1` so that no division by zero arises.
pub open spec fn osc_den(n: int) -> int {
    if n == 0 {
        1
    } else {
        n
    }
}

/// Reduction of an unbounded counter expression into the machine range,
/// mirroring wrapping unsigned arithmetic.
pub open spec fn wrap_counter(v: int) -> int {
    v % (usize::MAX as int + 1)
}

/// Numerator of the oscillating distance: `|((x + n) mod 2n) - n|`, with
/// every sum and product taken with wrapping machine arithmetic, and a
/// wrapped modulus of `0` standing for the full machine range.
pub open spec fn osc_num(x: int, n: int) -> int {
    let n1 = osc_den(n);
    let t = wrap_counter(x + n1);
    let m = wrap_counter(2 * n1);
    let r = if m == 0 {
        t
    } else {
        t % m
    };
    if r >= n1 {
        r - n1
    } else {
        n1 - r
    }
}

/// How far, as a fraction of the way from `0` to `n`, the counter `x`
/// falls along its current half-period.
///
/// The distance moves `0 -> 1` while `(x % 2n) <= n` and `1 -> 0` while
/// `n < (x % 2n) < 2n`, so a gradient driven by it reverses smoothly at
/// each end instead of jumping from `1` back to `0`.
///
/// A half-period `n` of `0` is treated as `1`, and all arithmetic wraps,
/// so no input can panic.
pub fn oscillate_dist(x: usize, n: usize) -> (dist: Dist)
    ensures
        dist.num == osc_num(x as int, n as int),
        dist.den == osc_den(n as int),
        0 <= dist.num <= dist.den,
{
    let n1: usize = if n == 0 {
        1
    } else {
        n
    };
    let t: usize = x.wrapping_add(n1);
    let m: usize = n1.wrapping_mul(2);
    let r: usize = if m == 0 {
        t
    } else {
        t % m
    };
    proof {
        let bound = usize::MAX as int + 1;
        assert(t == wrap_counter(x as int + n1 as int)) by {
            if x + n1 <= usize::MAX {
                lemma_small_mod((x + n1) as nat, bound as nat);
            } else {
                lemma_mod_sub_multiples_vanish(x as int + n1 as int, bound);
                lemma_small_mod((x as int + n1 as int - bound) as nat, bound as nat);
            }
        }
        assert(m == wrap_counter(2 * n1 as int)) by {
            if 2 * n1 as int <= usize::MAX as int {
                lemma_small_mod((2 * n1 as int) as nat, bound as nat);
            } else {
                lemma_mod_sub_multiples_vanish(2 * n1 as int, bound);
                lemma_small_mod((2 * n1 as int - bound) as nat, bound as nat);
            }
        }
        if m == 0 {
            // The doubled half-period wrapped to zero, so `n1` is exactly
            // half the machine range and `t` stays within one period.
            let q = (2 * n1 as int) / bound;
            lemma_fundamental_div_mod(2 * n1 as int, bound);
            assert(q == 1) by (nonlinear_arith)
                requires
                    2 * (n1 as int) == bound * q,
                    1 <= n1 as int,
                    (n1 as int) < bound,
                    2 <= bound;
            assert(2 * n1 as int == bound);
        } else {
            lemma_mod_division_less_than_divisor(t as int, m as int);
            if 2 * n1 as int > usize::MAX as int {
                lemma_mod_sub_multiples_vanish(2 * n1 as int, bound);
                lemma_small_mod((2 * n1 as int - bound) as nat, bound as nat);
                assert(m as int == 2 * n1 as int - bound);
            }
        }
    }
    let num: usize = if r >= n1 {
        r - n1
    } else {
        n1 - r
    };
    proof {
        let bound = usize::MAX as int + 1;
        if m == 0 {
            assert(r as int <= bound - 1);
            assert(2 * n1 as int == bound);
            assert(num <= n1);
        } else if 2 * n1 as int <= usize::MAX as int {
            lemma_small_mod((2 * n1 as int) as nat, bound as nat);
            assert(m as int == 2 * n1 as int);
            assert(r < m);
            assert(num <= n1);
        } else {
            assert(m as int == 2 * n1 as int - bound);
            assert(m <= n1);
            assert(r < m);
            assert(num <= n1);
        }
    }
    Dist { num: num as i128, den: n1 }
}

/// The numerator `num` clamped into `[0, den]`.
pub open spec fn clamped(num: int, den: int) -> int {
    if num < 0 {
        0
    } else if num > den {
        den
    } else {
        num
    }
}

/// One channel of the interpolated color: `s + (num/den) * (e - s)`,
/// written over a common denominator and truncated to an integer.
pub open spec fn channel_at(s: int, e: int, num: int, den: int) -> int {
    (s * den + clamped(num, den) * (e - s)) / den
}

/// The color `dist = num/den` of the way along the linear gradient of
/// `range`, channel by channel, with `dist` clamped into `[0, 1]`.
pub open spec fn gradient_color(range: RgbRange, num: int, den: int) -> Rgb {
    Rgb {
        r: channel_at(range.start.r as int, range.end.r as int, num, den) as u8,
        g: channel_at(range.start.g as int, range.end.g as int, num, den) as u8,
        b: channel_at(range.start.b as int, range.end.b as int, num, den) as u8,
    }
}

/// One channel of the interpolated color, over already-clamped `m`.
fn channel(s: u8, e: u8, m: u128, den: u128) -> (c: u8)
    requires
        1 <= den <= usize::MAX as u128,
        m <= den,
    ensures
        c as int == (s as int * den as int + m as int * (e as int - s as int)) / den as int,
        s <= e ==> s <= c <= e,
        e < s ==> e <= c <= s,
{
    let s_wide: u128 = s as u128;
    let e_wide: u128 = e as u128;
    proof {
        lemma_mul_upper_bound(s as int, 255, den as int, usize::MAX as int);
        lemma_mul_upper_bound(m as int, usize::MAX as int, 255, 255);
    }
    let numer: u128 = if e >= s {
        proof {
            lemma_mul_upper_bound(m as int, den as int, e as int - s as int, 255);
        }
        s_wide * den + m * (e_wide - s_wide)
    } else {
        proof {
            // `m * (s - e) <= den * s = s * den`, so the subtraction stays
            // within range.
            lemma_mul_inequality(m as int, den as int, s as int - e as int);
            lemma_mul_is_commutative(den as int, s as int - e as int);
            lemma_mul_left_inequality(den as int, s as int - e as int, s as int);
            lemma_mul_is_commutative(den as int, s as int);
        }
        s_wide * den - m * (s_wide - e_wide)
    };
    assert(numer as int == s as int * den as int + m as int * (e as int - s as int)) by {
        lemma_mul_is_distributive_sub(m as int, e as int, s as int);
        lemma_mul_is_distributive_sub(m as int, s as int, e as int);
    }
    let q: u128 = numer / den;
    proof {
        let lo: int = if s <= e {
            s as int
        } else {
            e as int
        };
        let hi: int = if s <= e {
            e as int
        } else {
            s as int
        };
        assert(lo * den <= numer as int <= hi * den) by {
            if s <= e {
                lemma_mul_inequality(m as int, den as int, e as int - s as int);
                lemma_mul_is_commutative(den as int, e as int - s as int);
                lemma_mul_is_distributive_add(den as int, s as int, e as int - s as int);
                lemma_mul_is_commutative(den as int, s as int);
                lemma_mul_is_commutative(den as int, e as int);
                lemma_mul_inequality(0, m as int, e as int - s as int);
            } else {
                lemma_mul_inequality(m as int, den as int, s as int - e as int);
                lemma_mul_is_commutative(den as int, s as int - e as int);
                lemma_mul_is_distributive_sub(den as int, s as int, s as int - e as int);
                lemma_mul_is_commutative(den as int, s as int);
                lemma_mul_is_commutative(den as int, e as int);
                lemma_mul_inequality(0, m as int, s as int - e as int);
            }
        }
        lemma_div_is_ordered(lo * den, numer as int, den as int);
        lemma_div_is_ordered(numer as int, hi * den, den as int);
        lemma_div_multiples_vanish(lo, den as int);
        lemma_div_multiples_vanish(hi, den as int);
        lemma_mul_is_commutative(lo, den as int);
        lemma_mul_is_commutative(hi, den as int);
    }
    q as u8
}

/// One interpolated channel at distance `0` is the start value.
proof fn lemma_channel_at_zero(s: int, e: int, den: int)
    requires
        1 <= den,
        0 <= s,
    ensures
        channel_at(s, e, 0, den) == s,
{
    lemma_mul_by_zero_is_zero(e - s);
    assert(s * den + clamped(0, den) * (e - s) == s * den);
    lemma_mul_is_commutative(s, den);
    lemma_div_multiples_vanish(s, den);
}

/// One interpolated channel at distance `1` is the end value.
proof fn lemma_channel_at_den(s: int, e: int, den: int)
    requires
        1 <= den,
        0 <= e,
    ensures
        channel_at(s, e, den, den) == e,
{
    lemma_mul_is_commutative(s, den);
    lemma_mul_is_distributive_add(den, s, e - s);
    assert(s * den + den * (e - s) == den * e);
    lemma_div_multiples_vanish(e, den);
}

/// The gradient at distance `0` is exactly the start color of the range.
pub proof fn lemma_gradient_at_zero(range: RgbRange, den: int)
    requires
        1 <= den,
    ensures
        gradient_color(range, 0, den) == range.start,
{
    lemma_channel_at_zero(range.start.r as int, range.end.r as int, den);
    lemma_channel_at_zero(range.start.g as int, range.end.g as int, den);
    lemma_channel_at_zero(range.start.b as int, range.end.b as int, den);
}

/// The gradient at distance `1` is exactly the end color of the range.
pub proof fn lemma_gradient_at_one(range: RgbRange, den: int)
    requires
        1 <= den,
    ensures
        gradient_color(range, den, den) == range.end,
{
    lemma_channel_at_den(range.start.r as int, range.end.r as int, den);
    lemma_channel_at_den(range.start.g as int, range.end.g as int, den);
    lemma_channel_at_den(range.start.b as int, range.end.b as int, den);
}

/// The gradient at distance `1/2` is the channel-wise midpoint of the
/// range, truncated to an integer.
pub proof fn lemma_gradient_midpoint(range: RgbRange)
    ensures
        gradient_color(range, 1, 2) == (Rgb {
            r: (((range.start.r + range.end.r) as int) / 2) as u8,
            g: (((range.start.g + range.end.g) as int) / 2) as u8,
            b: (((range.start.b + range.end.b) as int) / 2) as u8,
        }),
{
    lemma_channel_mid(range.start.r as int, range.end.r as int);
    lemma_channel_mid(range.start.g as int, range.end.g as int);
    lemma_channel_mid(range.start.b as int, range.end.b as int);
}

/// One interpolated channel at distance `1/2` is the truncated average
/// of the two endpoint values.
proof fn lemma_channel_mid(s: int, e: int)
    ensures
        channel_at(s, e, 1, 2) == (s + e) / 2,
{
    assert(clamped(1, 2) == 1);
    lemma_mul_basics(e - s);
    assert(s * 2 + 1 * (e - s) == s + e);
}

/// Distances below `0` are clamped: they color like distance `0`; and
/// distances above `1` color like distance `1`.
pub proof fn lemma_gradient_clamps(range: RgbRange, num: int, den: int)
    requires
        1 <= den,
    ensures
        num <= 0 ==> gradient_color(range, num, den) == gradient_color(range, 0, den),
        num >= den ==> gradient_color(range, num, den) == gradient_color(range, den, den),
{
}

/// The oscillating distance starts at `0`, reaches `1` at the half-period
/// `n`, returns to `0` at `2n`, and stands near `1/2` midway up.
pub proof fn lemma_oscillate_endpoints(n: usize)
    requires
        4 * osc_den(n as int) <= usize::MAX as int,
    ensures
        osc_num(0, n as int) == 0,
        osc_num(osc_den(n as int), n as int) == osc_den(n as int),
        osc_num(2 * osc_den(n as int), n as int) == 0,
        osc_num(osc_den(n as int) / 2, n as int) == osc_den(n as int) / 2,
{
    let n1 = osc_den(n as int);
    let bound = usize::MAX as int + 1;
    lemma_small_mod((2 * n1) as nat, bound as nat);
    assert(wrap_counter(2 * n1) == 2 * n1);
    // counter 0: (0 + n) mod 2n == n, so the distance from n is 0
    lemma_small_mod(n1 as nat, bound as nat);
    lemma_small_mod(n1 as nat, (2 * n1) as nat);
    // counter n: (n + n) mod 2n == 0, so the distance from n is n
    lemma_mod_self_0(2 * n1);
    // counter 2n: (2n + n) mod 2n == n, so the distance from n is 0 again
    lemma_small_mod((3 * n1) as nat, bound as nat);
    lemma_mod_sub_multiples_vanish(3 * n1, 2 * n1);
    // counter n/2: (n/2 + n) mod 2n == n/2 + n, at distance n/2 below n
    lemma_small_mod((n1 / 2 + n1) as nat, bound as nat);
    lemma_small_mod((n1 / 2 + n1) as nat, (2 * n1) as nat);
}

/// On the way up, the oscillating distance is exactly the counter: for
/// `x` in `[0, n]` the numerator is `x`, so the distance climbs strictly
/// from `0` to `1` across the first half-period.
pub proof fn lemma_oscillate_first_half(x: usize, n: usize)
    requires
        x as int <= osc_den(n as int),
        4 * osc_den(n as int) <= usize::MAX as int,
    ensures
        osc_num(x as int, n as int) == x as int,
{
    let n1 = osc_den(n as int);
    let bound = usize::MAX as int + 1;
    lemma_small_mod((2 * n1) as nat, bound as nat);
    lemma_small_mod((x as int + n1) as nat, bound as nat);
    if (x as int) < n1 {
        lemma_small_mod((x as int + n1) as nat, (2 * n1) as nat);
    } else {
        lemma_mod_self_0(2 * n1);
    }
}

/// On the way down, the oscillating distance falls back linearly: for
/// `x` in `[n, 2n]` the numerator is `2n - x`, so the distance descends
/// strictly from `1` to `0` across the second half-period.
pub proof fn lemma_oscillate_second_half(x: usize, n: usize)
    requires
        osc_den(n as int) <= x as int <= 2 * osc_den(n as int),
        4 * osc_den(n as int) <= usize::MAX as int,
    ensures
        osc_num(x as int, n as int) == 2 * osc_den(n as int) - x as int,
{
    let n1 = osc_den(n as int);
    let bound = usize::MAX as int + 1;
    lemma_small_mod((2 * n1) as nat, bound as nat);
    lemma_small_mod((x as int + n1) as nat, bound as nat);
    lemma_mod_sub_multiples_vanish(x as int + n1, 2 * n1);
    lemma_small_mod((x as int - n1) as nat, (2 * n1) as nat);
}

/// The oscillating distance is periodic: counters `x` and `x + 2n` give
/// the same distance, so a gradient driven by it repeats after one full
/// back-and-forth traversal.
pub proof fn lemma_oscillate_period(x: usize, n: usize)
    requires
        x as int + 3 * osc_den(n as int) <= usize::MAX as int,
    ensures
        osc_num(x as int + 2 * osc_den(n as int), n as int) == osc_num(x as int, n as int),
{
    let n1 = osc_den(n as int);
    let bound = usize::MAX as int + 1;
    lemma_small_mod((2 * n1) as nat, bound as nat);
    lemma_small_mod((x as int + n1) as nat, bound as nat);
    lemma_small_mod((x as int + 3 * n1) as nat, bound as nat);
    lemma_mod_multiples_vanish(1, x as int + n1, 2 * n1);
    assert((2 * n1) * 1 + (x as int + n1) == x as int + 3 * n1);
}

/// Compute the color `dist` of the way along the linear gradient running
/// from the start to the end of `range`.
///
/// `dist` is clamped to the range `0/1` - `1/1`.
pub fn linear_gradient(range: &RgbRange, dist: Dist) -> (color: Rgb)
    requires
        dist.den >= 1,
    ensures
        color == gradient_color(*range, dist.num as int, dist.den as int),
{
    let den: u128 = dist.den as u128;
    let m: u128 = if dist.num < 0 {
        0
    } else if dist.num > dist.den as i128 {
        den
    } else {
        dist.num as u128
    };
    assert(m as int == clamped(dist.num as int, dist.den as int));
    Rgb {
        r: channel(range.start.r, range.end.r, m, den),
        g: channel(range.start.g, range.end.g, m, den),
        b: channel(range.start.b, range.end.b, m, den),
    }
}

} // verus!
