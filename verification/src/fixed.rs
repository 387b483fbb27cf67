//! Fixed-point real numbers.
//!
//! A real quantity is represented by an `i128` holding its value scaled by
//! `SCALE`: a stored value `v` stands for the real number `v / SCALE`.
//! Every arithmetic step is exact integer arithmetic followed by truncation
//! toward zero, and every step is checked: a computation whose exact value
//! would leave the `i128` range yields `None` instead of a wrong answer.

use vstd::arithmetic::div_mod::lemma_div_by_multiple;
use vstd::arithmetic::div_mod::lemma_div_is_ordered;
use vstd::arithmetic::div_mod::lemma_div_is_ordered_by_denominator;
use vstd::arithmetic::div_mod::lemma_div_nonincreasing;
use vstd::arithmetic::div_mod::lemma_div_pos_is_pos;
use vstd::arithmetic::mul::lemma_mul_inequality;
use vstd::prelude::*;

verus! {

/// Scale of the fixed-point representation: 2^20.
pub const SCALE: i128 = 1048576;

/// Whether an unbounded integer fits in `i128`.
pub open spec fn in_i128(x: int) -> bool {
    i128::MIN <= x <= i128::MAX
}

/// Truncating integer division (rounding toward zero), the rounding that
/// `i128` division performs.
pub open spec fn tdiv(x: int, d: int) -> int
    recommends
        d != 0,
{
    if x == 0 {
        0
    } else if x > 0 && d > 0 {
        x / d
    } else if x < 0 && d < 0 {
        (x * -1) / (d * -1)
    } else if x < 0 {
        ((x * -1) / d) * -1
    } else {
        (x / (d * -1)) * -1
    }
}

/// The magnitude of a truncating quotient never exceeds the magnitude of the
/// dividend when the divisor is positive.
pub proof fn lemma_tdiv_magnitude(x: int, d: int)
    requires
        d > 0,
    ensures
        x >= 0 ==> 0 <= tdiv(x, d) <= x,
        x < 0 ==> x <= tdiv(x, d) <= 0,
{
    if x > 0 {
        lemma_div_pos_is_pos(x, d);
        lemma_div_nonincreasing(x, d);
    } else if x < 0 {
        lemma_div_pos_is_pos(x * -1, d);
        lemma_div_nonincreasing(x * -1, d);
    }
}

/// A nonnegative value divided by itself (scaled) gives exactly `SCALE`:
/// the fixed-point rendering of the real number 1.
pub proof fn lemma_tdiv_self_scaled(v: int)
    requires
        v > 0,
    ensures
        tdiv(v * SCALE, v) == SCALE,
{
    lemma_div_by_multiple(SCALE as int, v);
    assert(v * SCALE == SCALE * v) by (nonlinear_arith);
}

/// For a nonnegative dividend, a larger divisor gives a smaller quotient.
pub proof fn lemma_tdiv_ordered_by_divisor(x: int, d1: int, d2: int)
    requires
        x >= 0,
        0 < d1 <= d2,
    ensures
        tdiv(x, d2) <= tdiv(x, d1),
{
    if x > 0 {
        lemma_div_is_ordered_by_denominator(x, d1, d2);
    }
}

/// For a positive divisor, the truncating quotient preserves order on
/// nonnegative dividends.
pub proof fn lemma_tdiv_ordered(x: int, y: int, d: int)
    requires
        0 <= x <= y,
        d > 0,
    ensures
        tdiv(x, d) <= tdiv(y, d),
{
    if x > 0 {
        lemma_div_is_ordered(x, y, d);
    } else if y > 0 {
        lemma_div_pos_is_pos(y, d);
    }
}

/// Checked fixed-point addition.
pub open spec fn fx_add(a: i128, b: i128) -> Option<i128> {
    if in_i128(a + b) {
        Some((a + b) as i128)
    } else {
        None
    }
}

/// Checked fixed-point subtraction.
pub open spec fn fx_sub(a: i128, b: i128) -> Option<i128> {
    if in_i128(a - b) {
        Some((a - b) as i128)
    } else {
        None
    }
}

/// Checked fixed-point multiplication: the exact product is rescaled by
/// `SCALE`, truncating toward zero.
pub open spec fn fx_mul(a: i128, b: i128) -> Option<i128> {
    if in_i128(a * b) {
        Some(tdiv(a * b, SCALE as int) as i128)
    } else {
        None
    }
}

/// Checked fixed-point division: the dividend is upscaled by `SCALE`, then
/// divided truncating toward zero. `None` on a zero divisor or overflow.
pub open spec fn fx_div(a: i128, b: i128) -> Option<i128> {
    if b == 0 {
        None
    } else if !in_i128(a * (SCALE as int)) {
        None
    } else if !in_i128(tdiv(a * (SCALE as int), b as int)) {
        None
    } else {
        Some(tdiv(a * (SCALE as int), b as int) as i128)
    }
}

/// Division of a fixed-point value by a positive count; always defined.
pub open spec fn fx_div_n(a: i128, n: int) -> i128
    recommends
        n > 0,
{
    tdiv(a as int, n) as i128
}

/// Checked absolute value.
pub open spec fn fx_abs(a: i128) -> Option<i128> {
    if a == i128::MIN {
        None
    } else if a < 0 {
        Some((-a) as i128)
    } else {
        Some(a)
    }
}

pub fn add_fx(a: i128, b: i128) -> (r: Option<i128>)
    ensures
        r == fx_add(a, b),
{
    a.checked_add(b)
}

pub fn sub_fx(a: i128, b: i128) -> (r: Option<i128>)
    ensures
        r == fx_sub(a, b),
{
    a.checked_sub(b)
}

pub fn mul_fx(a: i128, b: i128) -> (r: Option<i128>)
    ensures
        r == fx_mul(a, b),
{
    match a.checked_mul(b) {
        Some(p) => {
            proof {
                lemma_tdiv_magnitude(p as int, SCALE as int);
            }
            let q = p.checked_div(SCALE);
            Some(q.unwrap())
        },
        None => None,
    }
}

pub fn div_fx(a: i128, b: i128) -> (r: Option<i128>)
    ensures
        r == fx_div(a, b),
{
    if b == 0 {
        return None;
    }
    match a.checked_mul(SCALE) {
        Some(p) => p.checked_div(b),
        None => None,
    }
}

/// Divide a fixed-point value by a positive integer count.
pub fn div_n_fx(a: i128, n: i128) -> (r: i128)
    requires
        n > 0,
    ensures
        r == fx_div_n(a, n as int),
{
    proof {
        lemma_tdiv_magnitude(a as int, n as int);
    }
    a.checked_div(n).unwrap()
}

pub fn abs_fx(a: i128) -> (r: Option<i128>)
    ensures
        r == fx_abs(a),
{
    if a < 0 {
        (0i128).checked_sub(a)
    } else {
        Some(a)
    }
}

/// The integer square root of `m`, defined as the unique `r >= 0` with
/// `r * r <= m < (r + 1) * (r + 1)`.
pub open spec fn sqrt_floor(m: int) -> int {
    choose|r: int| 0 <= r && #[trigger] (r * r) <= m < (r + 1) * (r + 1)
}

pub proof fn lemma_sqrt_exists(m: int)
    requires
        m >= 0,
    ensures
        exists|r: int| 0 <= r && #[trigger] (r * r) <= m < (r + 1) * (r + 1),
    decreases m,
{
    if m == 0 {
        assert(0 <= 0int && 0int * 0int <= m < (0int + 1) * (0int + 1));
    } else {
        lemma_sqrt_exists(m - 1);
        let r = choose|r: int| 0 <= r && #[trigger] (r * r) <= m - 1 < (r + 1) * (r + 1);
        if (r + 1) * (r + 1) <= m {
            assert((r + 1) * (r + 1) == m);
            assert((r + 2) * (r + 2) > m) by (nonlinear_arith)
                requires
                    r >= 0,
                    (r + 1) * (r + 1) == m,
            ;
            assert(0 <= r + 1 && (r + 1) * (r + 1) <= m < ((r + 1) + 1) * ((r + 1) + 1));
        } else {
            assert(0 <= r && r * r <= m < (r + 1) * (r + 1));
        }
    }
}

pub proof fn lemma_sqrt_unique(m: int, a: int, b: int)
    requires
        0 <= a,
        a * a <= m < (a + 1) * (a + 1),
        0 <= b,
        b * b <= m < (b + 1) * (b + 1),
    ensures
        a == b,
{
    if a < b {
        lemma_mul_inequality(a + 1, b, a + 1);
        lemma_mul_inequality(a + 1, b, b);
        assert(false);
    }
    if b < a {
        lemma_mul_inequality(b + 1, a, b + 1);
        lemma_mul_inequality(b + 1, a, a);
        assert(false);
    }
}

pub proof fn lemma_sqrt_floor_props(m: int)
    requires
        m >= 0,
    ensures
        0 <= sqrt_floor(m),
        sqrt_floor(m) * sqrt_floor(m) <= m,
        m < (sqrt_floor(m) + 1) * (sqrt_floor(m) + 1),
{
    lemma_sqrt_exists(m);
    let r = choose|r: int| 0 <= r && #[trigger] (r * r) <= m < (r + 1) * (r + 1);
    assert(0 <= r && r * r <= m < (r + 1) * (r + 1));
}

/// Binary search for the integer square root of a `u128`.
pub fn isqrt_u128(m: u128) -> (r: u128)
    ensures
        r as int == sqrt_floor(m as int),
{
    let mut lo: u128 = 0;
    let mut hi: u128 = 0x1_0000_0000_0000_0000;
    proof {
        assert((hi as int) * (hi as int) > m as int) by (nonlinear_arith)
            requires
                hi == 0x1_0000_0000_0000_0000u128,
                m <= u128::MAX,
        ;
    }
    while lo + 1 < hi
        invariant
            lo < hi <= 0x1_0000_0000_0000_0000u128,
            (lo as int) * (lo as int) <= m as int,
            (m as int) < (hi as int) * (hi as int),
        decreases hi - lo,
    {
        let mid: u128 = lo + (hi - lo) / 2;
        proof {
            assert(lo < mid < hi);
            assert((mid as int) * (mid as int) < u128::MAX as int) by (nonlinear_arith)
                requires
                    mid < 0x1_0000_0000_0000_0000u128,
            ;
        }
        if mid * mid <= m {
            lo = mid;
        } else {
            hi = mid;
        }
    }
    proof {
        lemma_sqrt_floor_props(m as int);
        lemma_sqrt_unique(
            m as int,
            lo as int,
            sqrt_floor(m as int),
        );
    }
    lo
}

/// Checked fixed-point square root: `None` for a negative argument or when
/// the upscaled radicand leaves the `u128` range.
pub open spec fn fx_sqrt(a: i128) -> Option<i128> {
    if a < 0 {
        None
    } else if a * (SCALE as int) > u128::MAX {
        None
    } else {
        Some(sqrt_floor(a * (SCALE as int)) as i128)
    }
}

pub fn sqrt_fx(a: i128) -> (r: Option<i128>)
    ensures
        r == fx_sqrt(a),
        r matches Some(v) ==> v >= 0,
{
    if a < 0 {
        return None;
    }
    match (a as u128).checked_mul(SCALE as u128) {
        Some(m) => {
            let root = isqrt_u128(m);
            proof {
                lemma_sqrt_floor_props(m as int);
                assert(root as int <= i128::MAX) by (nonlinear_arith)
                    requires
                        (root as int) * (root as int) <= m as int,
                        m <= u128::MAX,
                        root >= 0,
                ;
            }
            Some(root as i128)
        },
        None => None,
    }
}

/// The square root of a nonnegative fixed-point value is nonnegative, and the
/// square root of zero is zero.
pub proof fn lemma_fx_sqrt_nonneg(a: i128)
    requires
        a >= 0,
        a * (SCALE as int) <= u128::MAX,
    ensures
        fx_sqrt(a) matches Some(r) && r >= 0,
        a == 0 ==> fx_sqrt(a) == Some(0i128),
        0 <= sqrt_floor(a * (SCALE as int)) <= i128::MAX,
{
    let m = a * (SCALE as int);
    lemma_sqrt_floor_props(m);
    assert(sqrt_floor(m) <= i128::MAX) by (nonlinear_arith)
        requires
            sqrt_floor(m) >= 0,
            sqrt_floor(m) * sqrt_floor(m) <= m,
            m <= u128::MAX,
    ;
    if a == 0 {
        lemma_sqrt_unique(0, sqrt_floor(0), 0);
    }
}

} // verus!
