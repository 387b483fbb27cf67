//! Sample moments: count, mean, unbiased variance and standard deviation,
//! computed in checked fixed-point arithmetic.

use crate::fixed::fx_add;
use crate::fixed::fx_div_n;
use crate::fixed::fx_mul;
use crate::fixed::fx_sqrt;
use crate::fixed::fx_sub;
use crate::fixed::add_fx;
use crate::fixed::div_n_fx;
use crate::fixed::lemma_fx_sqrt_nonneg;
use crate::fixed::lemma_sqrt_floor_props;
use crate::fixed::sqrt_floor;
use crate::fixed::lemma_tdiv_magnitude;
use crate::fixed::mul_fx;
use crate::fixed::sqrt_fx;
use crate::fixed::sub_fx;
use crate::fixed::in_i128;
use crate::fixed::fx_div;
use crate::fixed::div_fx;
use crate::fixed::SCALE;
use vstd::arithmetic::mul::lemma_mul_nonnegative;
use vstd::prelude::*;

verus! {

/// The checked sum of a sequence of fixed-point values, left to right.
pub open spec fn sum_fx_seq(s: Seq<i128>) -> Option<i128>
    decreases s.len(),
{
    if s.len() == 0 {
        Some(0i128)
    } else {
        match sum_fx_seq(s.drop_last()) {
            Some(acc) => fx_add(acc, s.last()),
            None => None,
        }
    }
}

/// The checked sample mean: the sum divided by the count.
pub open spec fn mean_fx_seq(s: Seq<i128>) -> Option<i128> {
    if s.len() == 0 {
        None
    } else {
        match sum_fx_seq(s) {
            Some(total) => Some(fx_div_n(total, s.len() as int)),
            None => None,
        }
    }
}

/// The checked sum of squared deviations from `m`, left to right.
pub open spec fn ssd_fx_seq(s: Seq<i128>, m: i128) -> Option<i128>
    decreases s.len(),
{
    if s.len() == 0 {
        Some(0i128)
    } else {
        match ssd_fx_seq(s.drop_last(), m) {
            Some(acc) => match fx_sub(s.last(), m) {
                Some(d) => match fx_mul(d, d) {
                    Some(sq) => fx_add(acc, sq),
                    None => None,
                },
                None => None,
            },
            None => None,
        }
    }
}

/// The unbiased (n-1 denominator) sample variance.
pub open spec fn var_fx_seq(s: Seq<i128>) -> Option<i128> {
    if s.len() < 2 {
        None
    } else {
        match mean_fx_seq(s) {
            Some(mu) => match ssd_fx_seq(s, mu) {
                Some(dev) => Some(fx_div_n(dev, s.len() - 1)),
                None => None,
            },
            None => None,
        }
    }
}

/// The sample standard deviation: square root of the unbiased variance.
pub open spec fn std_fx_seq(s: Seq<i128>) -> Option<i128> {
    match var_fx_seq(s) {
        Some(v) => fx_sqrt(v),
        None => None,
    }
}

/// Count, mean, unbiased variance and standard deviation of one sample.
#[derive(Clone, Copy, Debug, PartialEq, Eq, Structural)]
pub struct SampleMoments {
    pub n: usize,
    pub mean: i128,
    pub variance: i128,
    pub std_dev: i128,
}

/// The moments of a sample, defined for samples of at least two values whose
/// intermediate sums stay in range.
pub open spec fn moments_fx_seq(s: Seq<i128>) -> Option<SampleMoments> {
    if s.len() < 2 {
        None
    } else {
        match mean_fx_seq(s) {
            Some(mu) => match var_fx_seq(s) {
                Some(v) => match std_fx_seq(s) {
                    Some(sd) => Some(
                        SampleMoments { n: s.len() as usize, mean: mu, variance: v, std_dev: sd },
                    ),
                    None => None,
                },
                None => None,
            },
            None => None,
        }
    }
}

/// Each summand of a sum of squared deviations is nonnegative, so the sum is.
pub proof fn lemma_ssd_nonneg(s: Seq<i128>, m: i128)
    ensures
        ssd_fx_seq(s, m) matches Some(dev) ==> dev >= 0,
    decreases s.len(),
{
    if s.len() > 0 {
        lemma_ssd_nonneg(s.drop_last(), m);
        if let Some(acc) = ssd_fx_seq(s.drop_last(), m) {
            if let Some(d) = fx_sub(s.last(), m) {
                assert(d as int * d as int >= 0) by (nonlinear_arith);
                lemma_tdiv_magnitude(d as int * d as int, SCALE as int);
            }
        }
    }
}

/// Variance and standard deviation are nonnegative, and one vanishes exactly
/// when the other does.
pub proof fn lemma_moments_props(s: Seq<i128>)
    requires
        s.len() <= usize::MAX,
    ensures
        moments_fx_seq(s) matches Some(m) ==> {
            &&& m.n == s.len()
            &&& m.n >= 2
            &&& m.variance >= 0
            &&& m.std_dev >= 0
            &&& (m.variance == 0 <==> m.std_dev == 0)
        },
{
    if let Some(m) = moments_fx_seq(s) {
        let mu = mean_fx_seq(s).unwrap();
        lemma_ssd_nonneg(s, mu);
        let dev = ssd_fx_seq(s, mu).unwrap();
        lemma_tdiv_magnitude(dev as int, s.len() - 1);
        assert(m.variance >= 0);
        assert(fx_sqrt(m.variance) is Some);
        assert(m.variance * (SCALE as int) <= u128::MAX);
        lemma_fx_sqrt_nonneg(m.variance);
        if m.variance > 0 {
            let rad = m.variance * (SCALE as int);
            lemma_sqrt_floor_props(rad);
            assert(rad >= SCALE) by (nonlinear_arith)
                requires
                    m.variance >= 1,
                    rad == m.variance * (SCALE as int),
            ;
            assert(sqrt_floor(rad) >= 1) by {
                if sqrt_floor(rad) <= 0 {
                    assert(rad < (sqrt_floor(rad) + 1) * (sqrt_floor(rad) + 1));
                    assert((sqrt_floor(rad) + 1) * (sqrt_floor(rad) + 1) <= 1) by (nonlinear_arith)
                        requires
                            0 <= sqrt_floor(rad) + 1 <= 1,
                    ;
                }
            }
            assert(m.std_dev >= 1);
        }
    }
}

/// Sum a sample.
pub fn sum_vec(v: &Vec<i128>) -> (r: Option<i128>)
    ensures
        r == sum_fx_seq(v@),
{
    let mut acc: Option<i128> = Some(0i128);
    let mut i: usize = 0;
    while i < v.len()
        invariant
            i <= v.len(),
            acc == sum_fx_seq(v@.take(i as int)),
        decreases v.len() - i,
    {
        proof {
            assert(v@.take(i + 1int).drop_last() =~= v@.take(i as int));
            assert(v@.take(i + 1int).last() == v@[i as int]);
        }
        acc = match acc {
            Some(a) => add_fx(a, v[i]),
            None => None,
        };
        i = i + 1;
    }
    proof {
        assert(v@.take(v.len() as int) =~= v@);
    }
    acc
}

/// The sample mean, or `None` for an empty sample or on overflow.
pub fn mean_vec(v: &Vec<i128>) -> (r: Option<i128>)
    ensures
        r == mean_fx_seq(v@),
{
    if v.len() == 0 {
        return None;
    }
    match sum_vec(v) {
        Some(total) => Some(div_n_fx(total, v.len() as i128)),
        None => None,
    }
}

/// The sum of squared deviations from `m`.
pub fn ssd_vec(v: &Vec<i128>, m: i128) -> (r: Option<i128>)
    ensures
        r == ssd_fx_seq(v@, m),
{
    let mut acc: Option<i128> = Some(0i128);
    let mut i: usize = 0;
    while i < v.len()
        invariant
            i <= v.len(),
            acc == ssd_fx_seq(v@.take(i as int), m),
        decreases v.len() - i,
    {
        proof {
            assert(v@.take(i + 1int).drop_last() =~= v@.take(i as int));
            assert(v@.take(i + 1int).last() == v@[i as int]);
        }
        acc = match acc {
            Some(a) => match sub_fx(v[i], m) {
                Some(d) => match mul_fx(d, d) {
                    Some(sq) => add_fx(a, sq),
                    None => None,
                },
                None => None,
            },
            None => None,
        };
        i = i + 1;
    }
    proof {
        assert(v@.take(v.len() as int) =~= v@);
    }
    acc
}

/// Count, mean, unbiased variance and standard deviation of a sample of at
/// least two values; `None` on a smaller sample or overflow.
pub fn compute_moments(v: &Vec<i128>) -> (r: Option<SampleMoments>)
    ensures
        r == moments_fx_seq(v@),
        r matches Some(m) ==> {
            &&& m.n == v@.len()
            &&& m.n >= 2
            &&& m.variance >= 0
            &&& m.std_dev >= 0
            &&& (m.variance == 0 <==> m.std_dev == 0)
        },
{
    proof {
        vstd::std_specs::vec::axiom_spec_len(v);
        lemma_moments_props(v@);
    }
    if v.len() < 2 {
        return None;
    }
    let mu = match mean_vec(v) {
        Some(mu) => mu,
        None => {
            return None;
        },
    };
    let dev = match ssd_vec(v, mu) {
        Some(dev) => dev,
        None => {
            return None;
        },
    };
    let variance = div_n_fx(dev, (v.len() - 1) as i128);
    match sqrt_fx(variance) {
        Some(sd) => Some(SampleMoments { n: v.len(), mean: mu, variance, std_dev: sd }),
        None => None,
    }
}

/// A count rendered as a fixed-point value.
pub open spec fn fx_of_n(n: int) -> Option<i128> {
    if in_i128(n * (SCALE as int)) {
        Some((n * (SCALE as int)) as i128)
    } else {
        None
    }
}

/// Render a count as a fixed-point value; a count always fits.
pub fn of_n_fx(n: usize) -> (r: i128)
    ensures
        Some(r) == fx_of_n(n as int),
{
    proof {
        assert((n as int) * (SCALE as int) <= i128::MAX) by (nonlinear_arith)
            requires
                0 <= n as int <= u64::MAX,
        ;
        assert((n as int) * (SCALE as int) >= 0) by (nonlinear_arith)
            requires
                n as int >= 0,
        ;
    }
    (n as i128).checked_mul(SCALE).unwrap()
}

/// The standard error of the mean: standard deviation over the square root
/// of the count.
pub open spec fn se_of_moments(m: SampleMoments) -> Option<i128> {
    match fx_of_n(m.n as int) {
        Some(nfx) => match fx_sqrt(nfx) {
            Some(rt) => fx_div(m.std_dev, rt),
            None => None,
        },
        None => None,
    }
}

pub fn se_of_moments_exec(m: &SampleMoments) -> (r: Option<i128>)
    ensures
        r == se_of_moments(*m),
        m.std_dev >= 0 ==> (r matches Some(se) ==> se >= 0),
{
    let nfx = of_n_fx(m.n);
    match sqrt_fx(nfx) {
        Some(rt) => {
            let se = div_fx(m.std_dev, rt);
            proof {
                if m.std_dev >= 0 && se is Some {
                    lemma_mul_nonnegative(m.std_dev as int, SCALE as int);
                    lemma_tdiv_magnitude(m.std_dev * (SCALE as int), rt as int);
                }
            }
            se
        },
        None => None,
    }
}

/// The squared standard error of one sample: variance over count.
pub open spec fn se_sq_of_moments(m: SampleMoments) -> i128
    recommends
        m.n > 0,
{
    fx_div_n(m.variance, m.n as int)
}

/// The pooled squared standard error of two samples.
pub open spec fn pooled_se_sq(m1: SampleMoments, m2: SampleMoments) -> Option<i128>
    recommends
        m1.n > 0,
        m2.n > 0,
{
    fx_add(se_sq_of_moments(m1), se_sq_of_moments(m2))
}

/// Numerator of the Welch-Satterthwaite degrees of freedom: the squared
/// pooled squared standard error.
pub open spec fn welch_num(m1: SampleMoments, m2: SampleMoments) -> Option<i128> {
    match pooled_se_sq(m1, m2) {
        Some(pool) => fx_mul(pool, pool),
        None => None,
    }
}

/// Denominator of the Welch-Satterthwaite degrees of freedom.
pub open spec fn welch_den(m1: SampleMoments, m2: SampleMoments) -> Option<i128>
    recommends
        m1.n >= 2,
        m2.n >= 2,
{
    match fx_mul(se_sq_of_moments(m1), se_sq_of_moments(m1)) {
        Some(q1) => match fx_mul(se_sq_of_moments(m2), se_sq_of_moments(m2)) {
            Some(q2) => fx_add(fx_div_n(q1, m1.n - 1), fx_div_n(q2, m2.n - 1)),
            None => None,
        },
        None => None,
    }
}

pub fn welch_num_exec(m1: &SampleMoments, m2: &SampleMoments) -> (r: Option<i128>)
    requires
        m1.n > 0,
        m2.n > 0,
    ensures
        r == welch_num(*m1, *m2),
{
    let s1 = div_n_fx(m1.variance, m1.n as i128);
    let s2 = div_n_fx(m2.variance, m2.n as i128);
    match add_fx(s1, s2) {
        Some(pool) => mul_fx(pool, pool),
        None => None,
    }
}

pub fn welch_den_exec(m1: &SampleMoments, m2: &SampleMoments) -> (r: Option<i128>)
    requires
        m1.n >= 2,
        m2.n >= 2,
    ensures
        r == welch_den(*m1, *m2),
{
    let s1 = div_n_fx(m1.variance, m1.n as i128);
    let s2 = div_n_fx(m2.variance, m2.n as i128);
    match mul_fx(s1, s1) {
        Some(q1) => match mul_fx(s2, s2) {
            Some(q2) => {
                let e1 = div_n_fx(q1, (m1.n - 1) as i128);
                let e2 = div_n_fx(q2, (m2.n - 1) as i128);
                add_fx(e1, e2)
            },
            None => None,
        },
        None => None,
    }
}

} // verus!
