//! Confidence-interval operations.
//!
//! Each operation digests its samples into a *plan*: the point estimate, the
//! standard error, the reference distribution, and the quantile
//! probabilities `alpha/2` and `1 - alpha/2`. The caller evaluates the
//! distribution's quantile function at those probabilities and hands the
//! critical values to a conclusion function, which forms the bounds.

use crate::dist::Distribution;
use crate::fixed::add_fx;
use crate::fixed::div_fx;
use crate::fixed::fx_add;
use crate::fixed::fx_div;
use crate::fixed::fx_mul;
use crate::fixed::fx_sqrt;
use crate::fixed::fx_sub;
use crate::fixed::lemma_tdiv_magnitude;
use crate::fixed::lemma_tdiv_ordered;
use crate::fixed::lemma_tdiv_ordered_by_divisor;
use crate::fixed::lemma_tdiv_self_scaled;
use crate::fixed::mul_fx;
use crate::fixed::sqrt_fx;
use crate::fixed::sub_fx;
use crate::fixed::tdiv;
use crate::fixed::SCALE;
use crate::moments::compute_moments;
use crate::moments::fx_of_n;
use crate::moments::lemma_moments_props;
use crate::moments::moments_fx_seq;
use crate::moments::of_n_fx;
use crate::moments::pooled_se_sq;
use crate::moments::se_of_moments;
use crate::moments::se_of_moments_exec;
use crate::moments::welch_den;
use crate::moments::welch_den_exec;
use crate::moments::welch_num;
use crate::moments::welch_num_exec;
use crate::fixed::div_n_fx;
use crate::types::Interval;
use vstd::arithmetic::div_mod::lemma_div_is_ordered;
use vstd::arithmetic::mul::lemma_mul_nonnegative;
use vstd::prelude::*;

verus! {

/// The probability `alpha / 2`, the lower tail cut.
pub open spec fn prob_lower_of(alpha: i128) -> i128 {
    tdiv(alpha as int, 2) as i128
}

/// The probability `1 - alpha / 2`, the upper tail cut.
pub open spec fn prob_upper_of(alpha: i128) -> i128 {
    (SCALE - tdiv(alpha as int, 2)) as i128
}

fn prob_lower_exec(alpha: i128) -> (r: i128)
    ensures
        r == prob_lower_of(alpha),
{
    div_n_fx(alpha, 2)
}

fn prob_upper_exec(alpha: i128) -> (r: i128)
    ensures
        r == prob_upper_of(alpha),
{
    let h = div_n_fx(alpha, 2);
    proof {
        lemma_tdiv_magnitude(alpha as int, 2);
        if alpha < 0 {
            lemma_div_is_ordered(alpha * -1, i128::MAX as int + 1, 2);
        }
    }
    SCALE.checked_sub(h).unwrap()
}

/// A digested mean-interval computation, awaiting one critical value: the
/// quantile of `dist` at probability `prob_upper`.
#[derive(Clone, Copy, Debug, PartialEq, Eq, Structural)]
pub struct MeanIntervalPlan {
    pub estimate: i128,
    pub std_err: i128,
    pub dist: Distribution,
    pub prob_upper: i128,
}

/// A digested variance-ratio interval, awaiting two critical values: the
/// quantiles of Fisher-Snedecor(`df1`, `df2`) at `prob_lower` and
/// `prob_upper`.
#[derive(Clone, Copy, Debug, PartialEq, Eq, Structural)]
pub struct VarIntervalPlan {
    pub f_stat: i128,
    pub df1: usize,
    pub df2: usize,
    pub prob_lower: i128,
    pub prob_upper: i128,
}

/// One-sample z-interval: mean estimate, `std_dev / sqrt(n)` standard
/// error, standard normal critical value.
pub open spec fn spec_one_samp_z_interval(data: Seq<i128>, alpha: i128) -> Option<
    MeanIntervalPlan,
> {
    match moments_fx_seq(data) {
        Some(m) => match se_of_moments(m) {
            Some(se) => Some(
                MeanIntervalPlan {
                    estimate: m.mean,
                    std_err: se,
                    dist: Distribution::Normal,
                    prob_upper: prob_upper_of(alpha),
                },
            ),
            None => None,
        },
        None => None,
    }
}

pub fn one_samp_z_interval(data: &Vec<i128>, alpha: i128) -> (r: Option<MeanIntervalPlan>)
    ensures
        r == spec_one_samp_z_interval(data@, alpha),
        data@.len() < 2 ==> r is None,
        r matches Some(p) ==> p.std_err >= 0,
{
    let m = match compute_moments(data) {
        Some(m) => m,
        None => {
            return None;
        },
    };
    let se = match se_of_moments_exec(&m) {
        Some(se) => se,
        None => {
            return None;
        },
    };
    Some(
        MeanIntervalPlan {
            estimate: m.mean,
            std_err: se,
            dist: Distribution::Normal,
            prob_upper: prob_upper_exec(alpha),
        },
    )
}

/// One-sample t-interval: as the z-interval, with Student's t on `n - 1`
/// degrees of freedom.
pub open spec fn spec_one_samp_t_interval(data: Seq<i128>, alpha: i128) -> Option<
    MeanIntervalPlan,
> {
    match moments_fx_seq(data) {
        Some(m) => match se_of_moments(m) {
            Some(se) => match fx_of_n(m.n - 1) {
                Some(df) => Some(
                    MeanIntervalPlan {
                        estimate: m.mean,
                        std_err: se,
                        dist: Distribution::StudentsT { df },
                        prob_upper: prob_upper_of(alpha),
                    },
                ),
                None => None,
            },
            None => None,
        },
        None => None,
    }
}

pub fn one_samp_t_interval(data: &Vec<i128>, alpha: i128) -> (r: Option<MeanIntervalPlan>)
    ensures
        r == spec_one_samp_t_interval(data@, alpha),
        data@.len() < 2 ==> r is None,
        r matches Some(p) ==> p.std_err >= 0,
{
    let m = match compute_moments(data) {
        Some(m) => m,
        None => {
            return None;
        },
    };
    let se = match se_of_moments_exec(&m) {
        Some(se) => se,
        None => {
            return None;
        },
    };
    let df = of_n_fx(m.n - 1);
    Some(
        MeanIntervalPlan {
            estimate: m.mean,
            std_err: se,
            dist: Distribution::StudentsT { df },
            prob_upper: prob_upper_exec(alpha),
        },
    )
}

/// Two-sample z-interval: difference of means, pooled standard error
/// `sqrt(var1/n1 + var2/n2)`, standard normal critical value.
pub open spec fn spec_two_samp_z_interval(
    data1: Seq<i128>,
    data2: Seq<i128>,
    alpha: i128,
) -> Option<MeanIntervalPlan> {
    match moments_fx_seq(data1) {
        Some(m1) => match moments_fx_seq(data2) {
            Some(m2) => match pooled_se_sq(m1, m2) {
                Some(pool) => match fx_sqrt(pool) {
                    Some(se) => match fx_sub(m1.mean, m2.mean) {
                        Some(est) => Some(
                            MeanIntervalPlan {
                                estimate: est,
                                std_err: se,
                                dist: Distribution::Normal,
                                prob_upper: prob_upper_of(alpha),
                            },
                        ),
                        None => None,
                    },
                    None => None,
                },
                None => None,
            },
            None => None,
        },
        None => None,
    }
}

pub fn two_samp_z_interval(data1: &Vec<i128>, data2: &Vec<i128>, alpha: i128) -> (r: Option<
    MeanIntervalPlan,
>)
    ensures
        r == spec_two_samp_z_interval(data1@, data2@, alpha),
        data1@.len() < 2 || data2@.len() < 2 ==> r is None,
        r matches Some(p) ==> p.std_err >= 0,
{
    let m1 = match compute_moments(data1) {
        Some(m) => m,
        None => {
            return None;
        },
    };
    let m2 = match compute_moments(data2) {
        Some(m) => m,
        None => {
            return None;
        },
    };
    let s1 = div_n_fx(m1.variance, m1.n as i128);
    let s2 = div_n_fx(m2.variance, m2.n as i128);
    let pool = match add_fx(s1, s2) {
        Some(pool) => pool,
        None => {
            return None;
        },
    };
    let se = match sqrt_fx(pool) {
        Some(se) => se,
        None => {
            return None;
        },
    };
    match sub_fx(m1.mean, m2.mean) {
        Some(est) => Some(
            MeanIntervalPlan {
                estimate: est,
                std_err: se,
                dist: Distribution::Normal,
                prob_upper: prob_upper_exec(alpha),
            },
        ),
        None => None,
    }
}

/// Two-sample t-interval with the Welch-Satterthwaite degrees of freedom.
pub open spec fn spec_two_samp_t_interval(
    data1: Seq<i128>,
    data2: Seq<i128>,
    alpha: i128,
) -> Option<MeanIntervalPlan> {
    match moments_fx_seq(data1) {
        Some(m1) => match moments_fx_seq(data2) {
            Some(m2) => match pooled_se_sq(m1, m2) {
                Some(pool) => match fx_sqrt(pool) {
                    Some(se) => match fx_sub(m1.mean, m2.mean) {
                        Some(est) => match welch_num(m1, m2) {
                            Some(num) => match welch_den(m1, m2) {
                                Some(den) => match fx_div(num, den) {
                                    Some(df) => Some(
                                        MeanIntervalPlan {
                                            estimate: est,
                                            std_err: se,
                                            dist: Distribution::StudentsT { df },
                                            prob_upper: prob_upper_of(alpha),
                                        },
                                    ),
                                    None => None,
                                },
                                None => None,
                            },
                            None => None,
                        },
                        None => None,
                    },
                    None => None,
                },
                None => None,
            },
            None => None,
        },
        None => None,
    }
}

pub fn two_samp_t_interval(data1: &Vec<i128>, data2: &Vec<i128>, alpha: i128) -> (r: Option<
    MeanIntervalPlan,
>)
    ensures
        r == spec_two_samp_t_interval(data1@, data2@, alpha),
        data1@.len() < 2 || data2@.len() < 2 ==> r is None,
        r matches Some(p) ==> p.std_err >= 0,
{
    let m1 = match compute_moments(data1) {
        Some(m) => m,
        None => {
            return None;
        },
    };
    let m2 = match compute_moments(data2) {
        Some(m) => m,
        None => {
            return None;
        },
    };
    let s1 = div_n_fx(m1.variance, m1.n as i128);
    let s2 = div_n_fx(m2.variance, m2.n as i128);
    let pool = match add_fx(s1, s2) {
        Some(pool) => pool,
        None => {
            return None;
        },
    };
    let se = match sqrt_fx(pool) {
        Some(se) => se,
        None => {
            return None;
        },
    };
    let est = match sub_fx(m1.mean, m2.mean) {
        Some(est) => est,
        None => {
            return None;
        },
    };
    let num = match welch_num_exec(&m1, &m2) {
        Some(num) => num,
        None => {
            return None;
        },
    };
    let den = match welch_den_exec(&m1, &m2) {
        Some(den) => den,
        None => {
            return None;
        },
    };
    match div_fx(num, den) {
        Some(df) => Some(
            MeanIntervalPlan {
                estimate: est,
                std_err: se,
                dist: Distribution::StudentsT { df },
                prob_upper: prob_upper_exec(alpha),
            },
        ),
        None => None,
    }
}

/// Variance-ratio interval: the F statistic is the larger sample variance
/// over the smaller; the bounds divide it by the upper and lower
/// Fisher-Snedecor quantiles.
pub open spec fn spec_two_samp_var_interval(
    data1: Seq<i128>,
    data2: Seq<i128>,
    alpha: i128,
) -> Option<VarIntervalPlan> {
    match moments_fx_seq(data1) {
        Some(m1) => match moments_fx_seq(data2) {
            Some(m2) => {
                let vmax = if m1.variance >= m2.variance {
                    m1.variance
                } else {
                    m2.variance
                };
                let vmin = if m1.variance >= m2.variance {
                    m2.variance
                } else {
                    m1.variance
                };
                match fx_div(vmax, vmin) {
                    Some(f) => Some(
                        VarIntervalPlan {
                            f_stat: f,
                            df1: (m1.n - 1) as usize,
                            df2: (m2.n - 1) as usize,
                            prob_lower: prob_lower_of(alpha),
                            prob_upper: prob_upper_of(alpha),
                        },
                    ),
                    None => None,
                }
            },
            None => None,
        },
        None => None,
    }
}

pub fn two_samp_var_interval(data1: &Vec<i128>, data2: &Vec<i128>, alpha: i128) -> (r: Option<
    VarIntervalPlan,
>)
    ensures
        r == spec_two_samp_var_interval(data1@, data2@, alpha),
        data1@.len() < 2 || data2@.len() < 2 ==> r is None,
        r matches Some(p) ==> p.f_stat >= SCALE,
{
    if data1.len() < 2 || data2.len() < 2 {
        return None;
    }
    let m1 = match compute_moments(data1) {
        Some(m) => m,
        None => {
            return None;
        },
    };
    let m2 = match compute_moments(data2) {
        Some(m) => m,
        None => {
            return None;
        },
    };
    proof {
        lemma_moments_props(data1@);
        lemma_moments_props(data2@);
    }
    let vmax = if m1.variance >= m2.variance {
        m1.variance
    } else {
        m2.variance
    };
    let vmin = if m1.variance >= m2.variance {
        m2.variance
    } else {
        m1.variance
    };
    match div_fx(vmax, vmin) {
        Some(f) => {
            proof {
                lemma_mul_nonnegative(vmin as int, SCALE as int);
                lemma_mul_nonnegative(vmax as int, SCALE as int);
                assert(vmin * (SCALE as int) <= vmax * (SCALE as int)) by (nonlinear_arith)
                    requires
                        0 <= vmin <= vmax,
                        SCALE > 0,
                ;
                lemma_tdiv_self_scaled(vmin as int);
                lemma_tdiv_ordered(vmin * (SCALE as int), vmax * (SCALE as int), vmin as int);
            }
            Some(
                VarIntervalPlan {
                    f_stat: f,
                    df1: m1.n - 1,
                    df2: m2.n - 1,
                    prob_lower: prob_lower_exec(alpha),
                    prob_upper: prob_upper_exec(alpha),
                },
            )
        },
        None => None,
    }
}

/// Bounds of a mean interval: `estimate ± critical * std_err`.
pub open spec fn spec_interval_from_critical(
    estimate: i128,
    std_err: i128,
    crit: i128,
) -> Option<Interval> {
    match fx_mul(crit, std_err) {
        Some(moe) => match fx_sub(estimate, moe) {
            Some(lo) => match fx_add(estimate, moe) {
                Some(hi) => Some(Interval { lower: lo, upper: hi }),
                None => None,
            },
            None => None,
        },
        None => None,
    }
}

/// Turn a mean-interval plan and the critical value the caller evaluated
/// into the interval bounds.
pub fn interval_from_critical(plan: &MeanIntervalPlan, crit: i128) -> (r: Option<Interval>)
    ensures
        r == spec_interval_from_critical(plan.estimate, plan.std_err, crit),
{
    match mul_fx(crit, plan.std_err) {
        Some(moe) => match sub_fx(plan.estimate, moe) {
            Some(lo) => match add_fx(plan.estimate, moe) {
                Some(hi) => Some(Interval { lower: lo, upper: hi }),
                None => None,
            },
            None => None,
        },
        None => None,
    }
}

/// Bounds of a variance-ratio interval: `f_stat / crit_upper` below,
/// `f_stat / crit_lower` above.
pub open spec fn spec_var_interval_from_criticals(
    f_stat: i128,
    crit_lower: i128,
    crit_upper: i128,
) -> Option<Interval> {
    match fx_div(f_stat, crit_upper) {
        Some(lo) => match fx_div(f_stat, crit_lower) {
            Some(hi) => Some(Interval { lower: lo, upper: hi }),
            None => None,
        },
        None => None,
    }
}

/// Turn a variance-ratio plan and the two critical values the caller
/// evaluated into the interval bounds.
pub fn var_interval_from_criticals(plan: &VarIntervalPlan, crit_lower: i128, crit_upper: i128) -> (r:
    Option<Interval>)
    ensures
        r == spec_var_interval_from_criticals(plan.f_stat, crit_lower, crit_upper),
{
    match div_fx(plan.f_stat, crit_upper) {
        Some(lo) => match div_fx(plan.f_stat, crit_lower) {
            Some(hi) => Some(Interval { lower: lo, upper: hi }),
            None => None,
        },
        None => None,
    }
}

/// Law: a mean confidence interval is ordered. With a nonnegative critical
/// value and standard error, the lower bound never exceeds the upper bound.
pub proof fn lemma_interval_ordered(estimate: i128, std_err: i128, crit: i128)
    requires
        std_err >= 0,
        crit >= 0,
    ensures
        spec_interval_from_critical(estimate, std_err, crit) matches Some(iv) ==> iv.lower
            <= iv.upper,
{
    if let Some(iv) = spec_interval_from_critical(estimate, std_err, crit) {
        lemma_mul_nonnegative(crit as int, std_err as int);
        lemma_tdiv_magnitude(crit * std_err, SCALE as int);
    }
}

/// Law: a variance-ratio confidence interval is ordered. With a nonnegative
/// F statistic and ordered positive critical values, the lower bound never
/// exceeds the upper bound.
pub proof fn lemma_var_interval_ordered(f_stat: i128, crit_lower: i128, crit_upper: i128)
    requires
        f_stat >= 0,
        0 < crit_lower <= crit_upper,
    ensures
        spec_var_interval_from_criticals(f_stat, crit_lower, crit_upper) matches Some(iv)
            ==> iv.lower <= iv.upper,
{
    if let Some(iv) = spec_var_interval_from_criticals(f_stat, crit_lower, crit_upper) {
        lemma_mul_nonnegative(f_stat as int, SCALE as int);
        lemma_tdiv_ordered_by_divisor(f_stat * (SCALE as int), crit_lower as int, crit_upper as int);
    }
}

/// Law: calling an interval operation twice on identical inputs yields
/// identical plans: each operation's contract equates its result with a
/// spec function of the inputs alone, and these lemmas restate that as
/// determinism of two runs.
pub proof fn lemma_one_samp_z_interval_deterministic(
    data: Seq<i128>,
    alpha: i128,
    r1: Option<MeanIntervalPlan>,
    r2: Option<MeanIntervalPlan>,
)
    requires
        r1 == spec_one_samp_z_interval(data, alpha),
        r2 == spec_one_samp_z_interval(data, alpha),
    ensures
        r1 == r2,
{
}

/// Law: two runs of the one-sample t-interval on identical inputs agree.
pub proof fn lemma_one_samp_t_interval_deterministic(
    data: Seq<i128>,
    alpha: i128,
    r1: Option<MeanIntervalPlan>,
    r2: Option<MeanIntervalPlan>,
)
    requires
        r1 == spec_one_samp_t_interval(data, alpha),
        r2 == spec_one_samp_t_interval(data, alpha),
    ensures
        r1 == r2,
{
}

/// Law: two runs of the two-sample z-interval on identical inputs agree.
pub proof fn lemma_two_samp_z_interval_deterministic(
    data1: Seq<i128>,
    data2: Seq<i128>,
    alpha: i128,
    r1: Option<MeanIntervalPlan>,
    r2: Option<MeanIntervalPlan>,
)
    requires
        r1 == spec_two_samp_z_interval(data1, data2, alpha),
        r2 == spec_two_samp_z_interval(data1, data2, alpha),
    ensures
        r1 == r2,
{
}

/// Law: two runs of the Welch t-interval on identical inputs agree.
pub proof fn lemma_two_samp_t_interval_deterministic(
    data1: Seq<i128>,
    data2: Seq<i128>,
    alpha: i128,
    r1: Option<MeanIntervalPlan>,
    r2: Option<MeanIntervalPlan>,
)
    requires
        r1 == spec_two_samp_t_interval(data1, data2, alpha),
        r2 == spec_two_samp_t_interval(data1, data2, alpha),
    ensures
        r1 == r2,
{
}

/// Law: two runs of the variance-ratio interval on identical inputs agree.
pub proof fn lemma_two_samp_var_interval_deterministic(
    data1: Seq<i128>,
    data2: Seq<i128>,
    alpha: i128,
    r1: Option<VarIntervalPlan>,
    r2: Option<VarIntervalPlan>,
)
    requires
        r1 == spec_two_samp_var_interval(data1, data2, alpha),
        r2 == spec_two_samp_var_interval(data1, data2, alpha),
    ensures
        r1 == r2,
{
}

} // verus!
