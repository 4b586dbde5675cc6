//! Keplerian physics over exact integers.
//!
//! The gravitational constant is carried as G == 66743 / 10^15 and pi as
//! 314159 / 10^5. For a body of mass `m` (kg) and a circular orbit of
//! semi-major axis `a` (m), the orbital period in seconds is
//!
//!     T == 2 * pi * sqrt(a^3 / (G * m))
//!
//! rounded up to the next whole second. Squaring `p >= T` and clearing the
//! two denominators gives the equivalent integer inequality
//!
//!     p^2 * 66743 * m >= 4 * 314159^2 * 10^5 * a^3
//!
//! whose right-hand coefficient is `PERIOD_COEF`; the period is the least
//! `p` that satisfies it. The circular orbital velocity is
//! `sqrt(G * m / a)` m/s; reported in hundredths of km/h it is
//!
//!     v == floor(360 * sqrt(G * m / a)) == isqrt((360^2 * 66743 * m) / (10^15 * a))
//!
//! whose left coefficient is `VEL_COEF`.
use crate::arith::{is_isqrt, isqrt_u128, lemma_isqrt_exists, lemma_isqrt_monotone,
    lemma_isqrt_unique, prod_ge};
use vstd::prelude::*;

verus! {

/// Gravitational constant numerator: G == 66743 / 10^15 N*m^2*kg^-2.
pub const GRAV_NUM: u64 = 66743;

/// Pi scaled by 10^5: pi == 314159 / 10^5.
pub const PI_1E5: u64 = 314159;

/// 4 * 314159^2 * 10^5: the coefficient of `a^3` in the squared period
/// inequality.
pub const PERIOD_COEF: u64 = 39_478_350_912_400_000;

/// 360^2 * 66743: the coefficient of `m` in the squared velocity formula.
pub const VEL_COEF: u64 = 8_649_892_800;

/// 10^15: the denominator of the scaled gravitational constant.
pub const AXIS_SCALE: u128 = 1_000_000_000_000_000;

/// Largest supported mass in kg: floor((2^128 - 1) / VEL_COEF), so that
/// `VEL_COEF * m` fits in a `u128`.
pub const MASS_MAX: u128 = 39_339_489_492_972_498_279_212_732_836;

/// Largest supported semi-major axis in m (10^12: beyond the orbit of
/// Saturn), so that `a^3` fits in a `u128`.
pub const AXIS_MAX: u64 = 1_000_000_000_000;

/// Largest period, in seconds, that the search reports: 2^32 - 1 (more
/// than 136 years).
pub const PERIOD_MAX: u64 = 4_294_967_295;

/// The squared form of `p >= 2 * pi * sqrt(a^3 / (G * m))`: whether a
/// period of `p` seconds is at least the exact orbital period.
pub open spec fn period_cond(p: nat, m: nat, a: nat) -> bool {
    p * p * (GRAV_NUM as nat) * m >= (PERIOD_COEF as nat) * (a * a * a)
}

/// The ceiling of the exact orbital period: `p` satisfies the squared
/// inequality and is the least value that does.
pub open spec fn is_min_period(p: nat, m: nat, a: nat) -> bool {
    period_cond(p, m, a) && (p == 0 || !period_cond((p - 1) as nat, m, a))
}

/// The orbital period in whole seconds, rounded up, as a specification
/// value.
pub open spec fn spec_period(m: nat, a: nat) -> nat {
    choose|p: nat| is_min_period(p, m, a)
}

/// `PERIOD_COEF` is indeed 4 * 314159^2 * 10^5, i.e. (2 * pi * 10^5)^2 / 10^5.
pub proof fn lemma_period_coef()
    ensures
        PERIOD_COEF as nat == 4 * (PI_1E5 as nat) * (PI_1E5 as nat) * 100_000,
{
}

/// `VEL_COEF` is indeed 360^2 * 66743: the velocity in hundredths of
/// km/h is 100 * 3.6 == 360 times the velocity in m/s.
pub proof fn lemma_vel_coef()
    ensures
        VEL_COEF as nat == 360 * 360 * (GRAV_NUM as nat),
{
}

/// Once a candidate period satisfies the squared inequality, every longer
/// one does.
pub proof fn lemma_period_cond_monotone(p1: nat, p2: nat, m: nat, a: nat)
    requires
        period_cond(p1, m, a),
        p1 <= p2,
    ensures
        period_cond(p2, m, a),
{
    assert(p2 * p2 * (GRAV_NUM as nat) * m >= (PERIOD_COEF as nat) * (a * a * a))
        by (nonlinear_arith)
        requires
            p1 * p1 * (GRAV_NUM as nat) * m >= (PERIOD_COEF as nat) * (a * a * a),
            p1 <= p2,
    ;
}

/// A smaller semi-major axis keeps the squared inequality satisfied.
pub proof fn lemma_period_cond_axis_antitone(p: nat, m: nat, a1: nat, a2: nat)
    requires
        period_cond(p, m, a2),
        a1 <= a2,
    ensures
        period_cond(p, m, a1),
{
    assert(p * p * (GRAV_NUM as nat) * m >= (PERIOD_COEF as nat) * (a1 * a1 * a1))
        by (nonlinear_arith)
        requires
            p * p * (GRAV_NUM as nat) * m >= (PERIOD_COEF as nat) * (a2 * a2 * a2),
            a1 <= a2,
    ;
}

/// The least period is unique.
pub proof fn lemma_min_period_unique(p1: nat, p2: nat, m: nat, a: nat)
    requires
        is_min_period(p1, m, a),
        is_min_period(p2, m, a),
    ensures
        p1 == p2,
{
    if p1 < p2 {
        lemma_period_cond_monotone(p1, (p2 - 1) as nat, m, a);
    }
    if p2 < p1 {
        lemma_period_cond_monotone(p2, (p1 - 1) as nat, m, a);
    }
}

/// A witness of the least period pins down `spec_period`.
pub proof fn lemma_spec_period(p: nat, m: nat, a: nat)
    requires
        is_min_period(p, m, a),
    ensures
        spec_period(m, a) == p,
{
    assert(is_min_period(p, m, a));
    let q = choose|q: nat| is_min_period(q, m, a);
    lemma_min_period_unique(p, q, m, a);
}

/// Below any satisfying candidate there is a least one.
proof fn lemma_min_period_exists_below(n: nat, m: nat, a: nat)
    requires
        period_cond(n, m, a),
    ensures
        exists|p: nat| is_min_period(p, m, a),
    decreases n,
{
    if n == 0 {
        assert(is_min_period(0, m, a));
    } else if period_cond((n - 1) as nat, m, a) {
        lemma_min_period_exists_below((n - 1) as nat, m, a);
    } else {
        assert(is_min_period(n, m, a));
    }
}

/// Every positive mass and axis have a (unique) ceiling-rounded period.
pub proof fn lemma_min_period_exists(m: nat, a: nat)
    requires
        m >= 1,
    ensures
        exists|p: nat| is_min_period(p, m, a),
{
    let n = (PERIOD_COEF as nat) * (a * a * a) + 1;
    assert(period_cond(n, m, a)) by (nonlinear_arith)
        requires
            m >= 1,
            n == (PERIOD_COEF as nat) * (a * a * a) + 1,
    ;
    lemma_min_period_exists_below(n, m, a);
}

/// Decides the squared period inequality exactly.
fn period_cond_at(p: u64, m: u128, a: u64) -> (b: bool)
    requires
        p <= PERIOD_MAX,
        1 <= m <= MASS_MAX,
        1 <= a <= AXIS_MAX,
    ensures
        b == period_cond(p as nat, m as nat, a as nat),
{
    proof {
        assert((p as nat) * (p as nat) <= (PERIOD_MAX as nat) * (PERIOD_MAX as nat))
            by (nonlinear_arith)
            requires
                p <= PERIOD_MAX,
        ;
        assert((GRAV_NUM as nat) * (m as nat) <= (GRAV_NUM as nat) * (MASS_MAX as nat))
            by (nonlinear_arith)
            requires
                m <= MASS_MAX,
        ;
        assert((a as nat) * (a as nat) <= (AXIS_MAX as nat) * (AXIS_MAX as nat))
            by (nonlinear_arith)
            requires
                a <= AXIS_MAX,
        ;
        assert((a as nat) * (a as nat) * (a as nat) <= (AXIS_MAX as nat) * (AXIS_MAX as nat) * (
        AXIS_MAX as nat)) by (nonlinear_arith)
            requires
                a <= AXIS_MAX,
        ;
    }
    let pp: u64 = p * p;
    let gm: u128 = (GRAV_NUM as u128) * m;
    let a128: u128 = a as u128;
    let a3: u128 = a128 * a128 * a128;
    let b = prod_ge(pp, gm, PERIOD_COEF, a3);
    proof {
        assert((pp as nat) * (gm as nat) == (p as nat) * (p as nat) * (GRAV_NUM as nat) * (
        m as nat)) by (nonlinear_arith)
            requires
                pp == (p as nat) * (p as nat),
                gm == (GRAV_NUM as nat) * (m as nat),
        ;
    }
    b
}

/// The orbital period in whole seconds, rounded up to the ceiling:
/// the least `p` with `p^2 * 66743 * m >= PERIOD_COEF * a^3`, which is
/// exactly `ceil(2 * pi * sqrt(a^3 / (G * m)))` for pi == 314159 / 10^5
/// and G == 66743 / 10^15. Returns `None` exactly when the period would
/// exceed `PERIOD_MAX` seconds.
pub fn orbital_period_seconds(m: u128, a: u64) -> (r: Option<u64>)
    requires
        1 <= m <= MASS_MAX,
        1 <= a <= AXIS_MAX,
    ensures
        r is Some <==> period_cond(PERIOD_MAX as nat, m as nat, a as nat),
        r matches Some(p) ==> is_min_period(p as nat, m as nat, a as nat) && p <= PERIOD_MAX && p
            as nat == spec_period(m as nat, a as nat),
{
    if !period_cond_at(PERIOD_MAX, m, a) {
        proof {
            if period_cond(PERIOD_MAX as nat, m as nat, a as nat) {
                assert(false);
            }
        }
        return None;
    }
    proof {
        // A zero-length period never satisfies the inequality, since the
        // right-hand side is positive.
        assert(!period_cond(0, m as nat, a as nat)) by (nonlinear_arith)
            requires
                m >= 1,
                a >= 1,
        ;
    }
    let mut lo: u64 = 0;
    let mut hi: u64 = PERIOD_MAX;
    while hi - lo > 1
        invariant
            lo < hi <= PERIOD_MAX,
            1 <= m <= MASS_MAX,
            1 <= a <= AXIS_MAX,
            !period_cond(lo as nat, m as nat, a as nat),
            period_cond(hi as nat, m as nat, a as nat),
        decreases hi - lo,
    {
        let mid: u64 = lo + (hi - lo) / 2;
        if period_cond_at(mid, m, a) {
            hi = mid;
        } else {
            lo = mid;
        }
    }
    proof {
        assert(hi == lo + 1);
        lemma_spec_period(hi as nat, m as nat, a as nat);
    }
    Some(hi)
}

/// The quotient whose integer square root is the circular orbital
/// velocity in hundredths of km/h.
pub open spec fn vel_quotient(m: nat, a: nat) -> nat {
    ((VEL_COEF as nat) * m) / ((AXIS_SCALE as nat) * a)
}

/// The circular orbital velocity in hundredths of km/h, as a
/// specification value.
pub open spec fn spec_velocity(m: nat, a: nat) -> nat {
    choose|v: nat| is_isqrt(v, vel_quotient(m, a))
}

/// A witness of the integer square root pins down `spec_velocity`.
pub proof fn lemma_spec_velocity(v: nat, m: nat, a: nat)
    requires
        is_isqrt(v, vel_quotient(m, a)),
    ensures
        spec_velocity(m, a) == v,
{
    let w = choose|w: nat| is_isqrt(w, vel_quotient(m, a));
    lemma_isqrt_unique(v, w, vel_quotient(m, a));
}

/// The circular orbital velocity `sqrt(G * m / a)` m/s, reported in
/// hundredths of km/h and truncated: `floor(360 * sqrt(G * m / a))`.
pub fn circular_orbital_velocity_hundredths(m: u128, a: u64) -> (v: u64)
    requires
        1 <= m <= MASS_MAX,
        1 <= a <= AXIS_MAX,
    ensures
        is_isqrt(v as nat, vel_quotient(m as nat, a as nat)),
        v as nat == spec_velocity(m as nat, a as nat),
{
    proof {
        assert((VEL_COEF as nat) * (m as nat) <= (VEL_COEF as nat) * (MASS_MAX as nat))
            by (nonlinear_arith)
            requires
                m <= MASS_MAX,
        ;
        assert((AXIS_SCALE as nat) * (a as nat) <= (AXIS_SCALE as nat) * (AXIS_MAX as nat))
            by (nonlinear_arith)
            requires
                a <= AXIS_MAX,
        ;
        assert((AXIS_SCALE as nat) * (a as nat) >= 1) by (nonlinear_arith)
            requires
                a >= 1,
        ;
    }
    let num: u128 = (VEL_COEF as u128) * m;
    let den: u128 = AXIS_SCALE * (a as u128);
    let q: u128 = num / den;
    let v = isqrt_u128(q);
    proof {
        lemma_spec_velocity(v as nat, m as nat, a as nat);
    }
    v
}

/// LAW: for a fixed mass, the circular orbital velocity never increases
/// as the semi-major axis grows — a larger orbit is a slower orbit.
pub proof fn lemma_velocity_antitone(m: nat, a1: nat, a2: nat)
    requires
        m >= 1,
        1 <= a1 <= a2,
    ensures
        spec_velocity(m, a1) >= spec_velocity(m, a2),
{
    lemma_isqrt_exists(vel_quotient(m, a1));
    lemma_isqrt_exists(vel_quotient(m, a2));
    let v1 = choose|v: nat| is_isqrt(v, vel_quotient(m, a1));
    let v2 = choose|v: nat| is_isqrt(v, vel_quotient(m, a2));
    assert((AXIS_SCALE as nat) * a1 <= (AXIS_SCALE as nat) * a2 && 1 <= (AXIS_SCALE as nat) * a1)
        by (nonlinear_arith)
        requires
            1 <= a1 <= a2,
    ;
    vstd::arithmetic::div_mod::lemma_div_is_ordered_by_denominator(
        ((VEL_COEF as nat) * m) as int,
        ((AXIS_SCALE as nat) * a1) as int,
        ((AXIS_SCALE as nat) * a2) as int,
    );
    lemma_isqrt_monotone(v2, v1, vel_quotient(m, a2), vel_quotient(m, a1));
    lemma_spec_velocity(v1, m, a1);
    lemma_spec_velocity(v2, m, a2);
}

/// LAW: for a fixed mass, the ceiling-rounded orbital period never
/// decreases as the semi-major axis grows — a larger orbit takes longer.
pub proof fn lemma_period_monotone(m: nat, a1: nat, a2: nat)
    requires
        m >= 1,
        a1 <= a2,
    ensures
        spec_period(m, a1) <= spec_period(m, a2),
{
    lemma_min_period_exists(m, a1);
    lemma_min_period_exists(m, a2);
    let p1 = choose|p: nat| is_min_period(p, m, a1);
    let p2 = choose|p: nat| is_min_period(p, m, a2);
    lemma_spec_period(p1, m, a1);
    lemma_spec_period(p2, m, a2);
    if p1 > p2 {
        lemma_period_cond_axis_antitone(p2, m, a1, a2);
        lemma_period_cond_monotone(p2, (p1 - 1) as nat, m, a1);
    }
}

} // verus!
