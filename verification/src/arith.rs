//! Exact wide-integer arithmetic: a widening multiply, a comparison of
//! products that would overflow `u128`, and an integer square root.
use vstd::prelude::*;

verus! {

/// 2^64 as a `u128`, usable from executable code.
pub const TWO_64: u128 = 0x1_0000_0000_0000_0000u128;

/// 2^128, which only exists at the specification level.
pub open spec fn pow2_128() -> nat {
    0x1_0000_0000_0000_0000_0000_0000_0000_0000nat
}

/// Widening multiply: returns `(hi, lo)` with `hi * 2^128 + lo == x * y`.
pub fn mul_wide(x: u64, y: u128) -> (r: (u128, u128))
    ensures
        r.0 * pow2_128() + r.1 == x * y,
{
    let yl: u128 = y % TWO_64;
    let yh: u128 = y / TWO_64;
    proof {
        vstd::arithmetic::div_mod::lemma_fundamental_div_mod(y as int, TWO_64 as int);
        assert((x as nat) * (yl as nat) < pow2_128()) by (nonlinear_arith)
            requires
                x < TWO_64,
                yl < TWO_64,
                x >= 0,
                yl >= 0,
        ;
        assert((x as nat) * (yh as nat) < pow2_128()) by (nonlinear_arith)
            requires
                x < TWO_64,
                yh < TWO_64,
                x >= 0,
                yh >= 0,
        ;
    }
    let p_lo: u128 = (x as u128) * yl;
    let p_hi: u128 = (x as u128) * yh;
    let ll: u128 = p_lo % TWO_64;
    let lh: u128 = p_lo / TWO_64;
    let hl: u128 = p_hi % TWO_64;
    let hh: u128 = p_hi / TWO_64;
    let t: u128 = hl + lh;
    let tl: u128 = t % TWO_64;
    let tc: u128 = t / TWO_64;
    let lo: u128 = tl * TWO_64 + ll;
    let hi: u128 = hh + tc;
    proof {
        vstd::arithmetic::div_mod::lemma_fundamental_div_mod(p_lo as int, TWO_64 as int);
        vstd::arithmetic::div_mod::lemma_fundamental_div_mod(p_hi as int, TWO_64 as int);
        vstd::arithmetic::div_mod::lemma_fundamental_div_mod(t as int, TWO_64 as int);
        assert((hh + tc) * pow2_128() + (tl * TWO_64 + ll) == (x as nat) * (y as nat))
            by (nonlinear_arith)
            requires
                y == yh * TWO_64 + yl,
                p_lo == (x as nat) * (yl as nat),
                p_hi == (x as nat) * (yh as nat),
                p_lo == lh * TWO_64 + ll,
                p_hi == hh * TWO_64 + hl,
                t == hl + lh,
                t == tc * TWO_64 + tl,
                TWO_64 * TWO_64 == pow2_128(),
        ;
    }
    (hi, lo)
}

/// A pair `(hi, lo)` with `lo < 2^128` stands for `hi * 2^128 + lo`; such
/// pairs compare lexicographically.
proof fn lemma_wide_cmp(h1: nat, l1: nat, h2: nat, l2: nat)
    requires
        l1 < pow2_128(),
        l2 < pow2_128(),
    ensures
        (h1 * pow2_128() + l1 >= h2 * pow2_128() + l2) <==> (h1 > h2 || (h1 == h2 && l1 >= l2)),
{
    assert((h1 * pow2_128() + l1 >= h2 * pow2_128() + l2) <==> (h1 > h2 || (h1 == h2 && l1
        >= l2))) by (nonlinear_arith)
        requires
            l1 < pow2_128(),
            l2 < pow2_128(),
    ;
}

/// Decides `x1 * y1 >= x2 * y2` even though either product can overflow
/// `u128`.
pub fn prod_ge(x1: u64, y1: u128, x2: u64, y2: u128) -> (b: bool)
    ensures
        b == ((x1 * y1) as nat >= (x2 * y2) as nat),
{
    let (h1, l1) = mul_wide(x1, y1);
    let (h2, l2) = mul_wide(x2, y2);
    proof {
        lemma_wide_cmp(h1 as nat, l1 as nat, h2 as nat, l2 as nat);
    }
    h1 > h2 || (h1 == h2 && l1 >= l2)
}

/// `r` is the integer square root of `q`: the unique `r` with
/// `r^2 <= q < (r+1)^2`.
pub open spec fn is_isqrt(r: nat, q: nat) -> bool {
    r * r <= q < (r + 1) * (r + 1)
}

/// The integer square root is unique.
pub proof fn lemma_isqrt_unique(r1: nat, r2: nat, q: nat)
    requires
        is_isqrt(r1, q),
        is_isqrt(r2, q),
    ensures
        r1 == r2,
{
    assert(r1 == r2) by (nonlinear_arith)
        requires
            r1 * r1 <= q < (r1 + 1) * (r1 + 1),
            r2 * r2 <= q < (r2 + 1) * (r2 + 1),
    ;
}

/// Every natural number has an integer square root.
pub proof fn lemma_isqrt_exists(q: nat)
    ensures
        exists|r: nat| is_isqrt(r, q),
    decreases q,
{
    if q == 0 {
        assert(is_isqrt(0nat, 0nat)) by (nonlinear_arith);
    } else {
        lemma_isqrt_exists((q - 1) as nat);
        let r = choose|r: nat| #[trigger] is_isqrt(r, (q - 1) as nat);
        if (r + 1) * (r + 1) <= q {
            assert(is_isqrt(r + 1, q)) by (nonlinear_arith)
                requires
                    r * r <= q - 1 < (r + 1) * (r + 1),
                    (r + 1) * (r + 1) <= q,
            ;
        } else {
            assert(is_isqrt(r, q));
        }
    }
}

/// A larger argument has a square root at least as large.
pub proof fn lemma_isqrt_monotone(r1: nat, r2: nat, q1: nat, q2: nat)
    requires
        is_isqrt(r1, q1),
        is_isqrt(r2, q2),
        q1 <= q2,
    ensures
        r1 <= r2,
{
    if r1 > r2 {
        assert(false) by (nonlinear_arith)
            requires
                r1 * r1 <= q1 < (r1 + 1) * (r1 + 1),
                r2 * r2 <= q2 < (r2 + 1) * (r2 + 1),
                q1 <= q2,
                r1 > r2,
        ;
    }
}

/// Integer square root of a `u128`, by binary search.
pub fn isqrt_u128(q: u128) -> (r: u64)
    ensures
        is_isqrt(r as nat, q as nat),
{
    let mut lo: u128 = 0;
    let mut hi: u128 = TWO_64;
    proof {
        assert((TWO_64 as nat) * (TWO_64 as nat) == pow2_128());
        assert(q < pow2_128());
    }
    while hi - lo > 1
        invariant
            lo < hi <= TWO_64,
            (lo as nat) * (lo as nat) <= q as nat,
            (q as nat) < (hi as nat) * (hi as nat),
        decreases hi - lo,
    {
        let mid: u128 = lo + (hi - lo) / 2;
        proof {
            assert(lo < mid < hi);
            assert((mid as nat) * (mid as nat) < pow2_128()) by (nonlinear_arith)
                requires
                    mid < TWO_64,
                    (TWO_64 as nat) * (TWO_64 as nat) == pow2_128(),
            ;
        }
        let sq: u128 = mid * mid;
        if sq <= q {
            lo = mid;
        } else {
            hi = mid;
        }
    }
    proof {
        assert(hi == lo + 1);
        assert(lo < TWO_64);
    }
    lo as u64
}

} // verus!
