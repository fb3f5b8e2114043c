//! Fixed-point arithmetic shared by all elements.
//!
//! A fixed-point value `v` stands for the real number `v / FIX_KOMMA_SHIFT`:
//! its lowest `FIX_KOMMA_SHIFT_BITS` bits are the fraction.
use vstd::prelude::*;

verus! {

/// Number of fractional bits of a fixed-point value.
pub const FIX_KOMMA_SHIFT_BITS: u32 = 10;

/// The fixed-point representation of one.
pub const FIX_KOMMA_SHIFT: i64 = 1024;

/// Rounds a fixed-point value down to the integer it stands for.
pub open spec fn scale_down(x: int) -> int {
    x / 1024
}

/// The product of two fixed-point values, rounded down.
pub open spec fn fx_mul(a: int, b: int) -> int {
    (a * b) / 1024
}

/// The quotient of two fixed-point values, rounded down; `b` is not zero.
pub open spec fn fx_div(a: int, b: int) -> int {
    if b > 0 {
        (a * 1024) / b
    } else {
        (-a * 1024) / (-b)
    }
}

/// The magnitude of `x`.
pub open spec fn abs(x: int) -> int {
    if x < 0 {
        -x
    } else {
        x
    }
}

/// `x` clamped into the range of `i32`.
pub open spec fn saturate(x: int) -> i32 {
    if x > i32::MAX {
        i32::MAX
    } else if x < i32::MIN {
        i32::MIN
    } else {
        x as i32
    }
}

/// `x` clamped into `[-limit, limit]`.
pub open spec fn clamp(x: int, limit: int) -> int {
    if x > limit {
        limit
    } else if x < -limit {
        -limit
    } else {
        x
    }
}

/// A product of two bounded factors is bounded by the product of the bounds.
pub proof fn lemma_mul_within(a: int, b: int, ba: int, bb: int)
    requires
        -ba <= a <= ba,
        -bb <= b <= bb,
    ensures
        -(ba * bb) <= a * b <= ba * bb,
{
    assert(-(ba * bb) <= a * b <= ba * bb) by (nonlinear_arith)
        requires
            -ba <= a <= ba,
            -bb <= b <= bb,
    ;
}

/// Scaling a difference by a fraction `a / 1024` in `[0, 1]`, rounded down,
/// keeps it between zero and the difference.
pub proof fn lemma_fraction_between(a: int, d: int)
    requires
        0 <= a <= 1024,
    ensures
        d >= 0 ==> 0 <= (a * d) / 1024 <= d,
        d < 0 ==> d <= (a * d) / 1024 <= 0,
{
    let p = a * d;
    vstd::arithmetic::div_mod::lemma_fundamental_div_mod(p, 1024);
    let q = p / 1024;
    let r = p % 1024;
    if d >= 0 {
        assert(0 <= p <= 1024 * d) by (nonlinear_arith)
            requires
                0 <= a <= 1024,
                d >= 0,
                p == a * d,
        ;
    } else {
        assert(1024 * d <= p <= 0) by (nonlinear_arith)
            requires
                0 <= a <= 1024,
                d < 0,
                p == a * d,
        ;
    }
}

/// Floor division by a positive divisor (Rust's `/` truncates toward zero).
pub fn floor_div(num: i128, den: i128) -> (r: i128)
    requires
        den > 0,
        num > i128::MIN,
    ensures
        r == num / den,
        num >= 0 ==> 0 <= r <= num,
        num < 0 ==> num <= r < 0,
{
    if num >= 0 {
        let q: u128 = num as u128 / den as u128;
        proof {
            let x = num as int;
            let d = den as int;
            vstd::arithmetic::div_mod::lemma_fundamental_div_mod(x, d);
            assert(0 <= q <= x) by (nonlinear_arith)
                requires
                    x == d * (x / d) + x % d,
                    0 <= x % d < d,
                    q == x / d,
                    x >= 0,
                    d >= 1,
            ;
        }
        q as i128
    } else {
        let m: u128 = (-num - 1) as u128;
        let q: u128 = m / den as u128;
        proof {
            let mi = m as int;
            let d = den as int;
            let qi = q as int;
            let ri = mi % d;
            assert(mi == qi * d + ri && 0 <= ri < d) by {
                vstd::arithmetic::div_mod::lemma_fundamental_div_mod(mi, d);
            }
            assert(num as int == (-qi - 1) * d + (d - ri - 1)) by (nonlinear_arith)
                requires
                    mi == qi * d + ri,
                    mi == -(num as int) - 1,
            ;
            vstd::arithmetic::div_mod::lemma_fundamental_div_mod_converse(
                num as int,
                d,
                -qi - 1,
                d - ri - 1,
            );
            assert(num as int <= -qi - 1) by (nonlinear_arith)
                requires
                    mi == qi * d + ri,
                    mi == -(num as int) - 1,
                    qi >= 0,
                    d >= 1,
                    ri >= 0,
            ;
        }
        -(q as i128) - 1
    }
}

/// The fixed-point quotient `a / b`, rounded down.
pub fn div_fx(a: i64, b: i64) -> (r: i128)
    requires
        b != 0,
        -0x4000_0000_0000 <= a <= 0x4000_0000_0000,
    ensures
        r == fx_div(a as int, b as int),
        -abs(a as int) * 1024 <= r <= abs(a as int) * 1024,
{
    let (num, den) = if b > 0 {
        ((a as i128) * 1024, b as i128)
    } else {
        (-(a as i128) * 1024, -(b as i128))
    };
    floor_div(num, den)
}

/// The integer square root: the largest `r` with `r * r <= n`.
pub fn isqrt(n: u64) -> (r: u64)
    ensures
        r * r <= n < (r + 1) * (r + 1),
{
    let mut lo: u64 = 0;
    let mut hi: u64 = 0x1_0000_0000;
    assert(n < hi * hi);
    while hi - lo > 1
        invariant
            lo < hi <= 0x1_0000_0000,
            lo * lo <= n < hi * hi,
        decreases hi - lo,
    {
        let mid: u64 = lo + (hi - lo) / 2;
        proof {
            lemma_mul_within(mid as int, mid as int, 0x1_0000_0000, 0x1_0000_0000);
        }
        if (mid as u128) * (mid as u128) <= n as u128 {
            lo = mid;
        } else {
            hi = mid;
        }
    }
    lo
}

/// Rounds a fixed-point value down to the integer it stands for.
pub fn shift_down(x: i128) -> (r: i128)
    requires
        x > i128::MIN,
    ensures
        r == scale_down(x as int),
{
    floor_div(x, 1024)
}

/// Clamps a wide value into the range of `i32`.
pub fn saturate_i32(x: i128) -> (r: i32)
    ensures
        r == saturate(x as int),
{
    if x > i32::MAX as i128 {
        i32::MAX
    } else if x < i32::MIN as i128 {
        i32::MIN
    } else {
        x as i32
    }
}

/// Clamps `x` into `[-limit, limit]`.
pub fn clamp_i128(x: i128, limit: i128) -> (r: i128)
    requires
        limit >= 0,
    ensures
        r == clamp(x as int, limit as int),
{
    if x > limit {
        limit
    } else if x < -limit {
        -limit
    } else {
        x
    }
}

} // verus!
