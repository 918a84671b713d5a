//! Overflow-checked fixed-point arithmetic used by the pricing core.
//!
//! Every operation that feeds a settlement amount either succeeds with the
//! exact mathematical result or fails explicitly; nothing wraps or clamps.
//! Products are widened to 128 bits before a division and narrowed only
//! afterwards.

use vstd::prelude::*;

verus! {

/// Fixed-point scale: prices are expressed in units of 10^-9.
pub const SCALE: u64 = 1_000_000_000;

/// Denominator of basis-point arithmetic: 10_000 bps are 100%.
pub const BPS_DENOMINATOR: u64 = 10_000;

/// Failure of a checked arithmetic step.
#[derive(Clone, Copy, Debug, PartialEq, Eq, Structural)]
pub enum MathError {
    /// The exact result does not fit in the 64-bit range.
    Overflow,
    /// A divisor was zero.
    DivisionByZero,
}

/// Checked 64-bit addition.
pub fn checked_add(a: u64, b: u64) -> (r: Result<u64, MathError>)
    ensures
        a + b <= u64::MAX ==> r == Ok::<u64, MathError>((a + b) as u64),
        a + b > u64::MAX ==> r == Err::<u64, MathError>(MathError::Overflow),
{
    if a <= u64::MAX - b {
        Ok(a + b)
    } else {
        Err(MathError::Overflow)
    }
}

/// Checked 64-bit subtraction.
pub fn checked_sub(a: u64, b: u64) -> (r: Result<u64, MathError>)
    ensures
        b <= a ==> r == Ok::<u64, MathError>((a - b) as u64),
        b > a ==> r == Err::<u64, MathError>(MathError::Overflow),
{
    if b <= a {
        Ok(a - b)
    } else {
        Err(MathError::Overflow)
    }
}

/// The product of two 64-bit values always fits the 128-bit range.
pub proof fn lemma_u64_mul_fits_u128(a: int, b: int)
    requires
        0 <= a <= u64::MAX,
        0 <= b <= u64::MAX,
    ensures
        0 <= a * b <= u128::MAX,
{
    assert(0 <= a * b <= u64::MAX as int * u64::MAX as int) by (nonlinear_arith)
        requires
            0 <= a <= u64::MAX,
            0 <= b <= u64::MAX,
    ;
}

/// `a * b / c` with the product widened to 128 bits and the quotient floored.
/// Fails with `DivisionByZero` when `c == 0` and with `Overflow` when the
/// quotient does not fit in 64 bits.
pub fn mul_div(a: u64, b: u64, c: u64) -> (r: Result<u64, MathError>)
    ensures
        c == 0 ==> r == Err::<u64, MathError>(MathError::DivisionByZero),
        c > 0 && a * b / c as int <= u64::MAX ==> r == Ok::<u64, MathError>((a * b / c as int) as u64),
        c > 0 && a * b / c as int > u64::MAX ==> r == Err::<u64, MathError>(MathError::Overflow),
{
    if c == 0 {
        return Err(MathError::DivisionByZero);
    }
    proof {
        lemma_u64_mul_fits_u128(a as int, b as int);
    }
    let wide: u128 = (a as u128) * (b as u128);
    let q: u128 = wide / (c as u128);
    if q <= u64::MAX as u128 {
        Ok(q as u64)
    } else {
        Err(MathError::Overflow)
    }
}

/// Floor square root, defined by counting up; used only to justify the
/// Newton iteration in `sqrt_u64`.
spec fn isqrt_spec(n: nat) -> nat
    decreases n,
{
    if n == 0 {
        0
    } else {
        let r = isqrt_spec((n - 1) as nat);
        if (r + 1) * (r + 1) <= n {
            r + 1
        } else {
            r
        }
    }
}

proof fn lemma_isqrt_spec_bounds(n: nat)
    ensures
        isqrt_spec(n) * isqrt_spec(n) <= n,
        n < (isqrt_spec(n) + 1) * (isqrt_spec(n) + 1),
    decreases n,
{
    if n == 0 {
        let r = isqrt_spec(n);
        assert(r == 0);
        assert(n < (r + 1) * (r + 1)) by (nonlinear_arith)
            requires
                n == 0,
                r == 0,
        ;
    } else {
        lemma_isqrt_spec_bounds((n - 1) as nat);
        let r0 = isqrt_spec((n - 1) as nat);
        assert(isqrt_spec(n) == if (r0 + 1) * (r0 + 1) <= n {
            r0 + 1
        } else {
            r0
        });
        if (r0 + 1) * (r0 + 1) <= n {
            assert((r0 + 1 + 1) * (r0 + 1 + 1) > n) by (nonlinear_arith)
                requires
                    n - 1 < (r0 + 1) * (r0 + 1),
                    (r0 + 1) * (r0 + 1) <= n,
            ;
        } else {
            assert(isqrt_spec(n) == r0);
            assert(r0 * r0 <= n - 1 <= n);
            assert(n < (r0 + 1) * (r0 + 1));
        }
    }
}

/// Integer square root by Newton's method: the floor of the real square
/// root, so `r * r <= v < (r + 1) * (r + 1)`; `sqrt_u64(0) == 0`. The
/// iteration runs on 128-bit intermediates, so no step can overflow.
pub fn sqrt_u64(v: u64) -> (r: u64)
    ensures
        r * r <= v,
        (r + 1) * (r + 1) > v,
{
    if v == 0 {
        return 0;
    }
    let wide_v: u128 = v as u128;
    let mut x: u128 = wide_v;
    let mut y: u128 = (x + wide_v / x) / 2;
    proof {
        lemma_isqrt_spec_bounds(v as nat);
        assert((v as int + 1) * (v as int + 1) > v as int) by (nonlinear_arith)
            requires
                v >= 1,
        ;
    }
    while y < x
        invariant
            1 <= x <= v,
            v >= 1,
            wide_v == v,
            (x + 1) * (x + 1) > v,
            y == ((x + wide_v / x) / 2) as u128,
        decreases x,
    {
        proof {
            let s = isqrt_spec(v as nat) as int;
            let xi = x as int;
            let d = wide_v as int / x as int;
            let vi = v as int;
            lemma_isqrt_spec_bounds(v as nat);
            assert(s >= 1) by (nonlinear_arith)
                requires
                    vi < (s + 1) * (s + 1),
                    vi >= 1,
                    s >= 0,
            ;
            // d is the floor of v / x, so x * d reaches within x of v.
            assert(xi * d >= vi - xi + 1 && xi * d <= vi) by (nonlinear_arith)
                requires
                    xi >= 1,
                    vi >= 1,
                    d == vi / xi,
            ;
            // The Newton step never falls below the true root:
            // x^2 + s^2 >= 2sx, hence x*(x + d) > (2s - 1)*x, hence x + d >= 2s.
            assert(xi + d >= 2 * s) by (nonlinear_arith)
                requires
                    xi >= 1,
                    s >= 0,
                    s * s <= vi,
                    xi * d >= vi - xi + 1,
            ;
            assert((x + wide_v / x) / 2 >= s);
            assert((s + 1) * (s + 1) > vi);
            let yi = y as int;
            assert((yi + 1) * (yi + 1) >= (s + 1) * (s + 1)) by (nonlinear_arith)
                requires
                    yi >= s,
                    s >= 0,
            ;
        }
        x = y;
        y = (x + wide_v / x) / 2;
    }
    proof {
        // On exit y >= x with y == (x + v/x)/2, hence v/x >= x, hence x*x <= v.
        let xi = x as int;
        let d = wide_v as int / x as int;
        let vi = v as int;
        assert(xi + d >= 2 * xi);
        assert(xi * xi <= xi * d) by (nonlinear_arith)
            requires
                xi >= 1,
                d >= xi,
        ;
        assert(xi * d <= vi) by (nonlinear_arith)
            requires
                xi >= 1,
                vi >= 1,
                d == vi / xi,
        ;
    }
    x as u64
}

} // verus!
