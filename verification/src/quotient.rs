//! Integer division that rounds toward zero.

use vstd::prelude::*;

verus! {

/// The quotient of `n` by `d` rounded toward zero, as machine integers divide.
///
/// Written over the Euclidean `/` of specifications, which rounds a quotient
/// of a non-negative numerator toward zero for either sign of the divisor.
/// Meaningful for `d != 0` only.
pub open spec fn div_toward_zero(n: int, d: int) -> int {
    if n >= 0 {
        n / d
    } else {
        -((-n) / d)
    }
}

/// `div_toward_zero` is the truncated quotient: what is left over is smaller
/// in magnitude than the divisor and carries the sign of the numerator.
pub proof fn lemma_div_toward_zero_truncates(n: int, d: int)
    requires
        d != 0,
    ensures
        ({
            let q = div_toward_zero(n, d);
            let r = n - q * d;
            &&& n >= 0 ==> 0 <= r
            &&& n <= 0 ==> r <= 0
            &&& d > 0 ==> -d < r < d
            &&& d < 0 ==> d < r < -d
        }),
{
    let q = div_toward_zero(n, d);
    if n >= 0 {
        lemma_euclid(n, d);
        assert(n - q * d == n % d);
        assert(n == 0 ==> n % d == 0) by (nonlinear_arith)
            requires
                d != 0,
        ;
    } else {
        lemma_euclid(-n, d);
        assert(q * d == -(((-n) / d) * d)) by (nonlinear_arith)
            requires
                q == -((-n) / d),
        ;
        assert(n - q * d == -((-n) % d));
    }
}

/// The defining property of the Euclidean quotient and remainder.
proof fn lemma_euclid(n: int, d: int)
    by (nonlinear_arith)
    requires
        d != 0,
    ensures
        n == (n / d) * d + n % d,
        0 <= n % d,
        d > 0 ==> n % d < d,
        d < 0 ==> n % d < -d,
{
}

/// A quotient is no larger in magnitude than its numerator.
pub proof fn lemma_div_toward_zero_bound(n: int, d: int)
    requires
        d != 0,
    ensures
        n >= 0 ==> -n <= div_toward_zero(n, d) <= n,
        n <= 0 ==> n <= div_toward_zero(n, d) <= -n,
{
    let m = if n >= 0 { n } else { -n };
    lemma_euclid(m, d);
    assert(-m <= m / d <= m) by (nonlinear_arith)
        requires
            m >= 0,
            d != 0,
            m == (m / d) * d + m % d,
            0 <= m % d,
            d > 0 ==> m % d < d,
            d < 0 ==> m % d < -d,
    ;
}

} // verus!
