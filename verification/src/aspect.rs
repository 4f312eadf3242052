use crate::rational::Rational;
use vstd::arithmetic::div_mod::lemma_fundamental_div_mod;
use vstd::prelude::*;

verus! {

/// Magnitude bound used when a display aspect ratio is derived from the coded
/// dimensions: the reduction never returns a numerator or denominator whose
/// magnitude exceeds this bound.
pub const REDUCE_BOUND: i64 = 1024 * 1024;

/// Magnitude of an integer.
pub open spec fn mag(x: int) -> int {
    if x < 0 {
        -x
    } else {
        x
    }
}

/// Greatest common divisor of two non-negative integers, by Euclid's rule.
/// `gcd(a, 0) == a`, so `gcd(0, 0) == 0`.
pub open spec fn gcd(a: int, b: int) -> int
    recommends
        0 <= a,
        0 <= b,
    decreases b,
    when 0 <= b
{
    if b == 0 {
        a
    } else {
        gcd(b, a % b)
    }
}

/// Whether the fraction `num / den`, brought to lowest terms, fits within the
/// magnitude bound `max` (a zero fraction always fits).
pub open spec fn fits_exactly(num: int, den: int, max: int) -> bool {
    let g = gcd(mag(num), mag(den));
    g == 0 || (mag(num) / g <= max && mag(den) / g <= max)
}

/// Numerator of `num / den` in lowest terms, carrying the fraction's sign.
pub open spec fn reduced_num(num: int, den: int) -> int {
    let g = gcd(mag(num), mag(den));
    if g == 0 {
        0
    } else if (num < 0) != (den < 0) {
        -(mag(num) / g)
    } else {
        mag(num) / g
    }
}

/// Denominator of `num / den` in lowest terms, always non-negative.
pub open spec fn reduced_den(num: int, den: int) -> int {
    let g = gcd(mag(num), mag(den));
    if g == 0 {
        0
    } else {
        mag(den) / g
    }
}

/// Whether `d` divides `n` exactly.
pub open spec fn divides(d: int, n: int) -> bool {
    exists|k: int| n == #[trigger] (d * k)
}

/// The greatest common divisor of non-negative integers is non-negative.
proof fn lemma_gcd_nonneg(a: int, b: int)
    requires
        0 <= a,
        0 <= b,
    ensures
        0 <= gcd(a, b),
    decreases b,
{
    if b != 0 {
        assert(0 <= a % b < b) by (nonlinear_arith)
            requires
                1 <= b,
        ;
        lemma_gcd_nonneg(b, a % b);
    }
}

/// The greatest common divisor divides both of its arguments.
proof fn lemma_gcd_divides(a: int, b: int)
    requires
        0 <= a,
        0 <= b,
    ensures
        divides(gcd(a, b), a),
        divides(gcd(a, b), b),
    decreases b,
{
    let g = gcd(a, b);
    if b == 0 {
        assert(a == g * 1);
        assert(0 == g * 0);
    } else {
        assert(0 <= a % b < b) by (nonlinear_arith)
            requires
                1 <= b,
        ;
        lemma_gcd_divides(b, a % b);
        lemma_fundamental_div_mod(a, b);
        let k1 = choose|k: int| b == #[trigger] (g * k);
        let k2 = choose|k: int| a % b == #[trigger] (g * k);
        assert(a == g * (k1 * (a / b) + k2)) by (nonlinear_arith)
            requires
                a == b * (a / b) + a % b,
                b == g * k1,
                a % b == g * k2,
        ;
    }
}

/// Every common divisor of two non-negative integers divides their greatest
/// common divisor.
proof fn lemma_gcd_greatest(d: int, a: int, b: int)
    requires
        1 <= d,
        0 <= a,
        0 <= b,
        divides(d, a),
        divides(d, b),
    ensures
        divides(d, gcd(a, b)),
    decreases b,
{
    if b != 0 {
        assert(0 <= a % b < b) by (nonlinear_arith)
            requires
                1 <= b,
        ;
        lemma_fundamental_div_mod(a, b);
        let k1 = choose|k: int| a == #[trigger] (d * k);
        let k2 = choose|k: int| b == #[trigger] (d * k);
        assert(a % b == d * (k1 - k2 * (a / b))) by (nonlinear_arith)
            requires
                a == b * (a / b) + a % b,
                a == d * k1,
                b == d * k2,
        ;
        lemma_gcd_greatest(d, b, a % b);
    }
}

/// A positive divisor of a positive integer is no larger than it.
proof fn lemma_divides_le(d: int, n: int)
    requires
        1 <= d,
        1 <= n,
        divides(d, n),
    ensures
        d <= n,
{
    let k = choose|j: int| n == #[trigger] (d * j);
    assert(d <= n) by (nonlinear_arith)
        requires
            1 <= d,
            1 <= n,
            n == d * k,
    ;
}

/// Dividing an exact multiple gives back the cofactor.
proof fn lemma_div_of_multiple(d: int, n: int, k: int)
    requires
        1 <= d,
        n == d * k,
    ensures
        n / d == k,
{
    assert(n / d == k) by (nonlinear_arith)
        requires
            1 <= d,
            n == d * k,
    ;
}

/// The reduction is a true reduction: whenever the fraction is not the zero
/// fraction, its reduced numerator magnitude and reduced denominator have no
/// common divisor above one — no further reduction is possible.
pub proof fn lemma_reduction_in_lowest_terms(num: int, den: int)
    requires
        gcd(mag(num), mag(den)) != 0,
    ensures
        gcd(mag(reduced_num(num, den)), reduced_den(num, den)) == 1,
{
    let a = mag(num);
    let b = mag(den);
    let g = gcd(a, b);
    lemma_gcd_nonneg(a, b);
    lemma_gcd_divides(a, b);
    let ka = choose|k: int| a == #[trigger] (g * k);
    let kb = choose|k: int| b == #[trigger] (g * k);
    lemma_div_of_multiple(g, a, ka);
    lemma_div_of_multiple(g, b, kb);
    let a1 = a / g;
    let b1 = b / g;
    assert(0 <= a1 && 0 <= b1) by (nonlinear_arith)
        requires
            1 <= g,
            0 <= a,
            0 <= b,
            a == g * a1,
            b == g * b1,
    ;
    assert(mag(reduced_num(num, den)) == a1);
    assert(reduced_den(num, den) == b1);
    let c = gcd(a1, b1);
    lemma_gcd_nonneg(a1, b1);
    if c == 0 {
        // a zero gcd would force both reduced terms — hence both magnitudes,
        // hence g itself — to zero
        lemma_gcd_divides(a1, b1);
        assert(a1 == 0 && b1 == 0) by (nonlinear_arith)
            requires
                c == 0,
                divides(c, a1),
                divides(c, b1),
                0 <= a1,
                0 <= b1,
        ;
        assert(a == 0 && b == 0) by (nonlinear_arith)
            requires
                a == g * a1,
                b == g * b1,
                a1 == 0,
                b1 == 0,
        ;
        assert(gcd(0, 0) == 0);
        assert(false);
    }
    if c >= 2 {
        // a common divisor above one would lift to a common divisor g * c of
        // the original magnitudes, larger than their greatest one
        lemma_gcd_divides(a1, b1);
        let ja = choose|k: int| a1 == #[trigger] (c * k);
        let jb = choose|k: int| b1 == #[trigger] (c * k);
        assert(a == (g * c) * ja && b == (g * c) * jb) by (nonlinear_arith)
            requires
                a == g * a1,
                b == g * b1,
                a1 == c * ja,
                b1 == c * jb,
        ;
        assert(divides(g * c, a));
        assert(divides(g * c, b));
        assert(1 <= g * c) by (nonlinear_arith)
            requires
                1 <= g,
                2 <= c,
        ;
        lemma_gcd_greatest(g * c, a, b);
        lemma_divides_le(g * c, g);
        assert(false) by (nonlinear_arith)
            requires
                g * c <= g,
                1 <= g,
                2 <= c,
        ;
    }
}

/// Euclid's algorithm on non-negative machine integers.
fn gcd_i64(a: i64, b: i64) -> (g: i64)
    requires
        0 <= a,
        0 <= b,
    ensures
        g == gcd(a as int, b as int),
        0 <= g,
{
    let mut x: i64 = a;
    let mut y: i64 = b;
    while y != 0
        invariant
            0 <= x,
            0 <= y,
            gcd(x as int, y as int) == gcd(a as int, b as int),
        decreases y,
    {
        let t: i64 = x % y;
        x = y;
        y = t;
    }
    x
}

/// Reduces the fraction `num / den` to lowest terms, keeping both parts of the
/// result within the magnitude bound `max`.
///
/// When the fraction in lowest terms fits within the bound, the result is that
/// exact reduction (sign carried by the numerator, denominator non-negative)
/// and the flag is `true`. Otherwise the search for an exact common divisor is
/// capped: the continued-fraction convergents of the fraction are followed
/// until one would overshoot the bound, the best bounded candidate is kept,
/// and the flag is `false`. The bound guarantees termination and a bounded
/// result whatever the input ratio.
pub fn reduce(num: i64, den: i64, max: i64) -> (r: (Rational, bool))
    requires
        1 <= max <= i32::MAX as i64,
        i64::MIN < num,
        i64::MIN < den,
    ensures
        -max <= r.0.num as int <= max,
        0 <= r.0.den as int <= max,
        r.1 == fits_exactly(num as int, den as int, max as int),
        r.1 ==> r.0.num as int == reduced_num(num as int, den as int),
        r.1 ==> r.0.den as int == reduced_den(num as int, den as int),
{
    let sign: bool = (num < 0) != (den < 0);
    let n0: i64 = if num < 0 {
        -num
    } else {
        num
    };
    let d0: i64 = if den < 0 {
        -den
    } else {
        den
    };
    let g: i64 = gcd_i64(n0, d0);
    if g == 0 {
        // both terms are zero: the zero fraction is already in lowest terms
        return (Rational::new(0, 0), true);
    }
    let n1: i64 = n0 / g;
    let d1: i64 = d0 / g;
    if n1 <= max && d1 <= max {
        let rn: i32 = if sign {
            -(n1 as i32)
        } else {
            n1 as i32
        };
        return (Rational::new(rn, d1 as i32), true);
    }

    // The reduction in lowest terms overshoots the bound: walk the
    // continued-fraction convergents a0, a1 of n1 / d1 until the next one
    // would leave the bound, then keep the best candidate within it.
    let mut nn: i64 = n1;
    let mut dd: i64 = d1;
    let mut a0n: i64 = 0;
    let mut a0d: i64 = 1;
    let mut a1n: i64 = 1;
    let mut a1d: i64 = 0;
    while dd != 0
        invariant_except_break
            1 <= max <= i32::MAX as i64,
            0 <= nn,
            0 <= dd,
            a1n * nn + a0n * dd == n1,
            a1d * nn + a0d * dd == d1,
            0 <= a0n <= max,
            0 <= a0d <= max,
            0 <= a1n <= max,
            0 <= a1d <= max,
            !(a1n == 0 && a1d == 0),
            !(a0n == 0 && a0d == 0),
        ensures
            0 <= a1n <= max,
            0 <= a1d <= max,
        decreases dd,
    {
        let x: i64 = nn / dd;
        let next_den: i64 = nn % dd;
        proof {
            assert(x == nn as int / dd as int);
            assert(next_den == nn as int % dd as int);
            lemma_fundamental_div_mod(nn as int, dd as int);
            assert(0 <= next_den < dd && 0 <= x) by (nonlinear_arith)
                requires
                    next_den == nn as int % dd as int,
                    x == nn as int / dd as int,
                    0 <= nn,
                    1 <= dd,
            ;
            assert(x * a1n + a0n <= n1 && x * a1d + a0d <= d1 && 0 <= x * a1n && 0 <= x * a1d)
                by (nonlinear_arith)
                requires
                    1 <= dd,
                    0 <= x,
                    0 <= a0n,
                    0 <= a0d,
                    0 <= a1n,
                    0 <= a1d,
                    nn == dd * x + next_den,
                    0 <= next_den,
                    a1n * nn + a0n * dd == n1,
                    a1d * nn + a0d * dd == d1,
            ;
        }
        let a2n: i64 = x * a1n + a0n;
        let a2d: i64 = x * a1d + a0d;
        if a2n > max || a2d > max {
            // the next convergent leaves the bound: clamp its coefficient so
            // the candidate stays inside, keep it only if it comes closer to
            // nn / dd than a1 does, and stop
            let mut xx: i64 = x;
            if a1n != 0 {
                xx = (max - a0n) / a1n;
            }
            if a1d != 0 {
                let other: i64 = (max - a0d) / a1d;
                if other < xx {
                    xx = other;
                }
            }
            proof {
                assert(0 <= xx <= max && 0 <= xx * a1n && xx * a1n + a0n <= max && 0 <= xx * a1d
                    && xx * a1d + a0d <= max) by (nonlinear_arith)
                    requires
                        1 <= max,
                        0 <= x,
                        0 <= a0n <= max,
                        0 <= a0d <= max,
                        0 <= a1n <= max,
                        0 <= a1d <= max,
                        (xx == x && 0 <= x) || (a1n != 0 && xx == (max - a0n) as int / a1n as int)
                            || (a1d != 0 && xx == (max - a0d) as int / a1d as int),
                        a1n != 0 ==> xx <= (max - a0n) as int / a1n as int,
                        a1d != 0 ==> xx <= (max - a0d) as int / a1d as int,
                        a1n != 0 || a1d != 0,
                ;
            }
            let cn: i64 = xx * a1n + a0n;
            let cd: i64 = xx * a1d + a0d;
            proof {
                assert(0 <= 2 * (xx as int) * (a1d as int) + (a0d as int)
                    < 0x8000_0000_0000_0000 && 0 <= (dd as int) * (2 * (xx as int) * (a1d as int)
                    + (a0d as int)) < i128::MAX && 0 <= (nn as int) * (a1d as int) < i128::MAX)
                    by (nonlinear_arith)
                    requires
                        0 <= xx < 0x8000_0000,
                        0 <= a1d < 0x8000_0000,
                        0 <= a0d < 0x8000_0000,
                        1 <= dd < 0x8000_0000_0000_0000,
                        0 <= nn < 0x8000_0000_0000_0000,
                ;
            }
            // decided on the fraction itself, in wide arithmetic so the
            // comparison cannot overflow
            if (dd as i128) * (2 * (xx as i128) * (a1d as i128) + (a0d as i128)) > (nn as i128) * (
            a1d as i128) {
                a1n = cn;
                a1d = cd;
            }
            break;
        }
        proof {
            assert(a2n * dd + a1n * next_den == n1 && a2d * dd + a1d * next_den == d1 && !(a2n == 0
                && a2d == 0)) by (nonlinear_arith)
                requires
                    a2n == x * a1n + a0n,
                    a2d == x * a1d + a0d,
                    nn == dd * x + next_den,
                    0 <= next_den,
                    0 <= x,
                    0 <= a0n,
                    0 <= a0d,
                    0 <= a1n,
                    0 <= a1d,
                    !(a0n == 0 && a0d == 0),
                    a1n * nn + a0n * dd == n1,
                    a1d * nn + a0d * dd == d1,
            ;
        }
        a0n = a1n;
        a0d = a1d;
        a1n = a2n;
        a1d = a2d;
        nn = dd;
        dd = next_den;
    }
    let rn: i32 = if sign {
        -(a1n as i32)
    } else {
        a1n as i32
    };
    (Rational::new(rn, a1d as i32), false)
}

} // verus!
