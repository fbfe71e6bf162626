//! Exact fixed-point shares of 128-bit quantities.
use vstd::prelude::*;

verus! {

/// `part / whole` as a fixed-point share scaled so that `scale` is 100%,
/// rounded down; an empty whole gives zero.
pub open spec fn scaled_share(part: int, whole: int, scale: int) -> int {
    if whole <= 0 {
        0
    } else {
        part * scale / whole
    }
}

/// Binary long division computing `a * b / c` and `a * b % c` without
/// forming the product.
fn mul_div_rem(a: u128, b: u32, c: u128) -> (res: (u128, u128))
    requires
        0 < c,
        a <= c,
        c <= i128::MAX,
    ensures
        res.0 * c + res.1 == a * b,
        res.1 < c,
        res.0 <= b,
    decreases b,
{
    if b == 0 {
        assert(a * b == 0) by (nonlinear_arith)
            requires
                b == 0,
        ;
        (0, 0)
    } else {
        let half = b / 2;
        let bit = b % 2;
        let (q, r) = mul_div_rem(a, half, c);
        assert(a * b == 2 * (a * half) + a * bit) by (nonlinear_arith)
            requires
                b == 2 * half + bit,
        ;
        let mut q2: u128 = q * 2;
        let mut r2: u128 = r * 2;
        let ghost mut carried: int = 0;
        if r2 >= c {
            r2 = r2 - c;
            q2 = q2 + 1;
            proof {
                carried = 1;
            }
        }
        if bit == 1 {
            r2 = r2 + a;
            if r2 >= c {
                r2 = r2 - c;
                q2 = q2 + 1;
                proof {
                    carried = carried + 1;
                }
            }
        }
        let ghost added: int = if bit == 1 { a as int } else { 0 };
        assert(a * bit == added) by (nonlinear_arith)
            requires
                bit == 0 || bit == 1,
                bit == 1 ==> added == a,
                bit == 0 ==> added == 0,
        ;
        assert(r2 == 2 * r + added - carried * c);
        assert(q2 * c + r2 == 2 * (q * c) + 2 * r + a * bit) by (nonlinear_arith)
            requires
                q2 == 2 * q + carried,
                r2 == 2 * r + added - carried * c,
                a * bit == added,
        ;
        assert(q2 * c + r2 == a * b) by (nonlinear_arith)
            requires
                q * c + r == a * half,
                a * b == 2 * (a * half) + a * bit,
                q2 * c + r2 == 2 * (q * c) + 2 * r + a * bit,
        ;
        assert(q2 <= b) by (nonlinear_arith)
            requires
                q2 * c + r2 == a * b,
                0 <= r2,
                0 < c,
                a <= c,
                0 <= a,
                0 <= b,
        ;
        (q2, r2)
    }
}

/// The share `part / whole` scaled so that `scale` is 100%, rounded down.
pub fn share_of(part: i128, whole: i128, scale: u16) -> (r: u16)
    requires
        0 <= part <= whole,
    ensures
        r == scaled_share(part as int, whole as int, scale as int),
{
    if whole == 0 {
        0
    } else {
        let (q, rem) = mul_div_rem(part as u128, scale as u32, whole as u128);
        let ghost (pi, si, wi) = (part as int, scale as int, whole as int);
        assert(q == (pi * si) / wi) by (nonlinear_arith)
            requires
                q * wi + rem == pi * si,
                0 <= rem < wi,
        ;
        q as u16
    }
}

} // verus!
