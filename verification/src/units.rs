//! Fixed-point scales and the integer arithmetic the engine is built on.
//!
//! | quantity                         | type  | unit                         |
//! |----------------------------------|-------|------------------------------|
//! | price, spread                    | `i64` | millionths of a currency unit per kWh |
//! | state of charge, percentile      | `u32` | thousandths of a percent     |
//! | efficiency, power factor         | `u32` | millionths (1.0 = 1_000_000) |
//! | power, setpoint                  | `u32`, `i32`, `i64` | watts          |
//! | capacity                         | `u32` | watt-hours                   |
//! | instants                         | `i64` | seconds since the Unix epoch |

use vstd::prelude::*;
use vstd::arithmetic::div_mod::lemma_fundamental_div_mod;
use vstd::arithmetic::div_mod::lemma_fundamental_div_mod_converse;

verus! {

/// Millionths in one: the scale of prices, efficiency and the power factor.
pub const MICROS: u32 = 1_000_000;

/// Thousandths of a percent in one percent.
pub const PERCENT: u32 = 1_000;

/// Thousandths of a percent in the whole: the scale of a state of charge
/// and of a percentile.
pub const FULL_SCALE: u32 = 100_000;

/// Length of one pricing slot in seconds.
pub const SLOT_SECONDS: i64 = 900;

/// `n / d` rounded up, for a positive divisor.
pub open spec fn ceil_div(n: int, d: int) -> int
    recommends
        d > 0,
{
    (n + d - 1) / d
}

/// `n / d` rounded toward zero, for a positive divisor.
pub open spec fn trunc_div(n: int, d: int) -> int
    recommends
        d > 0,
{
    if n >= 0 {
        n / d
    } else {
        -((-n) / d)
    }
}

/// The number of whole steps needed to cover `n / d`, as a count that
/// saturates at `usize::MAX`. Nothing is needed for `n <= 0`; a positive
/// amount that no step advances (`d <= 0`) is never covered.
pub open spec fn steps_to_cover(n: int, d: int) -> int {
    if n <= 0 {
        0
    } else if d <= 0 {
        usize::MAX as int
    } else if ceil_div(n, d) > usize::MAX {
        usize::MAX as int
    } else {
        ceil_div(n, d)
    }
}

/// Euclidean quotient of a signed value by a positive divisor.
pub fn floor_div(n: i128, d: i128) -> (q: i128)
    requires
        d > 0,
    ensures
        q == n as int / d as int,
        n >= 0 ==> 0 <= q <= n,
        n < 0 ==> n <= q < 0,
{
    if n >= 0 {
        proof {
            vstd::arithmetic::div_mod::lemma_div_nonincreasing(n as int, d as int);
        }
        n / d
    } else {
        // One less than the magnitude of `n`, which fits where the
        // magnitude itself may not.
        let below: i128 = -(n + 1);
        proof {
            vstd::arithmetic::div_mod::lemma_div_nonincreasing(below as int, d as int);
        }
        let k: i128 = below / d;
        let q: i128 = -k - 1;
        proof {
            // below == d * k + s with 0 <= s < d, so n == d * q + (d - 1 - s).
            lemma_fundamental_div_mod(below as int, d as int);
            let s = (below as int) % (d as int);
            assert(q as int * d as int == -(d as int * k as int) - d as int) by (nonlinear_arith)
                requires
                    q as int == -(k as int) - 1,
            ;
            lemma_fundamental_div_mod_converse(n as int, d as int, q as int, d as int - 1 - s);
        }
        q
    }
}

/// Quotient rounded toward zero of a signed value by a positive divisor.
pub fn trunc_div_exec(n: i128, d: i128) -> (q: i128)
    requires
        d > 0,
    ensures
        q == trunc_div(n as int, d as int),
{
    if n >= 0 {
        n / d
    } else {
        let below: i128 = -(n + 1);
        let k: i128 = below / d;
        let s: i128 = below % d;
        proof {
            // below == d * k + s, and the magnitude of `n` is one more.
            vstd::arithmetic::div_mod::lemma_div_nonincreasing(below as int, d as int);
            lemma_fundamental_div_mod(below as int, d as int);
            assert(d as int * k as int == k as int * d as int) by (nonlinear_arith);
            assert((k as int + 1) * d as int == k as int * d as int + d as int)
                by (nonlinear_arith);
            if s == d - 1 {
                lemma_fundamental_div_mod_converse(-(n as int), d as int, k as int + 1, 0);
            } else {
                lemma_fundamental_div_mod_converse(-(n as int), d as int, k as int, s as int + 1);
            }
        }
        if s == d - 1 {
            -k - 1
        } else {
            -k
        }
    }
}

/// Executable `steps_to_cover`.
pub fn steps_to_cover_exec(n: i128, d: u128) -> (steps: usize)
    ensures
        steps == steps_to_cover(n as int, d as int),
{
    if n <= 0 {
        0
    } else if d == 0 {
        usize::MAX
    } else {
        let whole: u128 = n as u128 / d;
        let rest: u128 = n as u128 % d;
        proof {
            // n == d * whole + rest, so n + d - 1 == d * (whole + 1) + (rest - 1)
            // or, without a rest, d * whole + (d - 1).
            lemma_fundamental_div_mod(n as int, d as int);
            assert(d as int * whole as int == whole as int * d as int) by (nonlinear_arith);
            assert((whole as int + 1) * d as int == whole as int * d as int + d as int)
                by (nonlinear_arith);
            if rest > 0 {
                lemma_fundamental_div_mod_converse(
                    n as int + d as int - 1,
                    d as int,
                    whole as int + 1,
                    rest as int - 1,
                );
            } else {
                lemma_fundamental_div_mod_converse(
                    n as int + d as int - 1,
                    d as int,
                    whole as int,
                    d as int - 1,
                );
            }
        }
        if whole >= usize::MAX as u128 {
            usize::MAX
        } else if rest > 0 {
            (whole + 1) as usize
        } else {
            whole as usize
        }
    }
}

} // verus!
