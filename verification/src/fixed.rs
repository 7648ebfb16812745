//! Fixed-point arithmetic on millionths.

use vstd::prelude::*;

verus! {

/// Number of steps in one whole: a time of `UNIT` is one second, a multiplier of
/// `UNIT` leaves a value unchanged.
pub const UNIT: i64 = 1_000_000;

/// Product of two fixed-point values, rounded down to a whole step.
pub open spec fn spec_scale(a: int, b: int) -> int {
    (a * b) / (UNIT as int)
}

/// Distance between two points in time.
pub open spec fn spec_abs_diff(a: u64, b: u64) -> u64 {
    if a >= b {
        (a - b) as u64
    } else {
        (b - a) as u64
    }
}

/// Distance between two points in time, whichever came first.
pub fn abs_diff(a: u64, b: u64) -> (d: u64)
    ensures
        d == spec_abs_diff(a, b),
{
    if a >= b {
        a - b
    } else {
        b - a
    }
}

/// Quotient of `p` by [`UNIT`], rounded towards negative infinity.
fn floor_units(p: i128) -> (q: i128)
    requires
        p > i128::MIN,
    ensures
        q == (p as int) / (UNIT as int),
{
    if p >= 0 {
        p / 1_000_000
    } else {
        let n: i128 = -p;
        let whole: i128 = n / 1_000_000;
        let rest: i128 = n % 1_000_000;
        assert(n == 1_000_000 * whole + rest && 0 <= rest < 1_000_000) by (nonlinear_arith)
            requires
                n >= 0,
                whole == n / 1_000_000,
                rest == n % 1_000_000,
        ;
        if rest == 0 {
            assert(p / 1_000_000 == -whole) by (nonlinear_arith)
                requires
                    p == 1_000_000 * (-whole),
            ;
            -whole
        } else {
            assert(p / 1_000_000 == -whole - 1) by (nonlinear_arith)
                requires
                    p == 1_000_000 * (-whole - 1) + (1_000_000 - rest),
                    0 < rest < 1_000_000,
            ;
            -whole - 1
        }
    }
}

/// Product of two fixed-point values in millionths, rounded down.
pub fn scale(a: i64, b: i64) -> (r: i128)
    ensures
        r == spec_scale(a as int, b as int),
{
    assert(-0x4000_0000_0000_0000_0000_0000_0000_0000 <= a * b
        <= 0x4000_0000_0000_0000_0000_0000_0000_0000) by (nonlinear_arith)
        requires
            -0x8000_0000_0000_0000 <= a <= 0x7fff_ffff_ffff_ffff,
            -0x8000_0000_0000_0000 <= b <= 0x7fff_ffff_ffff_ffff,
    ;
    let p: i128 = (a as i128) * (b as i128);
    floor_units(p)
}

} // verus!
