//! Saturating integer helpers and the specifications they meet.

use vstd::prelude::*;

verus! {

/// `x` clamped to the range of `u64` (the meaning of a saturating `u64` operation).
pub open spec fn sat_u64(x: int) -> int {
    if x > u64::MAX {
        u64::MAX as int
    } else if x < 0 {
        0
    } else {
        x
    }
}

/// `x` clamped to the range of `u128`.
pub open spec fn sat_u128(x: int) -> int {
    if x > u128::MAX {
        u128::MAX as int
    } else if x < 0 {
        0
    } else {
        x
    }
}

/// `a * b`, saturating at `u64::MAX`.
pub fn saturating_mul_u64(a: u64, b: u64) -> (r: u64)
    ensures
        r == sat_u64(a * b),
{
    match a.checked_mul(b) {
        Some(v) => v,
        None => u64::MAX,
    }
}

/// `a * b`, saturating at `u128::MAX`.
pub fn saturating_mul_u128(a: u128, b: u128) -> (r: u128)
    ensures
        r == sat_u128(a * b),
{
    match a.checked_mul(b) {
        Some(v) => v,
        None => u128::MAX,
    }
}

/// `amount * bps / 10000`, the product saturating at `u64::MAX`.
pub open spec fn bps_of(amount: int, bps: int) -> int {
    sat_u64(amount * bps) / 10_000
}

/// `amount * bps / 10000` (a basis-point share of `amount`), the product
/// saturating at `u64::MAX`.
pub fn apply_bps(amount: u64, bps: u64) -> (r: u64)
    ensures
        r == bps_of(amount as int, bps as int),
{
    saturating_mul_u64(amount, bps) / 10_000
}

/// `amount * bps / 10000` with the product taken exactly, the result capped
/// at `u64::MAX`.
pub open spec fn exact_bps_of(amount: int, bps: int) -> int {
    sat_u64(amount * bps / 10_000)
}

/// `amount * bps / 10000` computed in 128 bits, so that the product never
/// saturates; the result is capped at `u64::MAX`.
pub fn apply_bps_exact(amount: u64, bps: u64) -> (r: u64)
    ensures
        r == exact_bps_of(amount as int, bps as int),
{
    let a = amount as u128;
    let b = bps as u128;
    assert(a * b <= u64::MAX * u64::MAX) by (nonlinear_arith)
        requires
            a <= u64::MAX,
            b <= u64::MAX,
    ;
    let share = a * b / 10_000;
    if share > u64::MAX as u128 {
        u64::MAX
    } else {
        share as u64
    }
}

/// `x` clamped to the range of `i64`.
pub open spec fn sat_i64(x: int) -> int {
    if x > i64::MAX {
        i64::MAX as int
    } else if x < i64::MIN {
        i64::MIN as int
    } else {
        x
    }
}

/// `a - b`, saturating at the bounds of `i64`.
pub fn saturating_sub_i64(a: i64, b: i64) -> (r: i64)
    ensures
        r == sat_i64(a - b),
{
    match a.checked_sub(b) {
        Some(v) => v,
        None => if b < 0 {
            i64::MAX
        } else {
            i64::MIN
        },
    }
}

/// `a + b`, saturating at the bounds of `i64`.
pub fn saturating_add_i64(a: i64, b: i64) -> (r: i64)
    ensures
        r == sat_i64(a + b),
{
    match a.checked_add(b) {
        Some(v) => v,
        None => if b < 0 {
            i64::MIN
        } else {
            i64::MAX
        },
    }
}

} // verus!
