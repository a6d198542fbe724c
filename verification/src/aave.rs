//! Aave integration (simulated 4% APY): interest and APY in decimal
//! arithmetic from `rust_decimal`, which the library calls through the
//! trusted wrappers below.

use vstd::prelude::*;
use vstd::arithmetic::power::pow;
use rust_decimal::Decimal;
use rust_decimal::prelude::ToPrimitive;

verus! {

/// A decimal number `(-1)^negative * (hi * 2^64 + mid * 2^32 + lo) / 10^scale`,
/// in the component form in which `rust_decimal` takes apart and builds its
/// `Decimal` values.
#[derive(Clone, Copy, Debug, PartialEq, Eq, Structural)]
pub struct DecimalParts {
    pub negative: bool,
    pub scale: u32,
    pub hi: u32,
    pub mid: u32,
    pub lo: u32,
}

impl DecimalParts {
    /// The 96-bit integer coefficient.
    pub open spec fn magnitude(self) -> int {
        self.hi * 0x1_0000_0000_0000_0000 + self.mid * 0x1_0000_0000 + self.lo
    }

    /// The largest scale a `Decimal` can have.
    pub open spec fn scale_ok(self) -> bool {
        self.scale <= 28
    }

    /// The integer part of the value's magnitude.
    pub open spec fn whole_magnitude(self) -> int {
        self.magnitude() / pow(10, self.scale as nat)
    }
}

/// The parts of the `Decimal` that `rust_decimal` builds from a `u64`:
/// positive, scale 0, coefficient `n`.
pub open spec fn decimal_of_u64(n: int) -> DecimalParts {
    DecimalParts {
        negative: false,
        scale: 0,
        hi: 0,
        mid: (n / 0x1_0000_0000) as u32,
        lo: (n % 0x1_0000_0000) as u32,
    }
}

/// What `rust_decimal`'s `Decimal::checked_mul` returns for two decimals.
pub uninterp spec fn decimal_product(a: DecimalParts, b: DecimalParts) -> Option<DecimalParts>;

/// What `rust_decimal`'s `Decimal::checked_div` returns for two decimals.
pub uninterp spec fn decimal_quotient(a: DecimalParts, b: DecimalParts) -> Option<DecimalParts>;

/// `Decimal::from(u64)` (`FromPrimitive::from_u64`): the decimal with flags 0
/// (positive, scale 0), `lo` the low and `mid` the high 32 bits of `n`.
#[verifier::external_body]
fn decimal_from_u64(n: u64) -> (r: DecimalParts)
    ensures
        r == decimal_of_u64(n as int),
{
    let u = Decimal::from(n).unpack();
    DecimalParts { negative: u.negative, scale: u.scale, hi: u.hi, mid: u.mid, lo: u.lo }
}

/// `Decimal::checked_mul` on the decimals built from the parts
/// (`Decimal::from_parts`, which panics on a scale above 28). Its result is
/// named, not stated; every `Decimal` it returns has a scale of at most 28.
#[verifier::external_body]
fn decimal_checked_mul(a: DecimalParts, b: DecimalParts) -> (r: Option<DecimalParts>)
    requires
        a.scale_ok(),
        b.scale_ok(),
    ensures
        r == decimal_product(a, b),
        r matches Some(d) ==> d.scale_ok(),
{
    let x = Decimal::from_parts(a.lo, a.mid, a.hi, a.negative, a.scale);
    let y = Decimal::from_parts(b.lo, b.mid, b.hi, b.negative, b.scale);
    x.checked_mul(y).map(|z| z.unpack()).map(|u| DecimalParts { negative: u.negative, scale: u.scale, hi: u.hi, mid: u.mid, lo: u.lo })
}

/// `Decimal::checked_div` on the decimals built from the parts. Its result is
/// named, not stated; every `Decimal` it returns has a scale of at most 28.
#[verifier::external_body]
fn decimal_checked_div(a: DecimalParts, b: DecimalParts) -> (r: Option<DecimalParts>)
    requires
        a.scale_ok(),
        b.scale_ok(),
    ensures
        r == decimal_quotient(a, b),
        r matches Some(d) ==> d.scale_ok(),
{
    let x = Decimal::from_parts(a.lo, a.mid, a.hi, a.negative, a.scale);
    let y = Decimal::from_parts(b.lo, b.mid, b.hi, b.negative, b.scale);
    x.checked_div(y).map(|z| z.unpack()).map(|u| DecimalParts { negative: u.negative, scale: u.scale, hi: u.hi, mid: u.mid, lo: u.lo })
}

/// `Decimal::trunc`: drops the fractional digits without rounding, giving
/// scale 0 and coefficient `magnitude / 10^scale`, and keeps the sign of the
/// decimal built from the parts (`from_parts` clears the sign of a zero).
#[verifier::external_body]
fn decimal_trunc(d: DecimalParts) -> (r: DecimalParts)
    requires
        d.scale_ok(),
    ensures
        r.scale == 0,
        r.magnitude() == d.whole_magnitude(),
        r.negative == (d.negative && d.magnitude() != 0),
{
    let x = Decimal::from_parts(d.lo, d.mid, d.hi, d.negative, d.scale);
    let u = x.trunc().unpack();
    DecimalParts { negative: u.negative, scale: u.scale, hi: u.hi, mid: u.mid, lo: u.lo }
}

/// `ToPrimitive::to_u64` for `Decimal`: `None` for a negative decimal (a zero
/// built by `from_parts` is never negative) or one whose integer part
/// leaves `u64`; otherwise the integer part.
#[verifier::external_body]
fn decimal_to_u64(d: DecimalParts) -> (r: Option<u64>)
    requires
        d.scale_ok(),
    ensures
        r == (if (d.negative && d.magnitude() != 0) || d.whole_magnitude() > u64::MAX {
            None
        } else {
            Some(d.whole_magnitude() as u64)
        }),
{
    let x = Decimal::from_parts(d.lo, d.mid, d.hi, d.negative, d.scale);
    x.to_u64()
}

/// Errors of the Aave integration.
#[derive(Clone, Copy, Debug, PartialEq, Eq, Structural)]
pub enum AaveError {
    /// Aave integration error.
    AaveIntegrationError,
    /// Invalid timestamp.
    InvalidTimestamp,
}

/// Validate a USDC amount for an Aave deposit: every amount is accepted.
pub fn validate_aave_deposit(amount: u64) -> (r: Result<(), AaveError>)
    ensures
        r is Ok,
{
    Ok(())
}

/// `principal * 4 / 100 * days / 365` as `rust_decimal` computes it, step by
/// step, or `None` when a step fails.
pub open spec fn aave_interest_decimal(principal: u64, days_elapsed: u64) -> Option<DecimalParts> {
    match decimal_product(decimal_of_u64(principal as int), decimal_of_u64(4)) {
        None => None,
        Some(a) => match decimal_quotient(a, decimal_of_u64(100)) {
            None => None,
            Some(b) => match decimal_product(b, decimal_of_u64(days_elapsed as int)) {
                None => None,
                Some(c) => decimal_quotient(c, decimal_of_u64(365)),
            },
        },
    }
}

/// The whole units of a decimal amount: its integer part (toward zero) when
/// that is not negative and fits `u64`; `None` otherwise.
pub open spec fn whole_units(d: DecimalParts) -> Option<u64> {
    if (d.negative && d.whole_magnitude() != 0) || d.whole_magnitude() > u64::MAX {
        None
    } else {
        Some(d.whole_magnitude() as u64)
    }
}

/// The whole USDC units of a computed decimal interest: its truncated integer
/// part; refused as an integration error when that is negative or leaves
/// `u64`, rather than reported as a wrong amount.
pub fn interest_whole_units(interest: DecimalParts) -> (r: Result<u64, AaveError>)
    requires
        interest.scale_ok(),
    ensures
        r == (match whole_units(interest) {
            Some(v) => Ok::<u64, AaveError>(v),
            None => Err(AaveError::AaveIntegrationError),
        }),
{
    let truncated = decimal_trunc(interest);
    proof {
        vstd::arithmetic::power::lemma_pow0(10);
        assert(truncated.whole_magnitude() == truncated.magnitude());
        vstd::arithmetic::power::lemma_pow_positive(10, interest.scale as nat);
        if interest.magnitude() == 0 {
            assert(interest.whole_magnitude() == 0);
        }
    }
    match decimal_to_u64(truncated) {
        Some(v) => Ok(v),
        None => Err(AaveError::AaveIntegrationError),
    }
}

/// The interest on `principal` over `days_elapsed` days: 0 when either is
/// 0; otherwise the whole units of the decimal interest, or an integration
/// error when a decimal step fails or the result does not fit `u64`.
pub open spec fn aave_interest(principal: u64, days_elapsed: u64) -> Result<u64, AaveError> {
    if days_elapsed == 0 || principal == 0 {
        Ok(0)
    } else {
        match aave_interest_decimal(principal, days_elapsed) {
            Some(d) => match whole_units(d) {
                Some(v) => Ok(v),
                None => Err(AaveError::AaveIntegrationError),
            },
            None => Err(AaveError::AaveIntegrationError),
        }
    }
}

/// Calculate interest earned from Aave (simulated 4% APY):
/// `principal * 0.04 * days / 365`, truncated to whole units; an interest
/// that does not fit `u64` is refused.
pub fn calculate_aave_interest(principal: u64, days_elapsed: u64) -> (r: Result<u64, AaveError>)
    ensures
        r == aave_interest(principal, days_elapsed),
{
    if days_elapsed == 0 || principal == 0 {
        return Ok(0);
    }
    let principal_decimal = decimal_from_u64(principal);
    let days_decimal = decimal_from_u64(days_elapsed);
    let days_per_year = decimal_from_u64(365);
    let annual_rate = decimal_from_u64(4);
    let hundred = decimal_from_u64(100);
    let a = match decimal_checked_mul(principal_decimal, annual_rate) {
        Some(v) => v,
        None => return Err(AaveError::AaveIntegrationError),
    };
    let b = match decimal_checked_div(a, hundred) {
        Some(v) => v,
        None => return Err(AaveError::AaveIntegrationError),
    };
    let c = match decimal_checked_mul(b, days_decimal) {
        Some(v) => v,
        None => return Err(AaveError::AaveIntegrationError),
    };
    let interest = match decimal_checked_div(c, days_per_year) {
        Some(v) => v,
        None => return Err(AaveError::AaveIntegrationError),
    };
    interest_whole_units(interest)
}

/// `interest / principal * 365 / days * 100` as `rust_decimal` computes it,
/// step by step, or `None` when a step fails.
pub open spec fn apy_decimal(principal: u64, interest: u64, days_elapsed: u64) -> Option<DecimalParts> {
    match decimal_quotient(decimal_of_u64(interest as int), decimal_of_u64(principal as int)) {
        None => None,
        Some(a) => match decimal_product(a, decimal_of_u64(365)) {
            None => None,
            Some(b) => match decimal_quotient(b, decimal_of_u64(days_elapsed as int)) {
                None => None,
                Some(c) => decimal_product(c, decimal_of_u64(100)),
            },
        },
    }
}

/// Calculate the APY (in percent) from the interest earned:
/// `(interest / principal) * (365 / days_elapsed) * 100`.
pub fn calculate_apy(principal: u64, interest: u64, days_elapsed: u64) -> (r: Result<DecimalParts, AaveError>)
    ensures
        r == (match apy_decimal(principal, interest, days_elapsed) {
            Some(d) => Ok::<DecimalParts, AaveError>(d),
            None => Err(AaveError::AaveIntegrationError),
        }),
{
    let principal_decimal = decimal_from_u64(principal);
    let interest_decimal = decimal_from_u64(interest);
    let days_decimal = decimal_from_u64(days_elapsed);
    let days_per_year = decimal_from_u64(365);
    let hundred = decimal_from_u64(100);
    let a = match decimal_checked_div(interest_decimal, principal_decimal) {
        Some(v) => v,
        None => return Err(AaveError::AaveIntegrationError),
    };
    let b = match decimal_checked_mul(a, days_per_year) {
        Some(v) => v,
        None => return Err(AaveError::AaveIntegrationError),
    };
    let c = match decimal_checked_div(b, days_decimal) {
        Some(v) => v,
        None => return Err(AaveError::AaveIntegrationError),
    };
    match decimal_checked_mul(c, hundred) {
        Some(v) => Ok(v),
        None => Err(AaveError::AaveIntegrationError),
    }
}

/// Simulated USDC deposit to Aave: validates the amount, which always passes.
pub fn deposit_usdc_to_aave(amount: u64) -> (r: Result<(), AaveError>)
    ensures
        r is Ok,
{
    validate_aave_deposit(amount)?;
    Ok(())
}

/// Division rounding toward zero, as Rust's `/` on signed integers does.
pub open spec fn trunc_div(x: int, d: int) -> int {
    if x >= 0 {
        x / d
    } else {
        -((-x) / d)
    }
}

/// Whole days between two timestamps as the claim computes them: the
/// difference divided by 86400 rounding toward zero, taken as a `u64`
/// (a negative count wraps around).
pub open spec fn claim_days(last_claim: int, now: int) -> u64 {
    trunc_div(now - last_claim, 86_400) as u64
}

/// Simulated claim of Aave yields: the interest on `principal` for the whole
/// days since `last_claim`.
pub fn claim_aave_yields(principal: u64, last_claim: i64, now: i64) -> (r: Result<u64, AaveError>)
    requires
        i64::MIN <= now - last_claim <= i64::MAX,
    ensures
        r == aave_interest(principal, claim_days(last_claim as int, now as int)),
{
    let days_elapsed = ((now - last_claim) / 86_400) as u64;
    calculate_aave_interest(principal, days_elapsed)
}

} // verus!
