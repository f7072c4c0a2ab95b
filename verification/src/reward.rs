//! Yield and loyalty arithmetic, exact and in integers.
//!
//! A rate is an annual percentage. Yield accrues per second and is rounded
//! down to a whole unit; a year has 365 days.

use vstd::prelude::*;
use vstd::arithmetic::div_mod::{lemma_div_multiples_vanish_quotient, lemma_hoist_over_denominator};
use vstd::arithmetic::mul::lemma_mul_upper_bound;
use crate::error::PrimitiveError;
use crate::state::{valid_tier, Fund, User};

verus! {

pub const SECONDS_PER_DAY: u64 = 86_400;

/// A year of 365 days.
pub const SECONDS_PER_YEAR: u64 = 31_536_000;

/// One percent per year, per second: the divisor `100 * 365 * 86_400`.
pub const PERCENT_YEAR_SECONDS: u64 = 3_153_600_000;

/// Units of stake that earn one loyalty point.
pub const STAKE_PER_POINT: u64 = 1_000_000;

/// Loyalty points for each full day a stake has been held.
pub const POINTS_PER_DAY: u64 = 10;

/// Units of claimed yield that earn one loyalty point.
pub const YIELD_PER_POINT: u64 = 1_000;

/// Seconds from `since` to `now`; none if the clock has run backwards.
pub open spec fn elapsed_seconds(since: i64, now: i64) -> nat {
    if now > since {
        (now - since) as nat
    } else {
        0
    }
}

/// What `stake` units earn at `apy` percent a year over `elapsed` seconds,
/// rounded down.
pub open spec fn accrued(stake: u64, apy: u16, elapsed: nat) -> nat {
    ((stake as nat) * (apy as nat) * elapsed) / (PERCENT_YEAR_SECONDS as nat)
}

/// `amount` where it fits into 64 bits, else the largest such value.
pub open spec fn capped(amount: nat) -> u64 {
    if amount <= u64::MAX {
        amount as u64
    } else {
        u64::MAX
    }
}

/// The yield that `user` has earned in `fund` since the last claim, where the
/// position's tier is one of the fund's three.
pub open spec fn yield_due(user: User, fund: Fund, now: i64) -> Option<u64> {
    match fund.apy_of(user.tier) {
        Some(apy) => Some(
            capped(accrued(user.current_stake, apy, elapsed_seconds(user.last_claim, now))),
        ),
        None => None,
    }
}

/// The loyalty score of a stake of `amount` made at `staked_at`, seen at
/// `now`: ten points for each full day held and one for each million staked.
pub open spec fn loyalty_points(staked_at: i64, amount: u64, now: i64) -> nat {
    (elapsed_seconds(staked_at, now) / (SECONDS_PER_DAY as nat)) * (POINTS_PER_DAY as nat) + (amount
        as nat) / (STAKE_PER_POINT as nat)
}

/// No yield accrues while no time passes: seen at a second that is not after
/// the last claim, a position of a valid tier has earned exactly nothing.
pub proof fn nothing_accrues_in_no_time(user: User, fund: Fund, now: i64)
    requires
        now <= user.last_claim,
        fund.apy_of(user.tier).is_some(),
    ensures
        yield_due(user, fund, now) == Some(0u64),
{
    let apy = fund.apy_of(user.tier).unwrap();
    assert((user.current_stake as nat) * (apy as nat) * 0 == 0) by (nonlinear_arith);
}

/// A full year pays the annual rate: `apy` percent of the stake, rounded
/// down.
pub proof fn a_year_pays_the_annual_rate(stake: u64, apy: u16)
    ensures
        accrued(stake, apy, SECONDS_PER_YEAR as nat) == ((stake as nat) * (apy as nat)) / 100,
{
    let weight = (stake as int) * (apy as int);
    assert(0 <= weight) by (nonlinear_arith)
        requires
            weight == (stake as int) * (apy as int),
    ;
    lemma_div_multiples_vanish_quotient(SECONDS_PER_YEAR as int, weight, 100);
    assert(weight * (SECONDS_PER_YEAR as int) == (SECONDS_PER_YEAR as int) * weight)
        by (nonlinear_arith);
}

/// Seconds from `since` to `now`, 0 if `now` is not later.
pub fn seconds_between(since: i64, now: i64) -> (elapsed: u64)
    ensures
        elapsed == elapsed_seconds(since, now),
{
    if now > since {
        let wide: i128 = now as i128 - since as i128;
        wide as u64
    } else {
        0
    }
}

/// The loyalty score of `user` for a stake of `amount`, by the time the
/// position has been held at `now`.
pub fn calculate_loyalty_score(user: &User, amount: u64, now: i64) -> (score: u64)
    ensures
        score == loyalty_points(user.staked_at, amount, now),
{
    let days: u64 = seconds_between(user.staked_at, now) / SECONDS_PER_DAY;
    let amount_factor: u64 = amount / STAKE_PER_POINT;
    days * POINTS_PER_DAY + amount_factor
}

/// The yield that `user` has earned in `fund` since the last claim.
///
/// Fails with `InvalidTier` exactly where the position's tier is none of the
/// three. A yield beyond 64 bits is paid as `u64::MAX`.
pub fn calculate_yield(user: &User, fund: &Fund, now: i64) -> (result: Result<u64, PrimitiveError>)
    ensures
        match result {
            Ok(amount) => yield_due(*user, *fund, now) == Some(amount),
            Err(e) => e == PrimitiveError::InvalidTier && yield_due(*user, *fund, now).is_none(),
        },
        result.is_ok() <==> valid_tier(user.tier),
{
    let apy: u16 = match user.tier {
        1 => fund.tier1_apy,
        2 => fund.tier2_apy,
        3 => fund.tier3_apy,
        _ => { return Err(PrimitiveError::InvalidTier); },
    };
    let elapsed: u64 = seconds_between(user.last_claim, now);
    Ok(accrue(user.current_stake, apy, elapsed))
}

/// `stake * apy * elapsed / PERCENT_YEAR_SECONDS`, rounded down and capped at
/// `u64::MAX`, computed without leaving 128 bits.
pub fn accrue(stake: u64, apy: u16, elapsed: u64) -> (amount: u64)
    ensures
        amount == capped(accrued(stake, apy, elapsed as nat)),
{
    let year: u128 = PERCENT_YEAR_SECONDS as u128;
    proof {
        lemma_mul_upper_bound(stake as int, u64::MAX as int, apy as int, u16::MAX as int);
    }
    let weight: u128 = stake as u128 * apy as u128;
    let whole: u128 = elapsed as u128 / year;
    let rest: u128 = elapsed as u128 % year;
    proof {
        lemma_mul_upper_bound(weight as int, 0x1_0000_0000_0000_0000_0000, whole as int, 0x2_0000_0000);
        lemma_mul_upper_bound(weight as int, 0x1_0000_0000_0000_0000_0000, rest as int, 0x1_0000_0000);
    }
    let total: u128 = weight * whole + (weight * rest) / year;
    proof {
        let w = weight as int;
        let y = year as int;
        assert(w * (elapsed as int) == w * (rest as int) + (w * (whole as int)) * y)
            by (nonlinear_arith)
            requires
                elapsed as int == (whole as int) * y + (rest as int),
        ;
        lemma_hoist_over_denominator(w * (rest as int), w * (whole as int), year as nat);
    }
    if total > u64::MAX as u128 {
        u64::MAX
    } else {
        total as u64
    }
}

} // verus!
