//! Staking, withdrawing and claiming: the operations that a participant
//! performs on their own position.
//!
//! Each one checks everything before it changes anything, so a refused
//! operation leaves every record as it was. On success it hands back the
//! transfers that the host must carry out; the records it was given already
//! hold the state that is valid once those transfers have gone through.

use vstd::prelude::*;
use anchor_lang::prelude::Pubkey;
use crate::error::PrimitiveError;
use crate::reward::{
    calculate_loyalty_score, calculate_yield, loyalty_points, nothing_accrues_in_no_time, yield_due,
    STAKE_PER_POINT, YIELD_PER_POINT,
};
use crate::state::{valid_tier, Fund, Protocol, User};
use crate::transfer::{deposit_of, payout_of, Transfer, Withdrawal};

verus! {

/// Why a stake of tier `tier` into `fund` is refused, if it is.
pub open spec fn stake_refusal(fund: Fund, tier: u8) -> Option<PrimitiveError> {
    if !valid_tier(tier) {
        Some(PrimitiveError::InvalidTier)
    } else if fund.is_full() {
        Some(PrimitiveError::FundFull)
    } else {
        None
    }
}

/// The position that a stake leaves behind. Nothing of an earlier position
/// survives it.
pub open spec fn position_after_stake(
    wallet: Pubkey,
    fund_id: u64,
    amount: u64,
    tier: u8,
    now: i64,
) -> User {
    User {
        wallet,
        current_stake: amount,
        tier,
        fund_id,
        staked_at: now,
        last_claim: now,
        loyalty_score: loyalty_points(now, amount, now) as u64,
        is_active: true,
    }
}

/// `fund` with one participant and `amount` more.
pub open spec fn fund_after_stake(fund: Fund, amount: u64) -> Fund {
    Fund {
        current_users: (fund.current_users + 1) as u32,
        total_staked: (fund.total_staked + amount) as u64,
        ..fund
    }
}

/// `protocol` with `amount` more staked.
pub open spec fn protocol_after_stake(protocol: Protocol, amount: u64) -> Protocol {
    Protocol { total_staked: (protocol.total_staked + amount) as u64, ..protocol }
}

/// The stake, unless it is refused, can be booked within 64 bits: the fund
/// and the protocol have room for `amount`.
pub open spec fn stake_in_range(protocol: Protocol, fund: Fund, amount: u64, tier: u8) -> bool {
    stake_refusal(fund, tier).is_none() ==> fund.total_staked + amount <= u64::MAX
        && protocol.total_staked + amount <= u64::MAX
}

/// Whether `stake` can be called with these arguments.
pub fn stake_fits(protocol: &Protocol, fund: &Fund, amount: u64, tier: u8) -> (fits: bool)
    ensures
        fits == stake_in_range(*protocol, *fund, amount, tier),
{
    if !(tier >= 1 && tier <= 3) || !(fund.current_users < fund.max_users) {
        true
    } else {
        amount <= u64::MAX - fund.total_staked && amount <= u64::MAX - protocol.total_staked
    }
}

/// Stakes `amount` for `wallet` in `fund`, at tier `tier`.
///
/// Refused with `InvalidTier` unless `tier` is 1, 2 or 3, else with
/// `FundFull` where the fund admits no further participant. Otherwise the
/// position is written anew, the fund counts one participant more, fund and
/// protocol count `amount` more, and the deposit to carry out is returned.
///
/// The totals must have room for `amount`; `stake_fits` tells whether they
/// have.
pub fn stake(
    protocol: &mut Protocol,
    fund: &mut Fund,
    user: &mut User,
    wallet: Pubkey,
    amount: u64,
    tier: u8,
    now: i64,
) -> (result: Result<Transfer, PrimitiveError>)
    requires
        stake_in_range(*old(protocol), *old(fund), amount, tier),
    ensures
        match result {
            Ok(transfer) => {
                &&& stake_refusal(*old(fund), tier).is_none()
                &&& transfer == deposit_of(amount)
                &&& *final(user) == position_after_stake(wallet, old(fund).id, amount, tier, now)
                &&& *final(fund) == fund_after_stake(*old(fund), amount)
                &&& *final(protocol) == protocol_after_stake(*old(protocol), amount)
            },
            Err(e) => {
                &&& stake_refusal(*old(fund), tier) == Some(e)
                &&& *final(user) == *old(user)
                &&& *final(fund) == *old(fund)
                &&& *final(protocol) == *old(protocol)
            },
        },
        !valid_tier(tier) ==> result == Err::<Transfer, PrimitiveError>(PrimitiveError::InvalidTier),
        valid_tier(tier) && old(fund).is_full() ==> result == Err::<Transfer, PrimitiveError>(
            PrimitiveError::FundFull,
        ),
        old(fund).within_capacity() ==> final(fund).within_capacity(),
        result.is_ok() ==> final(user).loyalty_score == amount / STAKE_PER_POINT,
        result.is_ok() && amount > 0 ==> final(user).settled(),
{
    if !(tier >= 1 && tier <= 3) {
        return Err(PrimitiveError::InvalidTier);
    }
    if !(fund.current_users < fund.max_users) {
        return Err(PrimitiveError::FundFull);
    }
    user.wallet = wallet;
    user.current_stake = amount;
    user.tier = tier;
    user.fund_id = fund.id;
    user.staked_at = now;
    user.last_claim = now;
    user.loyalty_score = calculate_loyalty_score(user, amount, now);
    user.is_active = true;

    fund.current_users += 1;
    fund.total_staked += amount;
    protocol.total_staked += amount;

    Ok(Transfer::deposit(amount))
}

/// Why a withdrawal of `amount` from `user`'s position is refused, if it is.
pub open spec fn unstake_refusal(user: User, fund: Fund, amount: u64, now: i64) -> Option<
    PrimitiveError,
> {
    if user.current_stake < amount {
        Some(PrimitiveError::InsufficientStake)
    } else if !user.is_active {
        Some(PrimitiveError::UserNotActive)
    } else if yield_due(user, fund, now).is_none() {
        Some(PrimitiveError::InvalidTier)
    } else {
        None
    }
}

/// The position after `amount` has been withdrawn from it at `now`.
pub open spec fn position_after_unstake(user: User, amount: u64, now: i64) -> User {
    User {
        current_stake: (user.current_stake - amount) as u64,
        last_claim: now,
        is_active: user.current_stake != amount,
        ..user
    }
}

/// `fund` with `amount` less, and one participant less if the position was
/// emptied.
pub open spec fn fund_after_unstake(fund: Fund, user: User, amount: u64) -> Fund {
    Fund {
        current_users: if user.current_stake == amount {
            (fund.current_users - 1) as u32
        } else {
            fund.current_users
        },
        total_staked: (fund.total_staked - amount) as u64,
        ..fund
    }
}

/// `protocol` with `amount` less staked and `reward` more paid.
pub open spec fn protocol_after_unstake(protocol: Protocol, amount: u64, reward: u64) -> Protocol {
    Protocol {
        total_staked: (protocol.total_staked - amount) as u64,
        total_yield: (protocol.total_yield + reward) as u64,
        ..protocol
    }
}

/// What a withdrawal of `amount` that earned `reward` pays out: the principal
/// always, the yield as a second transfer where it is not zero.
pub open spec fn withdrawal_of(amount: u64, reward: u64) -> Withdrawal {
    Withdrawal {
        principal: payout_of(amount),
        reward: if reward > 0 {
            Some(payout_of(reward))
        } else {
            None
        },
    }
}

/// The records are such that the withdrawal can be booked: the fund and the
/// protocol count at least `amount`, the fund counts the participant, and the
/// protocol's paid yield has room for `reward`.
pub open spec fn can_book_unstake(
    protocol: Protocol,
    fund: Fund,
    user: User,
    amount: u64,
    reward: u64,
) -> bool {
    &&& fund.total_staked >= amount
    &&& protocol.total_staked >= amount
    &&& user.current_stake == amount ==> fund.current_users >= 1
    &&& protocol.total_yield + reward <= u64::MAX
}

/// The withdrawal, unless it is refused, can be booked.
pub open spec fn unstake_in_range(
    protocol: Protocol,
    fund: Fund,
    user: User,
    amount: u64,
    now: i64,
) -> bool {
    unstake_refusal(user, fund, amount, now).is_none() ==> can_book_unstake(
        protocol,
        fund,
        user,
        amount,
        yield_due(user, fund, now).unwrap(),
    )
}

/// Whether `unstake` can be called with these arguments.
pub fn unstake_fits(protocol: &Protocol, fund: &Fund, user: &User, amount: u64, now: i64) -> (fits:
    bool)
    ensures
        fits == unstake_in_range(*protocol, *fund, *user, amount, now),
{
    if !(user.current_stake >= amount) || !user.is_active {
        return true;
    }
    match calculate_yield(user, fund, now) {
        Err(_) => true,
        Ok(reward) => fund.total_staked >= amount && protocol.total_staked >= amount && (
        user.current_stake != amount || fund.current_users >= 1) && reward <= u64::MAX
            - protocol.total_yield,
    }
}

/// Withdraws `amount` from `user`'s position in `fund`, with the yield earned
/// since the last claim.
///
/// Refused with `InsufficientStake` where the position holds less than
/// `amount`, else with `UserNotActive` where it is not active, else with
/// `InvalidTier` where its tier is none of the three. Otherwise the yield is
/// computed on the position as it was, the position loses `amount` and is
/// retired if that empties it, fund and protocol are adjusted, and the
/// payouts to carry out are returned.
///
/// The fund and the protocol must count what is withdrawn and have room for
/// the yield; `unstake_fits` tells whether they do.
pub fn unstake(
    protocol: &mut Protocol,
    fund: &mut Fund,
    user: &mut User,
    amount: u64,
    now: i64,
) -> (result: Result<Withdrawal, PrimitiveError>)
    requires
        unstake_in_range(*old(protocol), *old(fund), *old(user), amount, now),
    ensures
        match result {
            Ok(paid) => {
                &&& unstake_refusal(*old(user), *old(fund), amount, now).is_none()
                &&& yield_due(*old(user), *old(fund), now) matches Some(reward)
                &&& paid == withdrawal_of(amount, reward)
                &&& *final(user) == position_after_unstake(*old(user), amount, now)
                &&& *final(fund) == fund_after_unstake(*old(fund), *old(user), amount)
                &&& *final(protocol) == protocol_after_unstake(*old(protocol), amount, reward)
            },
            Err(e) => {
                &&& unstake_refusal(*old(user), *old(fund), amount, now) == Some(e)
                &&& *final(user) == *old(user)
                &&& *final(fund) == *old(fund)
                &&& *final(protocol) == *old(protocol)
            },
        },
        old(user).current_stake < amount ==> result == Err::<Withdrawal, PrimitiveError>(
            PrimitiveError::InsufficientStake,
        ),
        result.is_ok() ==> final(user).settled(),
        old(fund).within_capacity() ==> final(fund).within_capacity(),
{
    if !(user.current_stake >= amount) {
        return Err(PrimitiveError::InsufficientStake);
    }
    if !user.is_active {
        return Err(PrimitiveError::UserNotActive);
    }
    let yield_earned: u64 = match calculate_yield(user, fund, now) {
        Ok(earned) => earned,
        Err(e) => { return Err(e); },
    };
    let principal = Transfer::payout(amount);
    let reward = if yield_earned > 0 {
        Some(Transfer::payout(yield_earned))
    } else {
        None
    };

    user.current_stake -= amount;
    user.last_claim = now;
    if user.current_stake == 0 {
        user.is_active = false;
        fund.current_users -= 1;
    }
    fund.total_staked -= amount;
    protocol.total_staked -= amount;
    protocol.total_yield += yield_earned;

    Ok(Withdrawal { principal, reward })
}

/// Why a claim on `user`'s position is refused, if it is.
pub open spec fn claim_refusal(user: User, fund: Fund, now: i64) -> Option<PrimitiveError> {
    if !user.is_active {
        Some(PrimitiveError::UserNotActive)
    } else {
        match yield_due(user, fund, now) {
            None => Some(PrimitiveError::InvalidTier),
            Some(reward) => if reward == 0 {
                Some(PrimitiveError::NoYieldToClaim)
            } else {
                None
            },
        }
    }
}

/// The position after `reward` has been claimed on it at `now`.
pub open spec fn position_after_claim(user: User, reward: u64, now: i64) -> User {
    User {
        last_claim: now,
        loyalty_score: (user.loyalty_score + reward / YIELD_PER_POINT) as u64,
        ..user
    }
}

/// The claim, unless it is refused, can be booked within 64 bits: the
/// loyalty score has room for the points that the claim earns.
pub open spec fn claim_in_range(user: User, fund: Fund, now: i64) -> bool {
    claim_refusal(user, fund, now).is_none() ==> user.loyalty_score + yield_due(
        user,
        fund,
        now,
    ).unwrap() / YIELD_PER_POINT <= u64::MAX
}

/// Whether `claim_yield` can be called with these arguments.
pub fn claim_fits(user: &User, fund: &Fund, now: i64) -> (fits: bool)
    ensures
        fits == claim_in_range(*user, *fund, now),
{
    if !user.is_active {
        return true;
    }
    match calculate_yield(user, fund, now) {
        Err(_) => true,
        Ok(reward) => reward == 0 || reward / YIELD_PER_POINT <= u64::MAX - user.loyalty_score,
    }
}

/// Claims the yield that `user`'s position has earned in `fund` since the
/// last claim.
///
/// Refused with `UserNotActive` where the position is not active, else with
/// `InvalidTier` where its tier is none of the three, else with
/// `NoYieldToClaim` where nothing has accrued. Otherwise the claim is booked
/// on the position, which gains one loyalty point for each full thousand
/// claimed, and the payout to carry out is returned.
///
/// The loyalty score must have room for the points; `claim_fits` tells
/// whether it has.
pub fn claim_yield(user: &mut User, fund: &Fund, now: i64) -> (result: Result<
    Transfer,
    PrimitiveError,
>)
    requires
        claim_in_range(*old(user), *fund, now),
    ensures
        match result {
            Ok(transfer) => {
                &&& claim_refusal(*old(user), *fund, now).is_none()
                &&& yield_due(*old(user), *fund, now) matches Some(reward)
                &&& transfer == payout_of(reward)
                &&& *final(user) == position_after_claim(*old(user), reward, now)
            },
            Err(e) => {
                &&& claim_refusal(*old(user), *fund, now) == Some(e)
                &&& *final(user) == *old(user)
            },
        },
        old(user).settled() ==> final(user).settled(),
{
    if !user.is_active {
        return Err(PrimitiveError::UserNotActive);
    }
    let yield_earned: u64 = match calculate_yield(user, fund, now) {
        Ok(earned) => earned,
        Err(e) => { return Err(e); },
    };
    if !(yield_earned > 0) {
        return Err(PrimitiveError::NoYieldToClaim);
    }
    user.last_claim = now;
    user.loyalty_score += yield_earned / YIELD_PER_POINT;

    Ok(Transfer::payout(yield_earned))
}

/// A second claim with no time between the two is refused: once a claim has
/// gone through at `now`, the position has earned exactly nothing at `now`,
/// and a claim on it is refused with `NoYieldToClaim`.
pub proof fn second_claim_is_refused(user: User, fund: Fund, now: i64)
    requires
        claim_refusal(user, fund, now).is_none(),
    ensures
        yield_due(
            position_after_claim(user, yield_due(user, fund, now).unwrap(), now),
            fund,
            now,
        ) == Some(0u64),
        claim_refusal(
            position_after_claim(user, yield_due(user, fund, now).unwrap(), now),
            fund,
            now,
        ) == Some(PrimitiveError::NoYieldToClaim),
{
    let claimed = position_after_claim(user, yield_due(user, fund, now).unwrap(), now);
    nothing_accrues_in_no_time(claimed, fund, now);
}

/// A withdrawal in the second of the stake pays the principal and nothing
/// else: right after a stake that went through, the position has earned
/// exactly nothing.
pub proof fn fresh_stake_has_earned_nothing(
    fund: Fund,
    wallet: Pubkey,
    amount: u64,
    tier: u8,
    now: i64,
)
    requires
        stake_refusal(fund, tier).is_none(),
    ensures
        yield_due(
            position_after_stake(wallet, fund.id, amount, tier, now),
            fund_after_stake(fund, amount),
            now,
        ) == Some(0u64),
        withdrawal_of(amount, 0).reward.is_none(),
{
    nothing_accrues_in_no_time(
        position_after_stake(wallet, fund.id, amount, tier, now),
        fund_after_stake(fund, amount),
        now,
    );
}

} // verus!
