//! Setting up the protocol and its funds, and the two administrative
//! updates. Whether the caller is the protocol's authority is for the host to
//! establish before it calls any of these.

use vstd::prelude::*;
use anchor_lang::prelude::Pubkey;
use crate::error::PrimitiveError;
use crate::state::{Fund, Protocol};

verus! {

/// The protocol record as it is right after set-up: active, with nothing
/// staked, nothing paid and the fund counter at 0.
pub open spec fn initial_protocol(authority: Pubkey, jupiter_vault: Pubkey, bump: u8) -> Protocol {
    Protocol {
        authority,
        bump,
        total_staked: 0,
        total_yield: 0,
        current_fund_id: 0,
        jupiter_vault,
        is_active: true,
    }
}

/// A fund as it is right after creation: active, empty and never shuffled.
pub open spec fn new_fund(
    fund_id: u64,
    max_users: u32,
    tier1_apy: u16,
    tier2_apy: u16,
    tier3_apy: u16,
    now: i64,
) -> Fund {
    Fund {
        id: fund_id,
        max_users,
        current_users: 0,
        tier1_apy,
        tier2_apy,
        tier3_apy,
        total_staked: 0,
        is_active: true,
        created_at: now,
        last_shuffle: 0,
    }
}

/// Sets the protocol up. `existing` is the protocol record if there is one
/// already; then the call is refused with `AlreadyInitialized`.
pub fn initialize_protocol(
    existing: Option<&Protocol>,
    authority: Pubkey,
    jupiter_vault: Pubkey,
    protocol_bump: u8,
) -> (result: Result<Protocol, PrimitiveError>)
    ensures
        match result {
            Ok(protocol) => existing.is_none() && protocol == initial_protocol(
                authority,
                jupiter_vault,
                protocol_bump,
            ),
            Err(e) => existing.is_some() && e == PrimitiveError::AlreadyInitialized,
        },
{
    if existing.is_some() {
        return Err(PrimitiveError::AlreadyInitialized);
    }
    Ok(
        Protocol {
            authority,
            bump: protocol_bump,
            total_staked: 0,
            total_yield: 0,
            current_fund_id: 0,
            jupiter_vault,
            is_active: true,
        },
    )
}

/// Creates the fund `fund_id` with room for `max_users` participants and the
/// three annual rates. The id is the caller's choice; the protocol's fund
/// counter plays no part.
pub fn create_fund(
    fund_id: u64,
    max_users: u32,
    tier1_apy: u16,
    tier2_apy: u16,
    tier3_apy: u16,
    now: i64,
) -> (fund: Fund)
    ensures
        fund == new_fund(fund_id, max_users, tier1_apy, tier2_apy, tier3_apy, now),
        fund.within_capacity(),
{
    Fund {
        id: fund_id,
        max_users,
        current_users: 0,
        tier1_apy,
        tier2_apy,
        tier3_apy,
        total_staked: 0,
        is_active: true,
        created_at: now,
        last_shuffle: 0,
    }
}

/// Records a tier shuffle of `fund` at `now`. No position changes its tier:
/// this is the place where a reassignment by loyalty score would go.
pub fn shuffle_tiers(fund: &mut Fund, now: i64)
    ensures
        *final(fund) == (Fund { last_shuffle: now, ..*old(fund) }),
        old(fund).within_capacity() ==> final(fund).within_capacity(),
{
    fund.last_shuffle = now;
}

/// Points the protocol at another yield-bearing vault.
pub fn update_jupiter_vault(protocol: &mut Protocol, new_vault: Pubkey)
    ensures
        *final(protocol) == (Protocol { jupiter_vault: new_vault, ..*old(protocol) }),
{
    protocol.jupiter_vault = new_vault;
}

} // verus!
