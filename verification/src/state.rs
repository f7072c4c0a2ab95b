//! The three kinds of record that the protocol keeps.

use vstd::prelude::*;
use anchor_lang::prelude::Pubkey;

verus! {

/// The protocol's single global record.
#[derive(Clone, Copy, Debug, PartialEq, Eq)]
pub struct Protocol {
    /// Who may perform administrative operations.
    pub authority: Pubkey,
    /// Version tag of the record's address derivation.
    pub bump: u8,
    /// Everything staked, over all funds.
    pub total_staked: u64,
    /// Yield paid out on withdrawals so far.
    pub total_yield: u64,
    /// Counter of fund ids; no operation consults it.
    pub current_fund_id: u64,
    /// Where the yield-bearing holding lives.
    pub jupiter_vault: Pubkey,
    pub is_active: bool,
}

/// A pool with a capacity and one annual rate for each of three tiers.
#[derive(Clone, Copy, Debug, PartialEq, Eq)]
pub struct Fund {
    pub id: u64,
    /// How many participants the fund admits.
    pub max_users: u32,
    /// How many participants hold an active position in it.
    pub current_users: u32,
    /// Annual rate of tier 1, in percent.
    pub tier1_apy: u16,
    /// Annual rate of tier 2, in percent.
    pub tier2_apy: u16,
    /// Annual rate of tier 3, in percent.
    pub tier3_apy: u16,
    /// Everything staked in this fund.
    pub total_staked: u64,
    pub is_active: bool,
    /// Second at which the fund was created.
    pub created_at: i64,
    /// Second of the last tier shuffle, 0 before the first.
    pub last_shuffle: i64,
}

/// One participant's position.
#[derive(Clone, Copy, Debug, PartialEq, Eq)]
pub struct User {
    /// The participant.
    pub wallet: Pubkey,
    pub current_stake: u64,
    /// 1, 2 or 3 once the participant has staked.
    pub tier: u8,
    /// The fund the position is bound to.
    pub fund_id: u64,
    /// Second of the last stake.
    pub staked_at: i64,
    /// Second up to which yield has been paid.
    pub last_claim: i64,
    pub loyalty_score: u64,
    pub is_active: bool,
}

/// Whether `tier` names one of the three tiers.
pub open spec fn valid_tier(tier: u8) -> bool {
    1 <= tier <= 3
}

impl Fund {
    /// The fund holds no more participants than it admits.
    pub open spec fn within_capacity(&self) -> bool {
        self.current_users <= self.max_users
    }

    /// The fund admits no further participant.
    pub open spec fn is_full(&self) -> bool {
        self.current_users >= self.max_users
    }

    /// The annual rate of `tier`, where `tier` is one of the three.
    pub open spec fn apy_of(&self, tier: u8) -> Option<u16> {
        if tier == 1 {
            Some(self.tier1_apy)
        } else if tier == 2 {
            Some(self.tier2_apy)
        } else if tier == 3 {
            Some(self.tier3_apy)
        } else {
            None
        }
    }
}

impl User {
    /// A position is active exactly while it holds a stake.
    pub open spec fn settled(&self) -> bool {
        self.is_active <==> self.current_stake > 0
    }

    /// The record of a participant who has never staked.
    pub open spec fn vacant_for(wallet: Pubkey) -> User {
        User {
            wallet,
            current_stake: 0,
            tier: 0,
            fund_id: 0,
            staked_at: 0,
            last_claim: 0,
            loyalty_score: 0,
            is_active: false,
        }
    }

    /// An empty record for `wallet`, as it is before the first stake.
    pub fn vacant(wallet: Pubkey) -> (user: User)
        ensures
            user == User::vacant_for(wallet),
    {
        User {
            wallet,
            current_stake: 0,
            tier: 0,
            fund_id: 0,
            staked_at: 0,
            last_claim: 0,
            loyalty_score: 0,
            is_active: false,
        }
    }
}

} // verus!
