//! The token movements that an operation asks its host to carry out.

use vstd::prelude::*;

verus! {

/// One of the two token holdings that an operation moves tokens between.
#[derive(Clone, Copy, Debug, PartialEq, Eq, Structural)]
pub enum Holding {
    /// The participant's own token holding.
    Participant,
    /// The protocol's vault.
    Vault,
}

/// A movement of `amount` tokens, authorised by the owner of `source`: the
/// participant for their own holding, the protocol for its vault.
#[derive(Clone, Copy, Debug, PartialEq, Eq, Structural)]
pub struct Transfer {
    pub source: Holding,
    pub destination: Holding,
    pub amount: u64,
}

/// What a withdrawal pays: the principal, and the yield where there is any.
#[derive(Clone, Copy, Debug, PartialEq, Eq)]
pub struct Withdrawal {
    pub principal: Transfer,
    pub reward: Option<Transfer>,
}

/// `amount` from the participant into the vault.
pub open spec fn deposit_of(amount: u64) -> Transfer {
    Transfer { source: Holding::Participant, destination: Holding::Vault, amount }
}

/// `amount` from the vault to the participant.
pub open spec fn payout_of(amount: u64) -> Transfer {
    Transfer { source: Holding::Vault, destination: Holding::Participant, amount }
}

impl Transfer {
    /// A transfer of `amount` from the participant into the vault.
    pub fn deposit(amount: u64) -> (transfer: Transfer)
        ensures
            transfer == deposit_of(amount),
    {
        Transfer { source: Holding::Participant, destination: Holding::Vault, amount }
    }

    /// A transfer of `amount` from the vault to the participant.
    pub fn payout(amount: u64) -> (transfer: Transfer)
        ensures
            transfer == payout_of(amount),
    {
        Transfer { source: Holding::Vault, destination: Holding::Participant, amount }
    }
}

} // verus!
