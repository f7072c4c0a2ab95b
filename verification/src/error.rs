//! The reasons for which an operation is refused.

use vstd::prelude::*;

verus! {

/// Why an operation left every record as it was.
#[derive(Clone, Copy, Debug, PartialEq, Eq, Structural)]
pub enum PrimitiveError {
    /// The tier is not 1, 2 or 3.
    InvalidTier,
    /// The fund already holds as many participants as it admits.
    FundFull,
    /// The position holds less than the amount asked for.
    InsufficientStake,
    /// The position is not active.
    UserNotActive,
    /// No yield has accrued since the last claim.
    NoYieldToClaim,
    /// The protocol record exists already.
    AlreadyInitialized,
}

} // verus!
