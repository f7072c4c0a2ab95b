//! Bookkeeping for a tiered staking protocol: the records it keeps, the
//! operations that change them, and the yield and loyalty arithmetic.
//!
//! Nothing in here moves tokens or reads a clock. Every operation takes the
//! current second as an argument and hands back the transfers that the host
//! has to carry out on the token ledger.

pub mod admin;
pub mod books;
pub mod error;
pub mod identity;
pub mod reward;
pub mod staking;
pub mod state;
pub mod transfer;
