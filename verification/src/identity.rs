//! The address type by which authorities, vaults and participants are known.

use vstd::prelude::*;
use anchor_lang::prelude::Pubkey;

verus! {

/// `anchor_lang::prelude::Pubkey`, a 32-byte address. Nothing is claimed of
/// what it holds: the records carry addresses through unchanged and never
/// look inside one.
#[verifier::external_type_specification]
#[verifier::external_body]
pub struct ExPubkey(Pubkey);

} // verus!
