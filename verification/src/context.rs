//! Live chain state a verifying node checks a transaction against.
//!
//! The crate never fetches this state itself: the caller obtains a consistent
//! snapshot (nonce and spec version queried at the same block) and passes it
//! in explicitly, which keeps every operation pure and independently testable.

use vstd::prelude::*;
use crate::hash256::H256;
use crate::runtime::{BlockNumber, Index};

verus! {

/// Global, read-only state of one chain instance: its genesis identity and
/// the version of its current runtime logic.
pub struct ChainContext {
    /// Version of the on-chain runtime logic; changes only on upgrade.
    pub spec_version: u32,
    /// Hash of the chain's initial state; set once, never changes.
    pub genesis_hash: H256,
}

/// Per-signer state: the account's expected next nonce.
pub struct AccountContext {
    /// Strictly increasing counter; the next transaction must carry exactly
    /// this value.
    pub nonce: Index,
}

/// The snapshot a verifying node validates one transaction against.
pub struct ValidationContext {
    /// The chain's global context.
    pub chain: ChainContext,
    /// The signing account's state.
    pub account: AccountContext,
    /// The block at which the transaction is being validated.
    pub block_number: BlockNumber,
}

} // verus!
