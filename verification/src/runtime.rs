//! Concrete type bindings for the runtime this client speaks to.
//!
//! Every other component works over these fixed choices: the account index is
//! a monotonic 32-bit counter, block numbers are 32-bit, hashes are 32 bytes,
//! balances are 128-bit, and the organization and share-class identifiers are
//! 64-bit.

use vstd::prelude::*;

verus! {

/// Marker for the concrete runtime whose types are bound below.
#[derive(Debug, Clone, Copy, Eq, PartialEq)]
pub struct Runtime;

/// Per-account transaction counter.
pub type Index = u32;

/// Block number.
pub type BlockNumber = u32;

/// Account balance.
pub type Balance = u128;

/// Organization identifier.
pub type OrgId = u64;

/// Share-class identifier.
pub type ShareId = u64;

} // verus!
