//! Validity errors.

use vstd::prelude::*;

verus! {

/// Why a transaction's validity context was rejected.
#[derive(Clone, Copy, PartialEq, Eq, Structural, Debug)]
pub enum ValidityError {
    /// The supplied runtime version or genesis hash does not match the
    /// chain's current values.
    ContextMismatch,
    /// The supplied nonce is not exactly the account's expected next value.
    NonceMismatch,
    /// The era window has closed: the transaction expired.
    Expired,
    /// A check could not produce its additional-signed bytes from malformed
    /// internal state; unreachable for values built by this crate's
    /// constructors.
    EncodeFailure,
}

} // verus!
