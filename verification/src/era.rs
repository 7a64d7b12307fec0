//! Transaction mortality.
//!
//! An era bounds the window of blocks during which a transaction stays valid.
//! An immortal transaction never expires; a mortal one is valid for `period`
//! blocks starting at block `phase`. Immortality is one configuration of the
//! era, not its absence: an immortal era still contributes its marker to the
//! wire bytes and binds the signature to the genesis hash.

use vstd::prelude::*;
use crate::scale::{u64_le, push_u64_le};

verus! {

/// The mortality window of a transaction.
#[derive(Clone, Copy, PartialEq, Eq, Structural, Debug)]
pub enum Era {
    /// The transaction never expires.
    Immortal,
    /// The transaction is valid for `period` blocks starting at block `phase`.
    Mortal { period: u64, phase: u64 },
}

/// The wire bytes of an era: a one-byte tag, then for a mortal era the
/// window bounds at their natural width.
pub open spec fn era_encoding(e: Era) -> Seq<u8> {
    match e {
        Era::Immortal => seq![0u8],
        Era::Mortal { period, phase } => seq![1u8] + u64_le(period) + u64_le(phase),
    }
}

/// Whether a transaction under era `e` is still valid at block `block`.
pub open spec fn era_valid_at(e: Era, block: u64) -> bool {
    match e {
        Era::Immortal => true,
        Era::Mortal { period, phase } => phase <= block && block - phase < period,
    }
}

impl Era {
    /// Appends this era's wire bytes.
    pub fn encode_to(&self, out: &mut Vec<u8>)
        ensures
            final(out)@ == old(out)@ + era_encoding(*self),
    {
        match self {
            Era::Immortal => {
                out.push(0u8);
                assert(out@ =~= old(out)@ + era_encoding(*self));
            },
            Era::Mortal { period, phase } => {
                out.push(1u8);
                push_u64_le(out, *period);
                push_u64_le(out, *phase);
                assert(out@ =~= old(out)@ + era_encoding(*self));
            },
        }
    }

    /// Whether a transaction under this era is still valid at block `block`.
    pub fn valid_at(&self, block: u64) -> (r: bool)
        ensures
            r == era_valid_at(*self, block),
    {
        match self {
            Era::Immortal => true,
            Era::Mortal { period, phase } => *phase <= block && block - *phase < *period,
        }
    }
}

} // verus!
