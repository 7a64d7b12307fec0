//! The five validity checks a signed transaction carries.
//!
//! Each check can produce its own wire bytes, contribute a fragment to the
//! additional-signed payload, and be validated against live chain state. The
//! set is closed by protocol: exactly these five variants, and the order in
//! which the aggregator instantiates them is part of the wire contract.

use vstd::prelude::*;
use crate::era::{Era, era_encoding, era_valid_at};
use crate::error::ValidityError;
use crate::hash256::H256;
use crate::context::ValidationContext;
use crate::runtime::Index;
use crate::scale::{u32_le, push_u32_le};

verus! {

/// One validity check of the signing extension.
#[derive(Debug)]
pub enum Check {
    /// The runtime spec version the transaction was built against.
    Version { spec_version: u32 },
    /// The genesis hash of the chain the transaction is meant for.
    Genesis { genesis_hash: H256 },
    /// The transaction's mortality window, bound to the hash of the block the
    /// era starts at (the genesis hash for an immortal era).
    Era { era: Era, era_hash: H256 },
    /// The signing account's nonce for this transaction.
    Nonce { nonce: Index },
    /// Marker consumed by the runtime's weight accounting; carries no data
    /// but its slot in the wire shape is preserved.
    Weight,
}

/// A check is well-formed when any hash it carries holds its full 32 bytes.
pub open spec fn check_wf(c: Check) -> bool {
    match c {
        Check::Genesis { genesis_hash } => genesis_hash.wf(),
        Check::Era { era_hash, .. } => era_hash.wf(),
        _ => true,
    }
}

/// The check's own contribution to the on-wire extrinsic envelope. The
/// version and genesis checks travel as implicit context and contribute
/// nothing; the era and nonce checks travel in full.
pub open spec fn check_encoding(c: Check) -> Seq<u8> {
    match c {
        Check::Version { .. } => Seq::empty(),
        Check::Genesis { .. } => Seq::empty(),
        Check::Era { era, .. } => era_encoding(era),
        Check::Nonce { nonce } => u32_le(nonce),
        Check::Weight => Seq::empty(),
    }
}

/// The check's fragment of the additional-signed payload: the bytes folded
/// into the signed message beyond what travels on the wire.
pub open spec fn check_additional_signed(c: Check) -> Seq<u8> {
    match c {
        Check::Version { spec_version } => u32_le(spec_version),
        Check::Genesis { genesis_hash } => genesis_hash@,
        Check::Era { era_hash, .. } => era_hash@,
        Check::Nonce { nonce } => u32_le(nonce),
        Check::Weight => Seq::empty(),
    }
}

/// The outcome of validating one check against live chain state. The version
/// and genesis checks fail closed on any mismatch; the nonce check demands
/// exact equality; the weight marker carries nothing to compare.
pub open spec fn check_outcome(c: Check, ctx: ValidationContext) -> Result<(), ValidityError> {
    match c {
        Check::Version { spec_version } => if spec_version == ctx.chain.spec_version {
            Ok(())
        } else {
            Err(ValidityError::ContextMismatch)
        },
        Check::Genesis { genesis_hash } => if genesis_hash@ == ctx.chain.genesis_hash@ {
            Ok(())
        } else {
            Err(ValidityError::ContextMismatch)
        },
        Check::Era { era, .. } => if era_valid_at(era, ctx.block_number as u64) {
            Ok(())
        } else {
            Err(ValidityError::Expired)
        },
        Check::Nonce { nonce } => if nonce == ctx.account.nonce {
            Ok(())
        } else {
            Err(ValidityError::NonceMismatch)
        },
        Check::Weight => Ok(()),
    }
}

impl Check {
    /// The check's own wire bytes.
    pub fn encode(&self) -> (r: Vec<u8>)
        ensures
            r@ == check_encoding(*self),
    {
        let mut out: Vec<u8> = Vec::new();
        match self {
            Check::Version { .. } => {},
            Check::Genesis { .. } => {},
            Check::Era { era, .. } => {
                era.encode_to(&mut out);
            },
            Check::Nonce { nonce } => {
                push_u32_le(&mut out, *nonce);
            },
            Check::Weight => {},
        }
        assert(out@ =~= check_encoding(*self));
        out
    }

    /// The check's fragment of the additional-signed payload. Total for every
    /// well-formed check: the error arm exists for wire compatibility only.
    pub fn additional_signed(&self) -> (r: Result<Vec<u8>, ValidityError>)
        requires
            check_wf(*self),
        ensures
            r matches Ok(b) && b@ == check_additional_signed(*self),
    {
        let mut out: Vec<u8> = Vec::new();
        match self {
            Check::Version { spec_version } => {
                push_u32_le(&mut out, *spec_version);
            },
            Check::Genesis { genesis_hash } => {
                genesis_hash.encode_to(&mut out);
            },
            Check::Era { era_hash, .. } => {
                era_hash.encode_to(&mut out);
            },
            Check::Nonce { nonce } => {
                push_u32_le(&mut out, *nonce);
            },
            Check::Weight => {},
        }
        assert(out@ =~= check_additional_signed(*self));
        Ok(out)
    }

    /// Re-derives the check's value from live chain state and compares;
    /// used only on the verifying side.
    pub fn validate(&self, ctx: &ValidationContext) -> (r: Result<(), ValidityError>)
        ensures
            r == check_outcome(*self, *ctx),
    {
        match self {
            Check::Version { spec_version } => {
                if *spec_version == ctx.chain.spec_version {
                    Ok(())
                } else {
                    Err(ValidityError::ContextMismatch)
                }
            },
            Check::Genesis { genesis_hash } => {
                if *genesis_hash == ctx.chain.genesis_hash {
                    Ok(())
                } else {
                    Err(ValidityError::ContextMismatch)
                }
            },
            Check::Era { era, .. } => {
                if era.valid_at(ctx.block_number as u64) {
                    Ok(())
                } else {
                    Err(ValidityError::Expired)
                }
            },
            Check::Nonce { nonce } => {
                if *nonce == ctx.account.nonce {
                    Ok(())
                } else {
                    Err(ValidityError::NonceMismatch)
                }
            },
            Check::Weight => Ok(()),
        }
    }
}

} // verus!
