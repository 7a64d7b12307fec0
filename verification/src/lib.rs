//! Transaction signing-extension pipeline.
//!
//! A signed transaction carries, besides the call itself, an ordered set of
//! validity checks (runtime version, genesis identity, mortality era, account
//! nonce, weight). The signer folds part of this context into the bytes it
//! signs; a verifying node re-derives the same bytes from its own state and
//! confirms the signature covers the intended context. Signer and verifier
//! must therefore agree byte-for-byte on the order and encoding of every
//! check. This crate states that wire contract as verified specifications.

pub mod scale;
pub mod hash256;
pub mod era;
pub mod error;
pub mod runtime;
pub mod context;
pub mod check;
pub mod extra;

pub use check::Check;
pub use extra::{Extra, RuntimeExtra};
pub use context::{AccountContext, ChainContext, ValidationContext};
pub use error::ValidityError;
pub use era::Era;
pub use hash256::H256;
pub use runtime::Runtime;
