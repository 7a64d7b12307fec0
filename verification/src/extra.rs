//! The extension aggregator.
//!
//! [`Extra`] holds the live values needed to instantiate all five checks for
//! one transaction, builds them in fixed order, and derives the combined
//! additional-signed payload by concatenating each check's fragment in that
//! same order. The order `[Version, Genesis, Era, Nonce, Weight]` is a wire
//! contract: reordering it breaks interoperability with unmodified verifying
//! nodes. An `Extra` is ephemeral: built per transaction, consumed once when
//! the transaction is signed, then discarded.

use vstd::prelude::*;
use crate::check::{Check, check_additional_signed, check_wf};
use crate::context::ValidationContext;
use crate::era::{Era, era_valid_at};
use crate::error::ValidityError;
use crate::hash256::H256;
use crate::runtime::Index;
use crate::scale::{
    u32_le, u32_from_le, push_u32_le, read_u32_le, lemma_u32_le_roundtrip,
    lemma_u32_le_injective,
};

verus! {

/// The per-transaction aggregate of the five checks' live values.
#[derive(Debug)]
pub struct Extra {
    /// Runtime spec version the transaction was built against.
    pub version: u32,
    /// The signing account's nonce for this transaction.
    pub nonce: Index,
    /// Genesis hash of the chain the transaction is meant for.
    pub genesis_hash: H256,
}

/// `Extra` under the concrete runtime type bindings.
pub type RuntimeExtra = Extra;

/// The combined additional-signed payload: the checks' fragments in fixed
/// order. Version contributes its four bytes, genesis and era each the
/// 32-byte hash, nonce its four bytes, weight nothing.
pub open spec fn additional_signed_bytes(version: u32, nonce: Index, genesis: Seq<u8>) -> Seq<u8> {
    u32_le(version) + genesis + genesis + u32_le(nonce)
}

/// The wire bytes of an `Extra`: each field at its natural width, in field
/// order, with no delimiters.
pub open spec fn extra_encoding(version: u32, nonce: Index, genesis: Seq<u8>) -> Seq<u8> {
    u32_le(version) + u32_le(nonce) + genesis
}

/// The fields read back from the wire bytes of an `Extra`, or nothing if the
/// byte string has the wrong shape.
pub open spec fn decoded_extra(bytes: Seq<u8>) -> Option<(u32, Index, Seq<u8>)> {
    if bytes.len() == 40 {
        Some(
            (
                u32_from_le(bytes.subrange(0, 4)),
                u32_from_le(bytes.subrange(4, 8)),
                bytes.subrange(8, 40),
            ),
        )
    } else {
        None
    }
}

/// The outcome of validating an `Extra` against live chain state: the first
/// failing check's error in the fixed order, or success when every check
/// passes. The era check never expires under the immortal configuration.
pub open spec fn extra_outcome(
    version: u32,
    nonce: Index,
    genesis: Seq<u8>,
    ctx: ValidationContext,
) -> Result<(), ValidityError> {
    if version != ctx.chain.spec_version {
        Err(ValidityError::ContextMismatch)
    } else if genesis != ctx.chain.genesis_hash@ {
        Err(ValidityError::ContextMismatch)
    } else if !era_valid_at(Era::Immortal, ctx.block_number as u64) {
        Err(ValidityError::Expired)
    } else if nonce != ctx.account.nonce {
        Err(ValidityError::NonceMismatch)
    } else {
        Ok(())
    }
}

impl Extra {
    /// Well-formed when the genesis hash holds its full 32 bytes.
    pub open spec fn wf(&self) -> bool {
        self.genesis_hash.wf()
    }

    /// Pure constructor; the caller has already validated the three inputs
    /// against chain state.
    pub fn new(version: u32, nonce: Index, genesis_hash: H256) -> (r: Extra)
        requires
            genesis_hash.wf(),
        ensures
            r.version == version,
            r.nonce == nonce,
            r.genesis_hash@ == genesis_hash@,
            r.wf(),
    {
        Extra { version, nonce, genesis_hash }
    }

    /// Instantiates the five checks, in the fixed order
    /// `[Version, Genesis, Era, Nonce, Weight]`, from the stored fields. The
    /// era is immortal and binds to the genesis hash.
    pub fn extra(&self) -> (r: Vec<Check>)
        requires
            self.wf(),
        ensures
            r@.len() == 5,
            r@[0] matches Check::Version { spec_version } && spec_version == self.version,
            r@[1] matches Check::Genesis { genesis_hash } && genesis_hash@ == self.genesis_hash@,
            r@[2] matches Check::Era { era, era_hash } && era == Era::Immortal && era_hash@
                == self.genesis_hash@,
            r@[3] matches Check::Nonce { nonce } && nonce == self.nonce,
            r@[4] is Weight,
            forall|i: int| 0 <= i < 5 ==> check_wf(#[trigger] r@[i]),
    {
        let mut checks: Vec<Check> = Vec::new();
        checks.push(Check::Version { spec_version: self.version });
        checks.push(Check::Genesis { genesis_hash: self.genesis_hash.duplicate() });
        checks.push(
            Check::Era { era: Era::Immortal, era_hash: self.genesis_hash.duplicate() },
        );
        checks.push(Check::Nonce { nonce: self.nonce });
        checks.push(Check::Weight);
        checks
    }

    /// Derives the combined additional-signed payload: the concatenation, in
    /// the fixed order, of each check's fragment. Total for a well-formed
    /// `Extra`; a failing check's error would propagate without attempting
    /// the remaining checks.
    pub fn additional_signed(&self) -> (r: Result<Vec<u8>, ValidityError>)
        requires
            self.wf(),
        ensures
            r matches Ok(b) && b@ == additional_signed_bytes(
                self.version,
                self.nonce,
                self.genesis_hash@,
            ),
    {
        let checks = self.extra();
        let mut out: Vec<u8> = Vec::new();
        let mut i: usize = 0;
        while i < 5
            invariant
                i <= 5,
                checks@.len() == 5,
                forall|j: int| 0 <= j < 5 ==> check_wf(#[trigger] checks@[j]),
                out@ == concat_up_to(checks@, i as int),
            decreases 5 - i,
        {
            let mut frag = match checks[i].additional_signed() {
                Ok(b) => b,
                Err(e) => {
                    return Err(e);
                },
            };
            out.append(&mut frag);
            i = i + 1;
            assert(out@ =~= concat_up_to(checks@, i as int));
        }
        proof {
            lemma_concat_of_five(checks@);
        }
        assert(out@ =~= additional_signed_bytes(self.version, self.nonce, self.genesis_hash@));
        Ok(out)
    }

    /// The wire bytes of this `Extra`.
    pub fn encode(&self) -> (r: Vec<u8>)
        requires
            self.wf(),
        ensures
            r@ == extra_encoding(self.version, self.nonce, self.genesis_hash@),
            r@.len() == 40,
    {
        let mut out: Vec<u8> = Vec::new();
        push_u32_le(&mut out, self.version);
        push_u32_le(&mut out, self.nonce);
        self.genesis_hash.encode_to(&mut out);
        assert(out@ =~= extra_encoding(self.version, self.nonce, self.genesis_hash@));
        out
    }

    /// Reads an `Extra` back from its wire bytes; a byte string of the wrong
    /// shape is refused.
    pub fn decode(bytes: &Vec<u8>) -> (r: Option<Extra>)
        ensures
            match decoded_extra(bytes@) {
                Some(t) => r matches Some(e) && e.wf() && e.version == t.0 && e.nonce == t.1
                    && e.genesis_hash@ == t.2,
                None => r is None,
            },
    {
        if bytes.len() != 40 {
            return None;
        }
        let version = read_u32_le(bytes, 0);
        let nonce = read_u32_le(bytes, 4);
        let mut g: Vec<u8> = Vec::new();
        let mut i: usize = 8;
        while i < 40
            invariant
                8 <= i <= 40,
                bytes@.len() == 40,
                g@ == bytes@.subrange(8, i as int),
            decreases 40 - i,
        {
            g.push(bytes[i]);
            i = i + 1;
            assert(g@ =~= bytes@.subrange(8, i as int));
        }
        match H256::from_bytes(g) {
            Some(genesis_hash) => Some(Extra { version, nonce, genesis_hash }),
            None => None,
        }
    }

    /// Runs the five checks against live chain state in the fixed order and
    /// propagates the first failing check's error; used on the verifying
    /// side.
    pub fn validate(&self, ctx: &ValidationContext) -> (r: Result<(), ValidityError>)
        requires
            self.wf(),
        ensures
            r == extra_outcome(self.version, self.nonce, self.genesis_hash@, *ctx),
    {
        let checks = self.extra();
        match checks[0].validate(ctx) {
            Ok(_) => {},
            Err(e) => {
                return Err(e);
            },
        }
        match checks[1].validate(ctx) {
            Ok(_) => {},
            Err(e) => {
                return Err(e);
            },
        }
        match checks[2].validate(ctx) {
            Ok(_) => {},
            Err(e) => {
                return Err(e);
            },
        }
        match checks[3].validate(ctx) {
            Ok(_) => {},
            Err(e) => {
                return Err(e);
            },
        }
        match checks[4].validate(ctx) {
            Ok(_) => {},
            Err(e) => {
                return Err(e);
            },
        }
        Ok(())
    }
}

impl PartialEq for Extra {
    /// Two aggregates are equal exactly when all three fields are.
    fn eq(&self, other: &Extra) -> (r: bool) {
        self.version == other.version && self.nonce == other.nonce && self.genesis_hash
            == other.genesis_hash
    }
}

impl Eq for Extra {

}

impl vstd::std_specs::cmp::PartialEqSpecImpl for Extra {
    open spec fn obeys_eq_spec() -> bool {
        true
    }

    open spec fn eq_spec(&self, other: &Extra) -> bool {
        self.version == other.version && self.nonce == other.nonce && self.genesis_hash@
            == other.genesis_hash@
    }
}

/// The concatenation of the first `n` checks' additional-signed fragments.
pub open spec fn concat_up_to(checks: Seq<Check>, n: int) -> Seq<u8>
    decreases n,
{
    if n <= 0 {
        Seq::empty()
    } else {
        concat_up_to(checks, n - 1) + check_additional_signed(checks[n - 1])
    }
}

/// For the five checks built by [`Extra::extra`], the concatenation of their
/// fragments is the aggregate payload.
proof fn lemma_concat_of_five(checks: Seq<Check>)
    requires
        checks.len() == 5,
    ensures
        concat_up_to(checks, 5) == check_additional_signed(checks[0]) + check_additional_signed(
            checks[1],
        ) + check_additional_signed(checks[2]) + check_additional_signed(checks[3])
            + check_additional_signed(checks[4]),
{
    reveal_with_fuel(concat_up_to, 6);
    assert(concat_up_to(checks, 5) =~= check_additional_signed(checks[0])
        + check_additional_signed(checks[1]) + check_additional_signed(checks[2])
        + check_additional_signed(checks[3]) + check_additional_signed(checks[4]));
}

/// The aggregate payload is exactly the concatenation, in the fixed order,
/// of the five checks' own fragments: what the aggregator signs over is what
/// the five checks individually contribute.
pub proof fn lemma_additional_signed_is_check_concat(
    c0: Check,
    c1: Check,
    c2: Check,
    c3: Check,
    c4: Check,
    version: u32,
    nonce: Index,
    genesis: Seq<u8>,
)
    requires
        c0 matches Check::Version { spec_version } && spec_version == version,
        c1 matches Check::Genesis { genesis_hash } && genesis_hash@ == genesis,
        c2 matches Check::Era { era_hash, .. } && era_hash@ == genesis,
        c3 matches Check::Nonce { nonce: n } && n == nonce,
        c4 is Weight,
    ensures
        additional_signed_bytes(version, nonce, genesis) == check_additional_signed(c0)
            + check_additional_signed(c1) + check_additional_signed(c2)
            + check_additional_signed(c3) + check_additional_signed(c4),
{
    assert(additional_signed_bytes(version, nonce, genesis) =~= check_additional_signed(c0)
        + check_additional_signed(c1) + check_additional_signed(c2)
        + check_additional_signed(c3) + check_additional_signed(c4));
}

/// Determinism: two aggregates built from identical inputs derive
/// byte-identical additional-signed payloads.
pub proof fn lemma_additional_signed_deterministic(
    v1: u32,
    n1: Index,
    g1: Seq<u8>,
    v2: u32,
    n2: Index,
    g2: Seq<u8>,
)
    requires
        v1 == v2,
        n1 == n2,
        g1 == g2,
    ensures
        additional_signed_bytes(v1, n1, g1) == additional_signed_bytes(v2, n2, g2),
{
}

/// Sensitivity: equal additional-signed payloads can only come from equal
/// inputs, so changing the version, the nonce or the genesis hash changes
/// the payload.
pub proof fn lemma_additional_signed_injective(
    v1: u32,
    n1: Index,
    g1: Seq<u8>,
    v2: u32,
    n2: Index,
    g2: Seq<u8>,
)
    requires
        g1.len() == 32,
        g2.len() == 32,
        additional_signed_bytes(v1, n1, g1) == additional_signed_bytes(v2, n2, g2),
    ensures
        v1 == v2,
        n1 == n2,
        g1 == g2,
{
    let w1 = additional_signed_bytes(v1, n1, g1);
    let w2 = additional_signed_bytes(v2, n2, g2);
    assert(w1.subrange(0, 4) =~= u32_le(v1));
    assert(w2.subrange(0, 4) =~= u32_le(v2));
    lemma_u32_le_injective(v1, v2);
    assert(w1.subrange(4, 36) =~= g1);
    assert(w2.subrange(4, 36) =~= g2);
    assert(g1 == g2);
    assert(w1.subrange(68, 72) =~= u32_le(n1));
    assert(w2.subrange(68, 72) =~= u32_le(n2));
    lemma_u32_le_injective(n1, n2);
}

/// Round trip: decoding the wire bytes of an `Extra` yields exactly the
/// fields it was built from.
pub proof fn lemma_encode_decode_roundtrip(version: u32, nonce: Index, genesis: Seq<u8>)
    requires
        genesis.len() == 32,
    ensures
        decoded_extra(extra_encoding(version, nonce, genesis)) == Some(
            (version, nonce, genesis),
        ),
{
    let w = extra_encoding(version, nonce, genesis);
    assert(w.subrange(0, 4) =~= u32_le(version));
    assert(w.subrange(4, 8) =~= u32_le(nonce));
    assert(w.subrange(8, 40) =~= genesis);
    lemma_u32_le_roundtrip(version);
    lemma_u32_le_roundtrip(nonce);
}

} // verus!
