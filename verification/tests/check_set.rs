//! The five checks one by one: wire bytes, additional-signed fragments,
//! validation outcomes, era windows, and the hash type.

use signed_extra::{AccountContext, ChainContext, Check, Era, ValidationContext, ValidityError, H256};

fn h256(fill: u8) -> H256 {
    H256::from_bytes(vec![fill; 32]).unwrap()
}

fn ctx(spec_version: u32, genesis_hash: H256, nonce: u32, block_number: u32) -> ValidationContext {
    ValidationContext {
        chain: ChainContext { spec_version, genesis_hash },
        account: AccountContext { nonce },
        block_number,
    }
}

#[test]
fn version_genesis_weight_encode_empty() {
    assert!(Check::Version { spec_version: 7 }.encode().is_empty());
    assert!(Check::Genesis { genesis_hash: h256(3) }.encode().is_empty());
    assert!(Check::Weight.encode().is_empty());
}

#[test]
fn nonce_encodes_fixed_width() {
    let bytes = Check::Nonce { nonce: 0x0102_0304 }.encode();
    assert_eq!(bytes, vec![0x04, 0x03, 0x02, 0x01]);
}

#[test]
fn immortal_era_encodes_as_marker() {
    let bytes = Check::Era { era: Era::Immortal, era_hash: h256(3) }.encode();
    assert_eq!(bytes, vec![0]);
}

#[test]
fn mortal_era_encodes_tag_and_window() {
    let bytes = Check::Era {
        era: Era::Mortal { period: 0x0102, phase: 3 },
        era_hash: h256(3),
    }
    .encode();
    let expected: Vec<u8> = vec![1, 0x02, 0x01, 0, 0, 0, 0, 0, 0, 3, 0, 0, 0, 0, 0, 0, 0];
    assert_eq!(bytes, expected);
}

#[test]
fn version_fragment_is_its_four_bytes() {
    let frag = Check::Version { spec_version: 0xdead_beef }.additional_signed().unwrap();
    assert_eq!(frag, vec![0xef, 0xbe, 0xad, 0xde]);
}

#[test]
fn genesis_fragment_is_the_hash() {
    let frag = Check::Genesis { genesis_hash: h256(0x55) }.additional_signed().unwrap();
    assert_eq!(frag, vec![0x55; 32]);
}

#[test]
fn era_fragment_is_the_era_hash() {
    let frag =
        Check::Era { era: Era::Immortal, era_hash: h256(0x66) }.additional_signed().unwrap();
    assert_eq!(frag, vec![0x66; 32]);
}

#[test]
fn nonce_fragment_is_its_four_bytes() {
    let frag = Check::Nonce { nonce: 42 }.additional_signed().unwrap();
    assert_eq!(frag, vec![42, 0, 0, 0]);
}

#[test]
fn weight_fragment_is_empty() {
    assert!(Check::Weight.additional_signed().unwrap().is_empty());
}

#[test]
fn version_check_fails_closed() {
    let c = Check::Version { spec_version: 1 };
    assert_eq!(c.validate(&ctx(1, h256(0), 0, 0)), Ok(()));
    assert_eq!(c.validate(&ctx(2, h256(0), 0, 0)), Err(ValidityError::ContextMismatch));
}

#[test]
fn genesis_check_fails_closed() {
    let c = Check::Genesis { genesis_hash: h256(0xab) };
    assert_eq!(c.validate(&ctx(0, h256(0xab), 0, 0)), Ok(()));
    assert_eq!(c.validate(&ctx(0, h256(0xcd), 0, 0)), Err(ValidityError::ContextMismatch));
}

#[test]
fn nonce_check_requires_exact_equality() {
    let c = Check::Nonce { nonce: 42 };
    assert_eq!(c.validate(&ctx(0, h256(0), 42, 0)), Ok(()));
    assert_eq!(c.validate(&ctx(0, h256(0), 41, 0)), Err(ValidityError::NonceMismatch));
    assert_eq!(c.validate(&ctx(0, h256(0), 43, 0)), Err(ValidityError::NonceMismatch));
}

#[test]
fn weight_check_always_passes() {
    assert_eq!(Check::Weight.validate(&ctx(0, h256(0), 0, 0)), Ok(()));
}

#[test]
fn immortal_era_never_expires() {
    let c = Check::Era { era: Era::Immortal, era_hash: h256(0) };
    assert_eq!(c.validate(&ctx(0, h256(0), 0, 0)), Ok(()));
    assert_eq!(c.validate(&ctx(0, h256(0), 0, u32::MAX)), Ok(()));
}

#[test]
fn mortal_era_expires_outside_its_window() {
    let era = Era::Mortal { period: 10, phase: 5 };
    let c = Check::Era { era, era_hash: h256(0) };
    assert_eq!(c.validate(&ctx(0, h256(0), 0, 4)), Err(ValidityError::Expired));
    assert_eq!(c.validate(&ctx(0, h256(0), 0, 5)), Ok(()));
    assert_eq!(c.validate(&ctx(0, h256(0), 0, 14)), Ok(()));
    assert_eq!(c.validate(&ctx(0, h256(0), 0, 15)), Err(ValidityError::Expired));
}

#[test]
fn era_window_edges() {
    assert!(Era::Immortal.valid_at(0));
    assert!(Era::Immortal.valid_at(u64::MAX));
    let era = Era::Mortal { period: 1, phase: 0 };
    assert!(era.valid_at(0));
    assert!(!era.valid_at(1));
    let empty = Era::Mortal { period: 0, phase: 7 };
    assert!(!empty.valid_at(7));
}

#[test]
fn hash_requires_exactly_32_bytes() {
    assert!(H256::from_bytes(Vec::new()).is_none());
    assert!(H256::from_bytes(vec![0u8; 31]).is_none());
    assert!(H256::from_bytes(vec![0u8; 33]).is_none());
    assert!(H256::from_bytes(vec![0u8; 32]).is_some());
}

#[test]
fn hash_equality_is_by_bytes() {
    let a = h256(1);
    let b = h256(1);
    let c = h256(2);
    assert!(a == b);
    assert!(a != c);
    assert!(a.duplicate() == a);
    assert_eq!(a.byte_at(0), 1);
    assert_eq!(a.byte_at(31), 1);
}
