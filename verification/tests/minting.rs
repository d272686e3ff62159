//! The minting engine: gating, the counter, and the deterministic unit
//! fields — name, attributes, content hash, and references.

use nft_manager::errors::Error;
use nft_manager::manager::{ContractState, IssueResult, NftManager, Recipient};
use sha2::Digest;

const PRICE: u128 = 50;

fn issued() -> ContractState {
    let mut s = ContractState::init(
        b"ABC-123456".to_vec(),
        PRICE,
        500,
        b"https://img.example".to_vec(),
        b"https://meta.example".to_vec(),
    )
    .unwrap();
    s.issue_nft(b"Foo".to_vec(), b"FOO".to_vec(), 0).unwrap();
    s.issue_callback(IssueResult::Granted(b"FOO-abc123".to_vec()), Vec::new(), 0);
    s
}

fn pay() -> Vec<u8> {
    b"ABC-123456".to_vec()
}

#[test]
fn mint_before_issuance_rejected() {
    let mut s = ContractState::init(pay(), PRICE, 500, Vec::new(), Vec::new()).unwrap();
    let r = s.mint(pay(), PRICE, 1000);
    assert_eq!(r.unwrap_err(), Error::TokenNotIssued);
    assert_eq!(s.mint_count(), 0);
}

#[test]
fn mint_after_issuance_succeeds_with_correct_payment() {
    let mut s = issued();
    assert!(s.mint(pay(), PRICE, 1000).is_ok());
    assert!(s.mint(pay(), PRICE + 1, 1000).is_ok(), "excess payment is kept, not refused");
}

#[test]
fn wrong_asset_rejected_and_counter_unchanged() {
    let mut s = issued();
    let r = s.mint(b"XYZ-999999".to_vec(), PRICE, 1000);
    assert_eq!(r.unwrap_err(), Error::WrongAsset);
    assert_eq!(s.mint_count(), 0);
    let r = s.mint(Vec::new(), PRICE, 1000);
    assert_eq!(r.unwrap_err(), Error::WrongAsset);
    assert_eq!(s.mint_count(), 0);
}

#[test]
fn insufficient_payment_rejected_and_counter_unchanged() {
    let mut s = issued();
    let r = s.mint(pay(), PRICE - 1, 1000);
    assert_eq!(r.unwrap_err(), Error::InsufficientPayment);
    assert_eq!(s.mint_count(), 0);
    let r = s.mint(pay(), 0, 1000);
    assert_eq!(r.unwrap_err(), Error::InsufficientPayment);
    assert_eq!(s.mint_count(), 0);
}

#[test]
fn counter_increments_by_one_per_successful_mint() {
    let mut s = issued();
    let c1 = s.mint(pay(), PRICE, 1000).unwrap();
    assert_eq!(s.mint_count(), 1);
    let c2 = s.mint(pay(), PRICE, 1000).unwrap();
    assert_eq!(s.mint_count(), 2);
    // the two sequence ids differ by exactly 1
    assert_eq!(c1.name, b"Foo#1".to_vec());
    assert_eq!(c2.name, b"Foo#2".to_vec());
    // a failed attempt in between leaves the counter alone
    let r = s.mint(pay(), PRICE - 1, 1000);
    assert!(r.is_err());
    assert_eq!(s.mint_count(), 2);
    let c3 = s.mint(pay(), PRICE, 1000).unwrap();
    assert_eq!(s.mint_count(), 3);
    assert_eq!(c3.name, b"Foo#3".to_vec());
}

#[test]
fn third_mint_names_and_uris() {
    let mut s = issued();
    s.mint(pay(), PRICE, 1000).unwrap();
    s.mint(pay(), PRICE, 1000).unwrap();
    let c = s.mint(pay(), PRICE, 1000).unwrap();
    assert_eq!(c.name, b"Foo#3".to_vec());
    assert_eq!(c.uris.len(), 2);
    assert_eq!(c.uris[0], b"https://img.example/3.png".to_vec());
    // the metadata reference is deliberately built from the image base
    assert_eq!(c.uris[1], b"https://img.example/3.json".to_vec());
}

#[test]
fn unit_fields_pinned_down() {
    let mut s = issued();
    let timestamp: u64 = 0x0102030405060708;
    let c = s.mint(pay(), PRICE, timestamp).unwrap();
    assert_eq!(c.token_id, b"FOO-abc123".to_vec());
    assert_eq!(c.quantity, 1);
    assert_eq!(c.royalties, 500);
    // attributes: "creatime:" followed by the timestamp's little-endian bytes
    let mut expected = b"creatime:".to_vec();
    expected.extend_from_slice(&[8, 7, 6, 5, 4, 3, 2, 1]);
    assert_eq!(c.attributes, expected);
    // the content hash is the SHA-256 digest of the attributes
    let digest = sha2::Sha256::digest(&c.attributes);
    assert_eq!(c.hash, digest.to_vec());
    assert_ne!(c.hash, c.attributes);
    assert_eq!(c.hash.len(), 32);
}

#[test]
fn transfer_hands_one_unit_to_the_minter() {
    let mut s = issued();
    let c = s.mint(pay(), PRICE, 1000).unwrap();
    let p = c.transfer_to_caller(41);
    assert_eq!(p.to, Recipient::Caller);
    assert_eq!(p.token_id, b"FOO-abc123".to_vec());
    assert_eq!(p.nonce, 41);
    assert_eq!(p.amount, 1);
}

#[test]
fn paused_flag_does_not_gate_mint() {
    let mut s = issued();
    s.pause_minting();
    assert!(s.mint(pay(), PRICE, 1000).is_ok());
}

#[test]
fn decimal_rendering_exact() {
    assert_eq!(nft_manager::encoding::decimal_bytes(0), b"0".to_vec());
    assert_eq!(nft_manager::encoding::decimal_bytes(7), b"7".to_vec());
    assert_eq!(nft_manager::encoding::decimal_bytes(10), b"10".to_vec());
    assert_eq!(nft_manager::encoding::decimal_bytes(305), b"305".to_vec());
    assert_eq!(
        nft_manager::encoding::decimal_bytes(u32::MAX),
        b"4294967295".to_vec()
    );
}

#[test]
fn little_endian_rendering_exact() {
    assert_eq!(nft_manager::encoding::u64_le_bytes(0), vec![0u8; 8]);
    assert_eq!(
        nft_manager::encoding::u64_le_bytes(1),
        vec![1, 0, 0, 0, 0, 0, 0, 0]
    );
    assert_eq!(
        nft_manager::encoding::u64_le_bytes(u64::MAX),
        vec![255u8; 8]
    );
    assert_eq!(
        nft_manager::encoding::u64_le_bytes(0x0102030405060708),
        vec![8, 7, 6, 5, 4, 3, 2, 1]
    );
}
