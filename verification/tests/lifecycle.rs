//! The token lifecycle: initialization, registration with the authority,
//! the callback outcomes, and the administrative controls.

use nft_manager::errors::Error;
use nft_manager::manager::{ContractState, IssueResult, NftManager, Recipient, ROYALTIES_MAX};

fn fresh() -> ContractState {
    ContractState::init(
        b"ABC-123456".to_vec(),
        50,
        500,
        b"https://img.example".to_vec(),
        b"https://meta.example".to_vec(),
    )
    .unwrap()
}

fn issued() -> ContractState {
    let mut s = fresh();
    s.issue_nft(b"Foo".to_vec(), b"FOO".to_vec(), 0).unwrap();
    let refund = s.issue_callback(IssueResult::Granted(b"FOO-abc123".to_vec()), Vec::new(), 0);
    assert!(refund.is_none());
    s
}

#[test]
fn royalty_above_max_rejected() {
    let r = ContractState::init(Vec::new(), 1, ROYALTIES_MAX + 1, Vec::new(), Vec::new());
    assert_eq!(r.unwrap_err(), Error::InvalidRoyalty);
}

#[test]
fn royalty_at_max_accepted() {
    let r = ContractState::init(Vec::new(), 1, ROYALTIES_MAX, Vec::new(), Vec::new());
    assert!(r.is_ok());
}

#[test]
fn bad_asset_id_rejected() {
    for bad in [
        &b"bad"[..],
        &b"abc-123456"[..],
        &b"ABC_123456"[..],
        &b"ABC-12345"[..],
        &b"ABC-ABC123"[..],
        &b"TOOLONGTICKR-123456"[..],
    ] {
        let r = ContractState::init(bad.to_vec(), 1, 0, Vec::new(), Vec::new());
        assert_eq!(r.unwrap_err(), Error::InvalidAsset, "{:?}", bad);
    }
}

#[test]
fn native_and_valid_asset_ids_accepted() {
    assert!(ContractState::init(Vec::new(), 1, 0, Vec::new(), Vec::new()).is_ok());
    assert!(ContractState::init(b"WEGLD-abcdef".to_vec(), 1, 0, Vec::new(), Vec::new()).is_ok());
    assert!(ContractState::init(b"A1C-00aa99".to_vec(), 1, 0, Vec::new(), Vec::new()).is_ok());
}

#[test]
fn init_round_trip() {
    let s = fresh();
    assert_eq!(s.payment_token_id().as_slice(), b"ABC-123456");
    assert_eq!(s.nft_token_price(), 50);
    assert_eq!(s.royalties(), 500);
    assert_eq!(s.image_base_uri().as_slice(), b"https://img.example");
    assert_eq!(s.metadata_base_uri().as_slice(), b"https://meta.example");
    assert_eq!(s.mint_count(), 0);
    assert!(!s.paused());
    assert!(s.nft_token_id().is_empty());
    assert!(s.nft_token_name().is_empty());
}

#[test]
fn issue_request_carries_name_ticker_payment_and_profile() {
    let mut s = fresh();
    let req = s.issue_nft(b"Foo".to_vec(), b"FOO".to_vec(), 77).unwrap();
    assert_eq!(req.token_name, b"Foo".to_vec());
    assert_eq!(req.token_ticker, b"FOO".to_vec());
    assert_eq!(req.payment_amount, 77);
    assert!(!req.properties.can_freeze);
    assert!(!req.properties.can_wipe);
    assert!(!req.properties.can_pause);
    assert!(req.properties.can_change_owner);
    assert!(!req.properties.can_upgrade);
    assert!(req.properties.can_add_special_roles);
    assert_eq!(s.nft_token_name().as_slice(), b"Foo");
}

#[test]
fn reissue_after_success_rejected() {
    let mut s = issued();
    let r = s.issue_nft(b"Bar".to_vec(), b"BAR".to_vec(), 0);
    assert_eq!(r.unwrap_err(), Error::AlreadyIssued);
    assert_eq!(s.nft_token_name().as_slice(), b"Foo");
}

#[test]
fn successful_callback_sets_token_id() {
    let s = issued();
    assert_eq!(s.nft_token_id().as_slice(), b"FOO-abc123");
}

#[test]
fn failed_callback_refunds_native_and_allows_retry() {
    let mut s = fresh();
    s.issue_nft(b"Foo".to_vec(), b"FOO".to_vec(), 400).unwrap();
    let refund = s
        .issue_callback(IssueResult::Failed, Vec::new(), 400)
        .expect("a returned native amount must be refunded");
    assert_eq!(refund.to, Recipient::Operator);
    assert_eq!(refund.token_id, Vec::<u8>::new());
    assert_eq!(refund.nonce, 0);
    assert_eq!(refund.amount, 400);
    assert!(s.nft_token_id().is_empty());
    // the class is still unissued, so a new request is accepted
    assert!(s.issue_nft(b"Foo".to_vec(), b"FOO".to_vec(), 400).is_ok());
}

#[test]
fn failed_callback_without_native_return_refunds_nothing() {
    let mut s = fresh();
    s.issue_nft(b"Foo".to_vec(), b"FOO".to_vec(), 0).unwrap();
    assert!(s.issue_callback(IssueResult::Failed, Vec::new(), 0).is_none());
    s.issue_nft(b"Foo".to_vec(), b"FOO".to_vec(), 0).unwrap();
    // a returned non-native asset is deliberately not auto-refunded
    assert!(s
        .issue_callback(IssueResult::Failed, b"ABC-123456".to_vec(), 400)
        .is_none());
}

#[test]
fn set_local_roles_requires_issuance() {
    let s = fresh();
    assert_eq!(s.set_local_roles().unwrap_err(), Error::TokenNotIssued);
    let s = issued();
    let req = s.set_local_roles().unwrap();
    assert_eq!(req.token_id, b"FOO-abc123".to_vec());
}

#[test]
fn pause_and_resume() {
    let mut s = fresh();
    s.pause_minting();
    assert!(s.paused());
    // resuming before issuance is refused and changes nothing
    assert_eq!(s.start_minting().unwrap_err(), Error::TokenNotIssued);
    assert!(s.paused());

    let mut s = issued();
    s.pause_minting();
    assert!(s.paused());
    s.start_minting().unwrap();
    assert!(!s.paused());
}

#[test]
fn withdraw_zero_balance_rejected() {
    let s = fresh();
    assert_eq!(s.withdraw(None, 0).unwrap_err(), Error::NothingToWithdraw);
    assert_eq!(
        s.withdraw(Some(b"ABC-123456".to_vec()), 0).unwrap_err(),
        Error::NothingToWithdraw
    );
}

#[test]
fn withdraw_moves_whole_balance_to_operator() {
    let s = fresh();
    let mut contract_balance: u128 = 900;
    let mut operator_balance: u128 = 0;
    let p = s.withdraw(None, contract_balance).unwrap();
    assert_eq!(p.to, Recipient::Operator);
    assert_eq!(p.token_id, Vec::<u8>::new());
    assert_eq!(p.amount, 900);
    contract_balance -= p.amount;
    operator_balance += p.amount;
    assert_eq!(contract_balance, 0);
    assert_eq!(operator_balance, 900);

    let p = s.withdraw(Some(b"ABC-123456".to_vec()), 33).unwrap();
    assert_eq!(p.token_id, b"ABC-123456".to_vec());
    assert_eq!(p.amount, 33);
}
