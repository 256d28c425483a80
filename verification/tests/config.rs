use transfer_fee_collector::address::find_collector_address;
use transfer_fee_collector::{
    Address, Caller, FeeCollector, FeeConfigUpdatedEvent, Initialize, SetTokenBlacklist,
    TokenBlacklistedEvent, TransferFeeError, UpdateFeeConfig,
};

fn initialize(
    store: &mut Option<FeeCollector>,
    program_id: &Address,
    at: &Address,
    authority: &Caller,
    fee_recipient: &Address,
    fee_bps: u16,
) -> Result<(), TransferFeeError> {
    let accounts = Initialize {
        program_id: *program_id,
        fee_collector: *at,
        authority: *authority,
        fee_recipient: *fee_recipient,
    };
    transfer_fee_collector::initialize(store, &accounts, fee_bps)
}

fn update_fee_config(
    cfg: &mut FeeCollector,
    program_id: &Address,
    at: &Address,
    authority: &Caller,
    new_fee_bps: u16,
    new_fee_recipient: Address,
) -> Result<FeeConfigUpdatedEvent, TransferFeeError> {
    let accounts =
        UpdateFeeConfig { program_id: *program_id, fee_collector: *at, authority: *authority };
    transfer_fee_collector::update_fee_config(cfg, &accounts, new_fee_bps, new_fee_recipient)
}

fn set_token_blacklist(
    cfg: &mut FeeCollector,
    program_id: &Address,
    at: &Address,
    authority: &Caller,
    token_mint: Address,
    blacklisted: bool,
) -> Result<TokenBlacklistedEvent, TransferFeeError> {
    let accounts =
        SetTokenBlacklist { program_id: *program_id, fee_collector: *at, authority: *authority };
    transfer_fee_collector::set_token_blacklist(cfg, &accounts, token_mint, blacklisted)
}

fn key(n: u8) -> Address {
    Address::new([n; 32])
}

fn signer(n: u8) -> Caller {
    Caller { key: key(n), is_signer: true }
}

const PROGRAM: u8 = 9;
const AUTHORITY: u8 = 1;
const RECIPIENT: u8 = 2;

fn record(fee_bps: u16) -> (FeeCollector, Address) {
    let (at, _) = find_collector_address(&key(PROGRAM)).unwrap();
    let mut store = None;
    initialize(&mut store, &key(PROGRAM), &at, &signer(AUTHORITY), &key(RECIPIENT), fee_bps)
        .unwrap();
    (store.unwrap(), at)
}

#[test]
fn initialize_writes_the_record() {
    let (at, bump) = find_collector_address(&key(PROGRAM)).unwrap();
    let mut store = None;
    let r = initialize(&mut store, &key(PROGRAM), &at, &signer(AUTHORITY), &key(RECIPIENT), 250);
    assert_eq!(r, Ok(()));
    assert_eq!(
        store,
        Some(FeeCollector {
            authority: key(AUTHORITY),
            fee_recipient: key(RECIPIENT),
            fee_bps: 250,
            bump,
            blacklisted_tokens: vec![],
        })
    );
}

#[test]
fn initialize_takes_any_rate() {
    let (cfg, _) = record(u16::MAX);
    assert_eq!(cfg.fee_bps, u16::MAX);
}

#[test]
fn initialize_twice_is_refused() {
    let (cfg, at) = record(250);
    let mut store = Some(cfg.clone());
    let r = initialize(&mut store, &key(PROGRAM), &at, &signer(7), &key(8), 10);
    assert_eq!(r, Err(TransferFeeError::AlreadyInitialized));
    assert_eq!(store, Some(cfg));
}

#[test]
fn initialize_at_another_address_is_refused() {
    let mut store = None;
    let r = initialize(&mut store, &key(PROGRAM), &key(50), &signer(AUTHORITY), &key(2), 250);
    assert_eq!(r, Err(TransferFeeError::AddressMismatch));
    assert_eq!(store, None);
}

#[test]
fn initialize_without_signature_is_refused() {
    let (at, _) = find_collector_address(&key(PROGRAM)).unwrap();
    let mut store = None;
    let caller = Caller { key: key(AUTHORITY), is_signer: false };
    let r = initialize(&mut store, &key(PROGRAM), &at, &caller, &key(RECIPIENT), 250);
    assert_eq!(r, Err(TransferFeeError::Unauthorized));
    assert_eq!(store, None);
}

#[test]
fn update_overwrites_rate_and_recipient() {
    let (mut cfg, at) = record(250);
    let r = update_fee_config(&mut cfg, &key(PROGRAM), &at, &signer(AUTHORITY), 1000, key(3));
    assert_eq!(r, Ok(FeeConfigUpdatedEvent { new_fee_bps: 1000, new_fee_recipient: key(3) }));
    assert_eq!(cfg.fee_bps, 1000);
    assert_eq!(cfg.fee_recipient, key(3));
    assert_eq!(cfg.authority, key(AUTHORITY));
}

#[test]
fn update_above_the_ceiling_is_refused() {
    let (mut cfg, at) = record(250);
    let before = cfg.clone();
    let r = update_fee_config(&mut cfg, &key(PROGRAM), &at, &signer(AUTHORITY), 1001, key(3));
    assert_eq!(r, Err(TransferFeeError::FeeTooHigh));
    assert_eq!(cfg, before);
    assert_eq!(cfg.fee_bps, 250);
}

#[test]
fn update_to_the_null_recipient_is_refused() {
    let (mut cfg, at) = record(250);
    let before = cfg.clone();
    let r =
        update_fee_config(&mut cfg, &key(PROGRAM), &at, &signer(AUTHORITY), 10, Address::null());
    assert_eq!(r, Err(TransferFeeError::InvalidFeeRecipient));
    assert_eq!(cfg, before);
    let r =
        update_fee_config(&mut cfg, &key(PROGRAM), &at, &signer(AUTHORITY), 1001, Address::null());
    assert_eq!(r, Err(TransferFeeError::FeeTooHigh));
}

#[test]
fn update_by_a_stranger_is_refused() {
    let (mut cfg, at) = record(250);
    let before = cfg.clone();
    let r = update_fee_config(&mut cfg, &key(PROGRAM), &at, &signer(66), 10, key(3));
    assert_eq!(r, Err(TransferFeeError::Unauthorized));
    let unsigned = Caller { key: key(AUTHORITY), is_signer: false };
    let r = update_fee_config(&mut cfg, &key(PROGRAM), &at, &unsigned, 10, key(3));
    assert_eq!(r, Err(TransferFeeError::Unauthorized));
    let r = update_fee_config(&mut cfg, &key(PROGRAM), &at, &signer(66), 1001, key(3));
    assert_eq!(r, Err(TransferFeeError::Unauthorized));
    assert_eq!(cfg, before);
}

#[test]
fn update_of_an_unbound_record_is_refused() {
    let (mut cfg, at) = record(250);
    let before = cfg.clone();
    let r = update_fee_config(&mut cfg, &key(PROGRAM), &key(50), &signer(AUTHORITY), 10, key(3));
    assert_eq!(r, Err(TransferFeeError::AddressMismatch));
    let r = update_fee_config(&mut cfg, &key(PROGRAM + 1), &at, &signer(AUTHORITY), 10, key(3));
    assert_eq!(r, Err(TransferFeeError::AddressMismatch));
    assert_eq!(cfg, before);
    cfg.bump = cfg.bump.wrapping_sub(1);
    let r = update_fee_config(&mut cfg, &key(PROGRAM), &at, &signer(AUTHORITY), 10, key(3));
    assert_eq!(r, Err(TransferFeeError::AddressMismatch));
}

#[test]
fn blacklisting_twice_lists_once() {
    let (mut cfg, at) = record(250);
    let first = set_token_blacklist(&mut cfg, &key(PROGRAM), &at, &signer(AUTHORITY), key(30), true);
    assert_eq!(first, Ok(TokenBlacklistedEvent { token_mint: key(30), blacklisted: true }));
    let after_first = cfg.clone();
    let second =
        set_token_blacklist(&mut cfg, &key(PROGRAM), &at, &signer(AUTHORITY), key(30), true);
    assert_eq!(second, first);
    assert_eq!(cfg, after_first);
    assert_eq!(cfg.blacklisted_tokens, vec![key(30)]);
    assert!(cfg.is_blacklisted(&key(30)));
    assert_eq!(cfg.position(&key(30)), Some(0));
}

#[test]
fn unlisting_takes_the_asset_off() {
    let (mut cfg, at) = record(250);
    for n in [30u8, 31, 32] {
        set_token_blacklist(&mut cfg, &key(PROGRAM), &at, &signer(AUTHORITY), key(n), true)
            .unwrap();
    }
    let r = set_token_blacklist(&mut cfg, &key(PROGRAM), &at, &signer(AUTHORITY), key(31), false);
    assert_eq!(r, Ok(TokenBlacklistedEvent { token_mint: key(31), blacklisted: false }));
    assert_eq!(cfg.blacklisted_tokens, vec![key(30), key(32)]);
    assert!(!cfg.is_blacklisted(&key(31)));
    assert!(cfg.is_blacklisted(&key(30)));
    assert!(cfg.is_blacklisted(&key(32)));
}

#[test]
fn unlisting_an_unlisted_asset_changes_nothing() {
    let (mut cfg, at) = record(250);
    set_token_blacklist(&mut cfg, &key(PROGRAM), &at, &signer(AUTHORITY), key(30), true).unwrap();
    let before = cfg.clone();
    let r = set_token_blacklist(&mut cfg, &key(PROGRAM), &at, &signer(AUTHORITY), key(31), false);
    assert_eq!(r, Ok(TokenBlacklistedEvent { token_mint: key(31), blacklisted: false }));
    assert_eq!(cfg, before);
}

#[test]
fn blacklisting_by_a_stranger_is_refused() {
    let (mut cfg, at) = record(250);
    let before = cfg.clone();
    let r = set_token_blacklist(&mut cfg, &key(PROGRAM), &at, &signer(66), key(30), true);
    assert_eq!(r, Err(TransferFeeError::Unauthorized));
    assert_eq!(cfg, before);
    let r = set_token_blacklist(&mut cfg, &key(PROGRAM), &key(51), &signer(AUTHORITY), key(30), true);
    assert_eq!(r, Err(TransferFeeError::AddressMismatch));
    assert_eq!(cfg, before);
}

#[test]
fn each_error_has_its_message() {
    assert_eq!(TransferFeeError::FeeTooHigh.message(), "Fee cannot exceed 10% (1000 BPS)");
    assert_eq!(TransferFeeError::InvalidFeeRecipient.message(), "Invalid fee recipient address");
    assert_eq!(TransferFeeError::TokenBlacklisted.message(), "Token is blacklisted");
    assert_eq!(TransferFeeError::InsufficientBalance.message(), "Insufficient balance");
    assert_eq!(TransferFeeError::Unauthorized.message(), "Caller is not authorized");
    assert_eq!(
        TransferFeeError::AddressMismatch.message(),
        "Record is not at its derived address"
    );
    assert_eq!(TransferFeeError::FeeRecipientMismatch.message(), "Fee recipient does not match");
    assert_eq!(TransferFeeError::ArithmeticOverflow.message(), "Arithmetic overflow");
    assert_eq!(TransferFeeError::AlreadyInitialized.message(), "Record is already initialized");
}

#[test]
fn well_formed_means_no_asset_twice() {
    let (mut cfg, _) = record(250);
    assert!(cfg.is_well_formed());
    cfg.blacklisted_tokens = vec![key(30), key(31), key(32)];
    assert!(cfg.is_well_formed());
    cfg.blacklisted_tokens = vec![key(30), key(31), key(30)];
    assert!(!cfg.is_well_formed());
    cfg.blacklisted_tokens = vec![key(31), key(30), key(30)];
    assert!(!cfg.is_well_formed());
}
