use ed25519_dalek::{Signer, SigningKey};
use zendvo_time_lock::contract::{DataKey, TimeLockContract};
use zendvo_time_lock::events::{
    AnchorDepositSent, BankWithdrawalInitiated, Event, FeesCollected, PathPaymentExecuted, SlippageCheckFailed,
    SlippageConfigUpdated,
};
use zendvo_time_lock::payload::build_claim_payload;
use zendvo_time_lock::types::{Address, AddressKind, Error, GiftStatus, PriceCache};

const ORACLE_SEED: [u8; 32] = [7u8; 32];
const LIQUIDITY: i128 = 100_000_000;
const RATE: i128 = 1_000_000;

fn account(n: u8) -> Address {
    Address { kind: AddressKind::Account, key: [n; 32] }
}

fn oracle_key() -> SigningKey {
    SigningKey::from_bytes(&ORACLE_SEED)
}

fn setup() -> (TimeLockContract, Address) {
    let mut c = TimeLockContract::new();
    let admin = account(1);
    c.initialize(admin, oracle_key().verifying_key().to_bytes(), account(2)).unwrap();
    (c, admin)
}

fn sign_claim(claimant: &Address, hash: &str) -> [u8; 64] {
    let payload = build_claim_payload(claimant, &hash.to_string()).unwrap();
    oracle_key().sign(&payload).to_bytes()
}

fn claimed_gift(c: &mut TimeLockContract, amount: i128) -> u64 {
    let id = c.create_gift(account(3), amount, 0, "h".to_string()).unwrap();
    let claimant = account(4);
    let proof = sign_claim(&claimant, "h");
    c.claim_gift(claimant, id, &proof, 0).unwrap();
    id
}

#[test]
fn test_claim_gift() {
    let (mut c, _) = setup();
    let now: u64 = 1_000;
    let unlock_time = now + 100;
    let gift_id = c.create_gift(account(3), 10_000_000, unlock_time, "phone_hash".to_string()).unwrap();
    let claimant = account(4);
    let proof = sign_claim(&claimant, "phone_hash");
    let res = c.claim_gift(claimant, gift_id, &proof, now);
    assert!(res.is_err());
    let res = c.claim_gift(claimant, gift_id, &proof, unlock_time + 1);
    assert!(res.is_ok());
}

#[test]
fn test_withdraw_to_bank_success() {
    let (mut c, _) = setup();
    let gift_id = claimed_gift(&mut c, 10_000_000);
    let res = c.withdraw_to_bank(gift_id, "memo".to_string(), account(5), 0, RATE, RATE, LIQUIDITY);
    assert!(res.is_ok());
}

#[test]
fn test_withdraw_to_bank_slippage_fail() {
    let (mut c, admin) = setup();
    c.set_max_slippage(&admin, 50).unwrap();
    let gift_id = claimed_gift(&mut c, 10_000_000);
    let res = c.withdraw_to_bank(gift_id, "memo".to_string(), account(5), 0, RATE, 990_000, LIQUIDITY);
    assert!(res.is_err());
}

#[test]
fn test_withdraw_to_bank_insufficient_liquidity() {
    let (mut c, _) = setup();
    let gift_id = claimed_gift(&mut c, 200_000_000);
    let res = c.withdraw_to_bank(gift_id, "memo".to_string(), account(5), 0, RATE, RATE, LIQUIDITY);
    assert!(res.is_err());
}

#[test]
fn test_withdraw_to_bank_invalid_status() {
    let mut c = TimeLockContract::new();
    c.initialize(account(1), [0u8; 32], account(2)).unwrap();
    let gift_id = c.create_gift(account(3), 10_000_000, 0, "h".to_string()).unwrap();
    let res = c.withdraw_to_bank(gift_id, "h".to_string(), account(5), 0, RATE, RATE, LIQUIDITY);
    assert!(res.is_err());
}

#[test]
fn early_claim_fails_with_time_lock_even_with_valid_proof() {
    let (mut c, _) = setup();
    let id = c.create_gift(account(3), 5, 500, "x".to_string()).unwrap();
    let claimant = account(4);
    let proof = sign_claim(&claimant, "x");
    assert_eq!(c.claim_gift(claimant, id, &proof, 499), Err(Error::TimeLockActive));
    assert_eq!(c.claim_gift(claimant, id, &[0u8; 64], 10), Err(Error::TimeLockActive));
    assert_eq!(c.get_gift(id).unwrap().status, GiftStatus::Pending);
}

#[test]
fn second_claim_fails_and_keeps_first_claimant() {
    let (mut c, _) = setup();
    let id = c.create_gift(account(3), 5, 0, "x".to_string()).unwrap();
    let first = account(4);
    let second = account(6);
    c.claim_gift(first, id, &sign_claim(&first, "x"), 0).unwrap();
    assert_eq!(c.claim_gift(second, id, &sign_claim(&second, "x"), 0), Err(Error::InvalidStatus));
    assert_eq!(c.claim_gift(first, id, &sign_claim(&first, "x"), 0), Err(Error::InvalidStatus));
    let g = c.get_gift(id).unwrap();
    assert_eq!(g.status, GiftStatus::Claimed);
    assert_eq!(g.claimant, Some(first));
}

#[test]
fn proof_for_another_claimant_or_hash_is_rejected() {
    let (mut c, _) = setup();
    let id = c.create_gift(account(3), 5, 0, "x".to_string()).unwrap();
    let claimant = account(4);
    let other = account(6);
    assert_eq!(c.claim_gift(claimant, id, &sign_claim(&other, "x"), 0), Err(Error::InvalidProof));
    assert_eq!(c.claim_gift(claimant, id, &sign_claim(&claimant, "y"), 0), Err(Error::InvalidProof));
    let stranger = SigningKey::from_bytes(&[8u8; 32]);
    let payload = build_claim_payload(&claimant, &"x".to_string()).unwrap();
    assert_eq!(c.claim_gift(claimant, id, &stranger.sign(&payload).to_bytes(), 0), Err(Error::InvalidProof));
    assert_eq!(c.get_gift(id).unwrap().status, GiftStatus::Pending);
    assert!(c.claim_gift(claimant, id, &sign_claim(&claimant, "x"), 0).is_ok());
}

#[test]
fn claim_without_configured_key_is_rejected() {
    let mut c = TimeLockContract::new();
    let id = c.create_gift(account(3), 5, 0, "x".to_string()).unwrap();
    let claimant = account(4);
    assert_eq!(c.claim_gift(claimant, id, &sign_claim(&claimant, "x"), 0), Err(Error::InvalidProof));
}

#[test]
fn claim_payload_is_xdr_of_address_then_string() {
    let contract_addr = Address { kind: AddressKind::Contract, key: [0xab; 32] };
    let p = build_claim_payload(&contract_addr, &"hello".to_string()).unwrap();
    let mut expected: Vec<u8> = vec![0, 0, 0, 18, 0, 0, 0, 1];
    expected.extend_from_slice(&[0xab; 32]);
    expected.extend_from_slice(&[0, 0, 0, 14, 0, 0, 0, 5]);
    expected.extend_from_slice(b"hello");
    expected.extend_from_slice(&[0, 0, 0]);
    assert_eq!(p, expected);

    let p = build_claim_payload(&account(2), &"abcd".to_string()).unwrap();
    let mut expected: Vec<u8> = vec![0, 0, 0, 18, 0, 0, 0, 0, 0, 0, 0, 0];
    expected.extend_from_slice(&[2; 32]);
    expected.extend_from_slice(&[0, 0, 0, 14, 0, 0, 0, 4]);
    expected.extend_from_slice(b"abcd");
    assert_eq!(p, expected);
}

#[test]
fn slippage_within_threshold_passes_and_beyond_fails_with_event() {
    let (mut c, admin) = setup();
    c.set_max_slippage(&admin, 50).unwrap();
    assert_eq!(c.validate_slippage(1_000_000, 1_005_000), Ok(()));
    assert_eq!(c.validate_slippage(1_000_000, 995_000), Ok(()));
    assert_eq!(c.validate_slippage(1_000_000, 1_005_099), Ok(()));
    let before = c.events.len();
    assert_eq!(c.validate_slippage(1_000_000, 1_005_100), Err(Error::SlippageExceeded));
    assert_eq!(c.events.len(), before + 1);
    assert_eq!(
        c.events[before],
        Event::SlippageCheckFailed(SlippageCheckFailed { expected_rate: 1_000_000, actual_rate: 1_005_100, threshold: 50 })
    );
}

#[test]
fn slippage_bounds_only_the_oracle_rate() {
    let (mut c, admin) = setup();
    assert_eq!(c.validate_slippage(0, 1_000_000), Err(Error::InvalidExchangeRate));
    assert_eq!(c.validate_slippage(-3, 1_000_000), Err(Error::InvalidExchangeRate));
    let before = c.events.len();
    assert_eq!(c.validate_slippage(1_000_000, -1), Err(Error::SlippageExceeded));
    assert_eq!(c.validate_slippage(1_000_000, 0), Err(Error::SlippageExceeded));
    assert_eq!(c.validate_slippage(1_000_000, i128::MIN), Err(Error::SlippageExceeded));
    assert_eq!(c.validate_slippage(1_000_000, i128::MAX), Err(Error::SlippageExceeded));
    assert_eq!(c.events.len(), before + 4);
    assert_eq!(
        c.events[before + 1],
        Event::SlippageCheckFailed(SlippageCheckFailed { expected_rate: 1_000_000, actual_rate: 0, threshold: 100 })
    );
    c.set_max_slippage(&admin, 50).unwrap();
    let max_rate: i128 = 1_000_000_000_000_000;
    assert_eq!(c.validate_slippage(max_rate, max_rate + 1), Ok(()));
    assert_eq!(c.validate_slippage(max_rate, max_rate - 10), Ok(()));
    assert_eq!(c.validate_slippage(max_rate, max_rate + 10), Ok(()));
    let mut fresh = TimeLockContract::new();
    assert_eq!(fresh.validate_slippage(1_000_000, 1_000_000), Err(Error::Unauthorized));
}

#[test]
fn settlement_at_zero_rate_is_refused_with_audit_event() {
    let (mut c, _) = setup();
    let id = claimed_gift(&mut c, 10_000_000);
    let res = c.withdraw_to_bank(id, "memo".to_string(), account(5), 0, RATE, 0, LIQUIDITY);
    assert_eq!(res, Err(Error::SlippageExceeded));
    assert_eq!(c.get_gift(id).unwrap().status, GiftStatus::Claimed);
    assert_eq!(
        c.events.last(),
        Some(&Event::SlippageCheckFailed(SlippageCheckFailed { expected_rate: RATE, actual_rate: 0, threshold: 100 }))
    );
}

#[test]
fn oracle_cache_serves_until_max_age_then_requeries() {
    let (mut c, admin) = setup();
    c.set_max_oracle_age(&admin, 60).unwrap();
    let pair = "USDC/NGN".to_string();
    assert_eq!(c.check_exchange_rate(&pair, 1_000, 1_200_000), Ok(1_200_000));
    assert_eq!(c.price_cache, Some(PriceCache { rate: 1_200_000, timestamp: 1_000 }));
    let events = c.events.len();
    assert_eq!(c.check_exchange_rate(&pair, 1_059, 1_500_000), Ok(1_200_000));
    assert_eq!(c.events.len(), events);
    assert_eq!(c.check_exchange_rate(&pair, 1_060, 1_500_000), Ok(1_500_000));
    assert_eq!(c.price_cache, Some(PriceCache { rate: 1_500_000, timestamp: 1_060 }));
    assert_eq!(c.events.len(), events + 1);
    match &c.events[events] {
        Event::OracleRateQueried(q) => {
            assert_eq!(q.timestamp, 1_060);
            assert_eq!(q.rate, 1_500_000);
            assert_eq!(q.source, "oracle");
        }
        other => panic!("unexpected event {:?}", other),
    }
}

#[test]
fn oracle_paused_and_bad_quotes() {
    let (mut c, admin) = setup();
    let pair = "USDC/NGN".to_string();
    assert_eq!(c.check_exchange_rate(&pair, 0, 0), Err(Error::InvalidExchangeRate));
    assert_eq!(c.price_cache, None);
    c.pause_oracle_checks(&admin).unwrap();
    assert_eq!(c.check_exchange_rate(&pair, 0, RATE), Err(Error::OraclePaused));
    c.resume_oracle_checks(&admin).unwrap();
    assert_eq!(c.check_exchange_rate(&pair, 0, RATE), Ok(RATE));
}

#[test]
fn withdraw_with_insufficient_liquidity_keeps_claimed() {
    let (mut c, _) = setup();
    let id = claimed_gift(&mut c, 200_000_000);
    let events = c.events.len();
    let res = c.withdraw_to_bank(id, "memo".to_string(), account(5), 0, RATE, RATE, LIQUIDITY);
    assert_eq!(res, Err(Error::InsufficientLiquidity));
    assert_eq!(c.get_gift(id).unwrap().status, GiftStatus::Claimed);
    assert_eq!(c.events.len(), events);
}

#[test]
fn end_to_end_time_lock_then_settlement() {
    let (mut c, _) = setup();
    let t: u64 = 10_000;
    let id = c.create_gift(account(3), 10_000_000, t + 100, "phone".to_string()).unwrap();
    let claimant = account(4);
    let proof = sign_claim(&claimant, "phone");
    assert_eq!(c.claim_gift(claimant, id, &proof, t), Err(Error::TimeLockActive));
    assert_eq!(c.claim_gift(claimant, id, &proof, t + 101), Ok(()));
    assert_eq!(c.get_gift(id).unwrap().status, GiftStatus::Claimed);
    let start = c.events.len();
    let dest = account(9);
    assert_eq!(c.withdraw_to_bank(id, "memo".to_string(), dest, t + 101, RATE, RATE, LIQUIDITY), Ok(()));
    assert_eq!(c.get_gift(id).unwrap().status, GiftStatus::Withdrawn);
    assert_eq!(c.events.len(), start + 5);
    assert!(matches!(c.events[start], Event::OracleRateQueried(_)));
    assert_eq!(
        c.events[start + 1],
        Event::BankWithdrawalInitiated(BankWithdrawalInitiated { gift_id: id, amount_usdc: 10_000_000, expected_ngn: 9_975_000 })
    );
    assert_eq!(
        c.events[start + 2],
        Event::PathPaymentExecuted(PathPaymentExecuted {
            usdc_sent: 9_975_000,
            ngn_received: 9_975_000,
            exchange_rate: RATE,
            path: Vec::new(),
        })
    );
    assert_eq!(
        c.events[start + 3],
        Event::AnchorDepositSent(AnchorDepositSent { anchor_address: dest, ngn_amount: 9_975_000, memo: "memo".to_string() })
    );
    assert_eq!(c.events[start + 4], Event::FeesCollected(FeesCollected { gift_id: id, fee_amount_usdc: 25_000 }));
    assert_eq!(
        c.withdraw_to_bank(id, "memo".to_string(), dest, t + 101, RATE, RATE, LIQUIDITY),
        Err(Error::InvalidStatus)
    );
}

#[test]
fn end_to_end_slippage_exceeded_keeps_claimed() {
    let (mut c, admin) = setup();
    c.set_max_slippage(&admin, 50).unwrap();
    let id = claimed_gift(&mut c, 10_000_000);
    let res = c.withdraw_to_bank(id, "memo".to_string(), account(5), 0, RATE, 990_000, LIQUIDITY);
    assert_eq!(res, Err(Error::SlippageExceeded));
    assert_eq!(c.get_gift(id).unwrap().status, GiftStatus::Claimed);
    assert_eq!(
        c.events.last(),
        Some(&Event::SlippageCheckFailed(SlippageCheckFailed { expected_rate: RATE, actual_rate: 990_000, threshold: 50 }))
    );
}

#[test]
fn settlement_at_other_rate_rounds_down() {
    let (mut c, _) = setup();
    let id = claimed_gift(&mut c, 1_001);
    assert_eq!(c.withdraw_to_bank(id, "m".to_string(), account(5), 0, 1_500_000, 1_500_001, LIQUIDITY), Ok(()));
    let n = c.events.len();
    // fee 1_001 / 400 = 2, net 999, value 999 * 1_500_001 / 1_000_000 = 1498
    assert_eq!(c.events[n - 1], Event::FeesCollected(FeesCollected { gift_id: id, fee_amount_usdc: 2 }));
    assert_eq!(
        c.events[n - 4],
        Event::BankWithdrawalInitiated(BankWithdrawalInitiated { gift_id: id, amount_usdc: 1_001, expected_ngn: 1_498 })
    );
}

#[test]
fn withdraw_errors() {
    let (mut c, _) = setup();
    assert_eq!(
        c.withdraw_to_bank(7, "m".to_string(), account(5), 0, RATE, RATE, LIQUIDITY),
        Err(Error::NotFound)
    );
    let id = claimed_gift(&mut c, i128::MAX / 2);
    assert_eq!(
        c.withdraw_to_bank(id, "m".to_string(), account(5), 0, RATE, RATE, i128::MAX),
        Err(Error::InvalidExchangeRate)
    );
    assert_eq!(c.get_gift(id).unwrap().status, GiftStatus::Claimed);
}

#[test]
fn gift_ids_count_up_from_one() {
    let mut c = TimeLockContract::new();
    assert_eq!(c.create_gift(account(3), 1, 0, "a".to_string()), Ok(1));
    assert_eq!(c.create_gift(account(3), 2, 0, "b".to_string()), Ok(2));
    assert_eq!(c.create_gift(account(3), 0, 0, "c".to_string()), Err(Error::InvalidAmount));
    assert_eq!(c.create_gift(account(3), -5, 0, "c".to_string()), Err(Error::InvalidAmount));
    assert_eq!(c.create_gift(account(3), 3, 0, "c".to_string()), Ok(3));
    assert!(c.get_gift(0).is_none());
    assert!(c.get_gift(4).is_none());
    assert_eq!(c.get_gift(2).unwrap().amount, 2);
}

#[test]
fn admin_gate_and_initialization() {
    let (mut c, admin) = setup();
    assert_eq!(c.initialize(account(9), [0u8; 32], account(9)), Err(Error::AlreadyInitialized));
    let intruder = account(9);
    assert_eq!(c.set_max_slippage(&intruder, 10), Err(Error::Unauthorized));
    assert_eq!(c.set_max_oracle_age(&intruder, 10), Err(Error::Unauthorized));
    assert_eq!(c.pause_oracle_checks(&intruder), Err(Error::Unauthorized));
    assert_eq!(c.resume_oracle_checks(&intruder), Err(Error::Unauthorized));
    assert_eq!(c.set_oracle_address(&intruder, intruder), Err(Error::Unauthorized));
    assert_eq!(c.set_max_slippage(&admin, 1_001), Err(Error::InvalidSlippageConfig));
    assert_eq!(c.get_slippage_config().unwrap().max_slippage_bps, 100);
    assert_eq!(c.set_max_slippage(&admin, 1_000), Ok(()));
    assert_eq!(
        c.events.last(),
        Some(&Event::SlippageConfigUpdated(SlippageConfigUpdated { old_slippage: 100, new_slippage: 1_000, admin }))
    );
    let status = c.get_oracle_status().unwrap();
    assert_eq!(status.oracle_address, account(2));
    assert_eq!(status.max_oracle_age, 300);
    assert!(!status.is_paused);
    assert_eq!(c.set_oracle_address(&admin, account(8)), Ok(()));
    assert_eq!(c.get_oracle_status().unwrap().oracle_address, account(8));
    let fresh = TimeLockContract::new();
    assert_eq!(fresh.get_oracle_status(), Err(Error::Unauthorized));
    assert_eq!(fresh.get_slippage_config(), Err(Error::Unauthorized));
}

#[test]
fn store_reports_its_records() {
    let mut c = TimeLockContract::new();
    assert!(!c.has_admin());
    assert!(!c.has(DataKey::Admin));
    assert!(c.has(DataKey::NextGiftId));
    assert!(!c.has(DataKey::Gift(1)));
    assert_eq!(c.get_next_gift_id(), 1);
    c.initialize(account(1), [5u8; 32], account(2)).unwrap();
    assert!(c.has_admin());
    assert_eq!(c.get_admin(), Some(account(1)));
    assert_eq!(c.get_oracle_auth_key(), Some([5u8; 32]));
    assert_eq!(c.get_oracle_config().unwrap().oracle_address, account(2));
    assert!(c.has(DataKey::OracleConfig) && c.has(DataKey::SlippageConfig) && c.has(DataKey::OracleAuthKey));
    c.create_gift(account(3), 9, 0, "h".to_string()).unwrap();
    assert!(c.has(DataKey::Gift(1)));
    assert!(!c.has(DataKey::Gift(2)));
    assert_eq!(c.get_next_gift_id(), 2);
    assert!(!c.has(DataKey::PriceCache));
    c.check_exchange_rate(&"USDC/NGN".to_string(), 3, RATE).unwrap();
    assert_eq!(c.get_price_cache(), Some(PriceCache { rate: RATE, timestamp: 3 }));
}
