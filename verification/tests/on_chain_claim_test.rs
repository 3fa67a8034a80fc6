use dharitri_contracts::on_chain_claim::{
    claim_record, get_missed_epochs, repair_record, AddressInfo, ClaimContext, ClaimError,
    OnChainClaimContract, OnChainClaimStorage, MAX_REPAIR_GAP, SFT_AMOUNT,
};
use dharitri_contracts::payment::DctTokenPayment;
use dharitri_contracts::amount::Amount;

fn amt(x: u128) -> Amount {
    Amount::from_u128(x)
}

const REPAIR_TOKEN: &[u8] = b"REPAIR-a1b2c3";

fn user() -> Vec<u8> {
    b"user".to_vec()
}

fn owner() -> Vec<u8> {
    b"owner".to_vec()
}

fn ctx(epoch: u64) -> ClaimContext {
    ClaimContext { caller_is_smart_contract: false, caller_in_same_shard: true, current_epoch: epoch }
}

fn deployed() -> OnChainClaimStorage {
    let mut c = OnChainClaimStorage::new();
    c.init(REPAIR_TOKEN.to_vec(), owner()).unwrap();
    c
}

fn info_of(c: &OnChainClaimStorage, who: &Vec<u8>) -> AddressInfo {
    c.address_info(who).unwrap()
}

#[test]
fn init_accepts_valid_token_and_makes_deployer_admin() {
    let c = deployed();
    assert_eq!(c.repair_streak_token_identifier(), REPAIR_TOKEN.to_vec());
    assert!(c.is_admin(&owner()));
    assert!(!c.is_admin(&user()));
}

#[test]
fn init_refuses_invalid_token_ids() {
    for bad in [
        &b"REPAIR"[..],
        &b"repair-a1b2c3"[..],
        &b"REPAIR_a1b2c3"[..],
        &b"REPAIR-A1B2C3"[..],
        &b"RE-a1b2c3"[..],
        &b"REPAIRTOKENX-a1b2c3"[..],
    ] {
        let mut c = OnChainClaimStorage::new();
        assert_eq!(c.init(bad.to_vec(), owner()), Err(ClaimError::InvalidTokenId));
        assert!(!c.is_admin(&owner()));
    }
    let mut c = OnChainClaimStorage::new();
    assert_eq!(c.init(b"ABC-000000".to_vec(), owner()), Ok(()));
    let mut c = OnChainClaimStorage::new();
    assert_eq!(c.init(b"ABCDEFGHIJ-zzzzzz".to_vec(), owner()), Ok(()));
}

#[test]
fn first_claim_starts_all_counts() {
    let mut c = deployed();
    c.claim(&user(), &ctx(10)).unwrap();
    assert_eq!(info_of(&c, &user()), AddressInfo::new(1, 10, 1, 1));
}

#[test]
fn claim_twice_in_same_epoch_is_refused() {
    let mut c = deployed();
    c.claim(&user(), &ctx(10)).unwrap();
    assert_eq!(c.claim(&user(), &ctx(10)), Err(ClaimError::EpochAlreadyClaimed));
    assert_eq!(c.claim(&user(), &ctx(9)), Err(ClaimError::EpochAlreadyClaimed));
    assert_eq!(info_of(&c, &user()), AddressInfo::new(1, 10, 1, 1));
}

#[test]
fn consecutive_claims_extend_streak_and_gap_restarts_it() {
    let mut c = deployed();
    c.claim(&user(), &ctx(10)).unwrap();
    c.claim(&user(), &ctx(11)).unwrap();
    c.claim(&user(), &ctx(12)).unwrap();
    assert_eq!(info_of(&c, &user()), AddressInfo::new(3, 12, 3, 3));
    c.claim(&user(), &ctx(20)).unwrap();
    assert_eq!(info_of(&c, &user()), AddressInfo::new(1, 20, 4, 3));
}

#[test]
fn smart_contracts_and_other_shards_cannot_claim() {
    let mut c = deployed();
    let sc = ClaimContext { caller_is_smart_contract: true, caller_in_same_shard: true, current_epoch: 1 };
    assert_eq!(c.claim(&user(), &sc), Err(ClaimError::SmartContractCaller));
    let far = ClaimContext { caller_is_smart_contract: false, caller_in_same_shard: false, current_epoch: 1 };
    assert_eq!(c.claim(&user(), &far), Err(ClaimError::WrongShard));
    assert_eq!(c.address_info(&user()), None);
}

fn repair_payment(amount: u64) -> DctTokenPayment {
    DctTokenPayment::new(REPAIR_TOKEN.to_vec(), 1, amt(u128::from(amount)))
}

#[test]
fn repair_fills_missed_epochs() {
    let mut c = deployed();
    c.claim(&user(), &ctx(10)).unwrap();
    c.claim(&user(), &ctx(11)).unwrap();
    // epochs 12, 13, 14 missed; repair in 15
    let burnt = c.claim_and_repair(&user(), &ctx(15), repair_payment(SFT_AMOUNT)).unwrap();
    assert_eq!(burnt.amount, amt(SFT_AMOUNT as u128));
    assert_eq!(burnt.token_identifier, REPAIR_TOKEN.to_vec());
    assert_eq!(info_of(&c, &user()), AddressInfo::new(6, 15, 6, 6));
}

#[test]
fn repair_equals_claiming_each_missed_epoch() {
    let mut repaired = deployed();
    repaired.claim(&user(), &ctx(10)).unwrap();
    repaired.claim_and_repair(&user(), &ctx(14), repair_payment(SFT_AMOUNT)).unwrap();
    let mut claimed = deployed();
    for e in 10..=14 {
        claimed.claim(&user(), &ctx(e)).unwrap();
    }
    assert_eq!(info_of(&repaired, &user()), info_of(&claimed, &user()));
}

#[test]
fn repair_refusals() {
    let mut c = deployed();
    assert_eq!(
        c.claim_and_repair(&user(), &ctx(5), repair_payment(SFT_AMOUNT)),
        Err(ClaimError::UnknownAddress)
    );
    c.claim(&user(), &ctx(10)).unwrap();
    assert_eq!(
        c.claim_and_repair(&user(), &ctx(11), repair_payment(SFT_AMOUNT)),
        Err(ClaimError::CannotRepairEpoch)
    );
    assert_eq!(
        c.claim_and_repair(&user(), &ctx(10 + MAX_REPAIR_GAP + 2), repair_payment(SFT_AMOUNT)),
        Err(ClaimError::CannotRepairEpoch)
    );
    assert_eq!(
        c.claim_and_repair(&user(), &ctx(13), repair_payment(2)),
        Err(ClaimError::BadPaymentAmount)
    );
    assert_eq!(
        c.claim_and_repair(&user(), &ctx(13), DctTokenPayment::new(b"OTHER-a1b2c3".to_vec(), 1, amt(1))),
        Err(ClaimError::BadPaymentToken)
    );
    assert_eq!(info_of(&c, &user()), AddressInfo::new(1, 10, 1, 1));
    // the largest gap that can be repaired
    assert!(c.claim_and_repair(&user(), &ctx(10 + MAX_REPAIR_GAP + 1), repair_payment(SFT_AMOUNT)).is_ok());
    assert_eq!(info_of(&c, &user()), AddressInfo::new(7, 16, 7, 7));
}

#[test]
fn admin_updates_state_and_repair_token() {
    let mut c = deployed();
    assert_eq!(c.update_state(&user(), &user(), true, 1, 2, 3, 4), Err(ClaimError::NotAdmin));
    assert_eq!(c.update_state(&owner(), &user(), false, 1, 2, 3, 4), Err(ClaimError::WrongShard));
    assert_eq!(c.update_state(&owner(), &user(), true, 1, 2, 3, 4), Ok(()));
    assert_eq!(info_of(&c, &user()), AddressInfo::new(1, 2, 3, 4));

    assert_eq!(c.set_repair_streak_token_id(&user(), b"NEW-abcdef".to_vec()), Err(ClaimError::NotAdmin));
    assert_eq!(c.set_repair_streak_token_id(&owner(), b"bad".to_vec()), Err(ClaimError::InvalidTokenId));
    assert_eq!(c.repair_streak_token_identifier(), REPAIR_TOKEN.to_vec());
    assert_eq!(c.set_repair_streak_token_id(&owner(), b"NEW-abcdef".to_vec()), Ok(()));
    assert_eq!(c.repair_streak_token_identifier(), b"NEW-abcdef".to_vec());
}

#[test]
fn upgrade_keeps_state() {
    let mut c = deployed();
    c.claim(&user(), &ctx(3)).unwrap();
    c.upgrade();
    assert_eq!(info_of(&c, &user()), AddressInfo::new(1, 3, 1, 1));
}

#[test]
fn pure_record_updates() {
    assert_eq!(get_missed_epochs(10, 10), 0);
    assert_eq!(get_missed_epochs(9, 10), 0);
    assert_eq!(get_missed_epochs(11, 10), 0);
    assert_eq!(get_missed_epochs(14, 10), 3);
    assert_eq!(claim_record(None, 7), Ok(AddressInfo::new_with_epoch(7)));
    assert_eq!(
        claim_record(Some(AddressInfo::new(4, 6, 10, 9)), 7),
        Ok(AddressInfo::new(5, 7, 11, 9))
    );
    assert_eq!(
        claim_record(Some(AddressInfo::new(9, 6, 10, 9)), 7),
        Ok(AddressInfo::new(10, 7, 11, 10))
    );
    assert_eq!(
        repair_record(AddressInfo::new(2, 6, 10, 9), 8),
        Ok(AddressInfo::new(4, 8, 12, 9))
    );
    assert_eq!(repair_record(AddressInfo::new(2, 6, 10, 9), 7), Err(ClaimError::CannotRepairEpoch));
}

#[test]
fn extreme_records_are_refused_by_the_caller_and_payment_checks() {
    let mut c = deployed();
    assert_eq!(c.update_state(&owner(), &user(), true, u64::MAX, 10, u64::MAX, u64::MAX), Ok(()));
    let sc = ClaimContext { caller_is_smart_contract: true, caller_in_same_shard: true, current_epoch: 11 };
    assert_eq!(c.claim(&user(), &sc), Err(ClaimError::SmartContractCaller));
    let far = ClaimContext { caller_is_smart_contract: false, caller_in_same_shard: false, current_epoch: 11 };
    assert_eq!(c.claim(&user(), &far), Err(ClaimError::WrongShard));
    assert_eq!(
        c.claim_and_repair(&user(), &sc, repair_payment(SFT_AMOUNT)).err(),
        Some(ClaimError::SmartContractCaller)
    );
    assert_eq!(
        c.claim_and_repair(&user(), &ctx(13), DctTokenPayment::new(b"OTHER-a1b2c3".to_vec(), 1, amt(1))).err(),
        Some(ClaimError::BadPaymentToken)
    );
    assert_eq!(
        c.claim_and_repair(&user(), &ctx(13), repair_payment(2)).err(),
        Some(ClaimError::BadPaymentAmount)
    );
    assert_eq!(c.address_info(&user()), Some(AddressInfo::new(u64::MAX, 10, u64::MAX, u64::MAX)));
}
