use dharitri_contracts::collections::{ByteSet, KeyedStore};
use dharitri_contracts::initial_launch::{
    swap_request, InitialLaunchBlocks, InitialLaunchInfo, InitialLaunchModule,
    InitialLaunchStorage, LaunchError,
};
use dharitri_contracts::payment::DctTokenPayment;
use dharitri_contracts::amount::Amount;

fn amt(x: u128) -> Amount {
    Amount::from_u128(x)
}

fn launch() -> InitialLaunchStorage {
    let mut known = ByteSet::new();
    known.insert(b"pair".to_vec());
    InitialLaunchStorage {
        paused: false,
        initial_launch_blocks: InitialLaunchBlocks { start: 100, end: 110 },
        initial_launch_info: InitialLaunchInfo {
            account_buy_limit: amt(1_000),
            tx_buy_limit: amt(600),
            buy_fee_percentage_start: 1_000,
            buy_fee_percentage_end: 100,
            sell_fee_percentage_start: 2_000,
            sell_fee_percentage_end: 200,
        },
        known_contracts: known,
        total_bought: KeyedStore::new(),
    }
}

#[test]
fn fee_starts_high_and_decreases() {
    let l = launch();
    assert_eq!(l.get_fee_percentage(1_000, 0, 100), Ok(1_000));
    // 1000 * 5 / 9 = 555
    assert_eq!(l.get_fee_percentage(1_000, 0, 105), Ok(445));
    assert_eq!(l.get_fee_percentage(1_000, 0, 109), Ok(0));
    assert_eq!(l.get_fee_percentage(1_000, 0, 111), Err(LaunchError::InvalidBuySellBlock));
    let mut last = u32::MAX;
    for b in 100..=109 {
        let f = l.get_fee_percentage(1_000, 100, b).unwrap();
        assert!(f <= last);
        last = f;
    }
}

#[test]
fn launch_phase_checks_are_exclusive() {
    let l = launch();
    for b in [0u64, 100, 105, 110, 111, 1_000] {
        let during = l.require_initial_launch(b);
        let after = l.require_not_initial_launch(b);
        assert!(during.is_ok() != after.is_ok());
    }
    assert_eq!(l.require_initial_launch(111), Err(LaunchError::InitialLaunchPassed));
    assert_eq!(l.require_not_initial_launch(110), Err(LaunchError::DuringInitialLaunch));
}

#[test]
fn buy_and_sell_open_with_their_fees() {
    let l = launch();
    let pair = b"pair".to_vec();
    let launched = b"LAUNCH-123456".to_vec();
    let wanted = b"WMOAX-abcdef".to_vec();
    let o = l.buy_token(&pair, &launched, amt(5), 100).unwrap();
    assert_eq!(o.fee_percentage, 1_000);
    assert_eq!(o.pair_address, pair);
    assert_eq!(o.token_out, launched);
    assert_eq!(o.amount_out_min, amt(5));
    // 900 * 3 / 9 = 300
    assert_eq!(l.buy_token(&pair, &launched, amt(5), 103).unwrap().fee_percentage, 700);
    // 1800 * 3 / 9 = 600
    let s = l.sell_token(&pair, &wanted, amt(7), 103).unwrap();
    assert_eq!(s.fee_percentage, 1_400);
    assert_eq!(s.token_out, wanted);
    assert_eq!(s.amount_out_min, amt(7));
    assert!(matches!(l.buy_token(&b"other".to_vec(), &launched, amt(5), 103), Err(LaunchError::UnknownPair)));
    assert!(matches!(l.buy_token(&pair, &launched, amt(5), 111), Err(LaunchError::InitialLaunchPassed)));
    let mut paused = launch();
    paused.paused = true;
    assert!(matches!(paused.sell_token(&pair, &wanted, amt(7), 103), Err(LaunchError::ContractPaused)));
}

#[test]
fn misconfigured_launch_is_still_refused() {
    let mut l = launch();
    l.paused = true;
    l.initial_launch_blocks = InitialLaunchBlocks { start: 5, end: 5 };
    let pair = b"pair".to_vec();
    assert!(matches!(l.buy_token(&pair, &b"L-123456".to_vec(), amt(0), 5), Err(LaunchError::ContractPaused)));
    l.paused = false;
    assert!(matches!(
        l.sell_token(&b"other".to_vec(), &b"W-123456".to_vec(), amt(0), 5),
        Err(LaunchError::UnknownPair)
    ));
}

#[test]
fn purchases_respect_limits() {
    let mut l = launch();
    let buyer = b"buyer".to_vec();
    assert_eq!(l.record_purchase(&buyer, &amt(601)), Err(LaunchError::TxLimitExceeded));
    assert_eq!(l.total_bought(&buyer), amt(0));
    assert_eq!(l.record_purchase(&buyer, &amt(600)), Ok(()));
    assert_eq!(l.total_bought(&buyer), amt(600));
    assert_eq!(l.record_purchase(&buyer, &amt(401)), Err(LaunchError::TotalBuyExceeded));
    assert_eq!(l.total_bought(&buyer), amt(600));
    assert_eq!(l.record_purchase(&buyer, &amt(400)), Ok(()));
    assert_eq!(l.total_bought(&buyer), amt(1_000));
    assert_eq!(l.record_purchase(&b"other".to_vec(), &amt(1)), Ok(()));
    assert_eq!(l.total_bought(&buyer), amt(1_000));
}

#[test]
fn fees_are_burnt_only_with_the_burn_role() {
    let l = launch();
    let fees = DctTokenPayment::new(b"TOK-123456".to_vec(), 0, amt(50));
    let burnt = l.burn_tokens(&fees, true).unwrap();
    assert_eq!(burnt.amount, amt(50));
    assert_eq!(burnt.token_identifier, b"TOK-123456".to_vec());
    assert!(l.burn_tokens(&fees, false).is_none());
}

#[test]
fn payment_must_cover_fees() {
    let l = launch();
    let pair = b"pair".to_vec();
    let opening = l.sell_token(&pair, &b"W-123456".to_vec(), amt(9), 100).unwrap();
    assert!(matches!(swap_request(opening, Vec::new()), Err(LaunchError::PaymentTooSmall)));
    let opening = l.sell_token(&pair, &b"W-123456".to_vec(), amt(9), 100).unwrap();
    let first = DctTokenPayment::new(b"T-000000".to_vec(), 3, amt(40));
    let second = DctTokenPayment::new(b"U-000000".to_vec(), 0, amt(2));
    let req = swap_request(opening, vec![first.duplicate(), second]).ok().unwrap();
    assert_eq!(req.pair_address, pair);
    assert_eq!(req.token_out, b"W-123456".to_vec());
    assert_eq!(req.amount_out_min, amt(9));
    assert_eq!(req.payment, first);
}

#[test]
fn completed_buy_records_burns_and_sends() {
    let mut l = launch();
    let buyer = b"buyer".to_vec();
    let received = DctTokenPayment::new(b"LAUNCH-abcdef".to_vec(), 0, amt(500));
    let fees = DctTokenPayment::new(b"WREWA-abcdef".to_vec(), 0, amt(7));
    let outcome = l.complete_buy(&buyer, received, &fees, true).unwrap();
    assert_eq!(outcome.recipient, buyer);
    assert_eq!(outcome.send.amount, amt(500));
    assert_eq!(outcome.burn.unwrap().amount, amt(7));
    assert_eq!(l.total_bought(&buyer), amt(500));
    let too_much = DctTokenPayment::new(b"LAUNCH-abcdef".to_vec(), 0, amt(501));
    assert_eq!(
        l.complete_buy(&buyer, too_much, &fees, true).err(),
        Some(LaunchError::TotalBuyExceeded)
    );
    assert_eq!(l.total_bought(&buyer), amt(500));
}

#[test]
fn completed_sell_sends_without_limits() {
    let l = launch();
    let seller = b"seller".to_vec();
    let received = DctTokenPayment::new(b"WREWA-abcdef".to_vec(), 0, amt(5_000));
    let fees = DctTokenPayment::new(b"LAUNCH-abcdef".to_vec(), 0, amt(9));
    let outcome = l.complete_sell(&seller, received, &fees, false);
    assert_eq!(outcome.recipient, seller);
    assert_eq!(outcome.send.amount, amt(5_000));
    assert!(outcome.burn.is_none());
}

#[test]
fn purchases_add_up_beyond_128_bits() {
    let mut l = launch();
    // limits of 2^129
    l.initial_launch_info.account_buy_limit = Amount::from_limbs(vec![0, 0, 0, 0, 2]);
    l.initial_launch_info.tx_buy_limit = Amount::from_limbs(vec![0, 0, 0, 0, 2]);
    let buyer = b"buyer".to_vec();
    assert_eq!(l.record_purchase(&buyer, &amt(u128::MAX)), Ok(()));
    assert_eq!(l.record_purchase(&buyer, &amt(u128::MAX)), Ok(()));
    // 2 * (2^128 - 1) = 2^129 - 2
    assert_eq!(l.total_bought(&buyer), amt(u128::MAX).double());
    assert_eq!(l.record_purchase(&buyer, &amt(3)), Err(LaunchError::TotalBuyExceeded));
    assert_eq!(l.record_purchase(&buyer, &amt(2)), Ok(()));
    assert_eq!(l.total_bought(&buyer), Amount::from_limbs(vec![0, 0, 0, 0, 2]));
}
