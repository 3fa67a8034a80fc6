use dharitri_contracts::pair_mock::{PairMock, PairMockStorage};
use dharitri_contracts::payment::DctTokenPayment;
use dharitri_contracts::amount::Amount;

fn amt(x: u128) -> Amount {
    Amount::from_u128(x)
}

fn pair() -> PairMockStorage {
    let mut p = PairMockStorage { first_token_id: Vec::new(), second_token_id: Vec::new() };
    p.init(b"FIRST-000000".to_vec(), b"SECOND-000000".to_vec());
    p
}

#[test]
fn first_token_swaps_for_double_second() {
    let p = pair();
    let out = p.swap_tokens_fixed_input(
        &b"SECOND-000000".to_vec(),
        &amt(0),
        &DctTokenPayment::new(b"FIRST-000000".to_vec(), 0, amt(21)),
    );
    assert_eq!(out.token_identifier, b"SECOND-000000".to_vec());
    assert_eq!(out.amount, amt(42));
    assert_eq!(out.token_nonce, 0);
}

#[test]
fn other_tokens_swap_for_half_first() {
    let p = pair();
    let out = p.swap_tokens_fixed_input(
        &b"FIRST-000000".to_vec(),
        &amt(0),
        &DctTokenPayment::new(b"SECOND-000000".to_vec(), 3, amt(21)),
    );
    assert_eq!(out.token_identifier, b"FIRST-000000".to_vec());
    assert_eq!(out.amount, amt(10));
    assert_eq!(out.token_nonce, 0);
}

#[test]
fn swap_round_trip_returns_amount() {
    let p = pair();
    let there = p.swap_tokens_fixed_input(&Vec::new(), &amt(0), &DctTokenPayment::new(b"FIRST-000000".to_vec(), 0, amt(1234)));
    let back = p.swap_tokens_fixed_input(&Vec::new(), &amt(0), &there);
    assert_eq!(back.token_identifier, b"FIRST-000000".to_vec());
    assert_eq!(back.amount, amt(1234));
}

#[test]
fn amounts_beyond_128_bits_are_doubled_and_halved() {
    let p = pair();
    // 2^127 + 1
    let big = Amount::from_limbs(vec![1, 0, 0, 0x8000_0000]);
    let there = p.swap_tokens_fixed_input(
        &Vec::new(),
        &amt(0),
        &DctTokenPayment::new(b"FIRST-000000".to_vec(), 0, big.clone()),
    );
    // 2^128 + 2
    assert_eq!(there.amount, Amount::from_limbs(vec![2, 0, 0, 0, 1]));
    assert_eq!(there.amount.to_limbs(), vec![2, 0, 0, 0, 1]);
    let back = p.swap_tokens_fixed_input(&Vec::new(), &amt(0), &there);
    assert_eq!(back.token_identifier, b"FIRST-000000".to_vec());
    assert_eq!(back.amount, big);
}

#[test]
fn swap_ignores_wanted_token_minimum_and_nonce() {
    let p = pair();
    let a = p.swap_tokens_fixed_input(
        &b"X-000000".to_vec(),
        &amt(1_000_000),
        &DctTokenPayment::new(b"OTHER-000000".to_vec(), 5, amt(9)),
    );
    let b = p.swap_tokens_fixed_input(
        &Vec::new(),
        &amt(0),
        &DctTokenPayment::new(b"OTHER-000000".to_vec(), 0, amt(9)),
    );
    assert_eq!(a, b);
    assert_eq!(a.token_identifier, b"FIRST-000000".to_vec());
    assert_eq!(a.amount, amt(4));
}
