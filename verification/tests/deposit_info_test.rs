use dharitri_contracts::deposit_info::{DepositInfo, Fee};
use dharitri_contracts::payment::DctTokenPayment;
use dharitri_contracts::proxy_deployer::{ProxyDeployer, ProxyDeployerStorage};
use dharitri_contracts::amount::Amount;

fn amt(x: u128) -> Amount {
    Amount::from_u128(x)
}

fn deposit(n: usize, moax: u128) -> DepositInfo {
    DepositInfo {
        depositor_address: b"depositor".to_vec(),
        dct_funds: (0..n).map(|i| DctTokenPayment::new(b"TOK-000000".to_vec(), i as u64, amt(1))).collect(),
        moax_funds: amt(moax),
        valability: 100,
        expiration_round: 200,
        fees: Fee::default(),
    }
}

#[test]
fn num_tokens_counts_payments_and_native_coins() {
    assert_eq!(deposit(0, 0).get_num_tokens(), 0);
    assert_eq!(deposit(0, 5).get_num_tokens(), 1);
    assert_eq!(deposit(3, 0).get_num_tokens(), 3);
    assert_eq!(deposit(3, 1).get_num_tokens(), 4);
}

#[test]
fn default_fee_is_zero() {
    let f = Fee::default();
    assert_eq!(f.num_token_to_transfer, 0);
    assert_eq!(f.value, amt(0));
}

#[test]
fn proxy_deployer_init_and_upgrade() {
    let mut d = ProxyDeployerStorage { default_gas_for_save_operation: 0 };
    d.init(5_000_000);
    assert_eq!(d.default_gas_for_save_operation, 5_000_000);
    d.upgrade();
    assert_eq!(d.default_gas_for_save_operation, 5_000_000);
}
