use dharitri_contracts::exchange_actions::{
    forwarded_call, payments_to_send, ExchangeActionsModule, ExchangeActionsStorage, ExchangeError, ForwardContext,
};
use dharitri_contracts::payment::DctTokenPayment;
use dharitri_contracts::amount::Amount;

fn amt(x: u128) -> Amount {
    Amount::from_u128(x)
}

fn names(v: &[&[u8]]) -> Vec<Vec<u8>> {
    v.iter().map(|n| n.to_vec()).collect()
}

fn ok_ctx() -> ForwardContext {
    ForwardContext { moax_value: amt(0), caller_whitelisted: true }
}

#[test]
fn added_endpoints_are_known() {
    let mut m = ExchangeActionsStorage::new(false);
    let sc = b"dex".to_vec();
    assert_eq!(m.require_known_endpoint(&sc, &b"swap".to_vec()), Err(ExchangeError::UnknownSc));
    assert_eq!(m.add_exchange_endpoint(true, &sc, names(&[b"swap", b"addLiquidity", b"swap"])), Ok(()));
    assert_eq!(m.require_known_endpoint(&sc, &b"swap".to_vec()), Ok(()));
    assert_eq!(m.require_known_endpoint(&sc, &b"addLiquidity".to_vec()), Ok(()));
    assert_eq!(m.require_known_endpoint(&sc, &b"remove".to_vec()), Err(ExchangeError::UnknownEndpoint));
    assert_eq!(m.require_known_endpoint(&b"other".to_vec(), &b"swap".to_vec()), Err(ExchangeError::UnknownSc));
}

#[test]
fn only_the_owner_changes_endpoints() {
    let mut m = ExchangeActionsStorage::new(false);
    let sc = b"dex".to_vec();
    assert_eq!(m.add_exchange_endpoint(false, &sc, names(&[b"swap"])), Err(ExchangeError::NotOwner));
    assert!(!m.is_known_endpoint(&sc, &b"swap".to_vec()));
    m.add_exchange_endpoint(true, &sc, names(&[b"swap"])).unwrap();
    assert_eq!(m.remove_exchange_endpoint(false, &sc, names(&[b"swap"])), Err(ExchangeError::NotOwner));
    assert!(m.is_known_endpoint(&sc, &b"swap".to_vec()));
}

#[test]
fn removal_is_all_or_nothing() {
    let mut m = ExchangeActionsStorage::new(false);
    let sc = b"dex".to_vec();
    m.add_exchange_endpoint(true, &sc, names(&[b"a", b"b", b"c"])).unwrap();
    assert_eq!(m.remove_exchange_endpoint(true, &sc, names(&[b"a", b"x"])), Err(ExchangeError::UnknownEndpointName));
    assert!(m.is_known_endpoint(&sc, &b"a".to_vec()));
    assert_eq!(m.remove_exchange_endpoint(true, &sc, names(&[b"b", b"b"])), Err(ExchangeError::UnknownEndpointName));
    assert!(m.is_known_endpoint(&sc, &b"b".to_vec()));
    assert_eq!(m.remove_exchange_endpoint(true, &sc, names(&[b"a", b"c"])), Ok(()));
    assert!(!m.is_known_endpoint(&sc, &b"a".to_vec()));
    assert!(m.is_known_endpoint(&sc, &b"b".to_vec()));
    assert!(!m.is_known_endpoint(&sc, &b"c".to_vec()));
    assert_eq!(m.remove_exchange_endpoint(true, &sc, names(&[b"b"])), Ok(()));
    assert_eq!(m.require_known_endpoint(&sc, &b"b".to_vec()), Err(ExchangeError::UnknownSc));
}

#[test]
fn forwarded_calls_are_checked_in_order() {
    let mut m = ExchangeActionsStorage::new(false);
    let sc = b"dex".to_vec();
    m.add_exchange_endpoint(true, &sc, names(&[b"swap"])).unwrap();
    assert_eq!(m.forward_execute_on_dest(&ok_ctx(), &sc, &b"swap".to_vec()), Ok(()));
    assert_eq!(
        m.forward_execute_on_dest(&ok_ctx(), &sc, &b"other".to_vec()),
        Err(ExchangeError::UnknownEndpoint)
    );
    let coins = ForwardContext { moax_value: amt(1), caller_whitelisted: true };
    assert_eq!(m.forward_execute_on_dest(&coins, &sc, &b"swap".to_vec()), Err(ExchangeError::InvalidPayment));
    let stranger = ForwardContext { moax_value: amt(0), caller_whitelisted: false };
    assert_eq!(m.forward_execute_on_dest(&stranger, &sc, &b"swap".to_vec()), Err(ExchangeError::NotWhitelisted));
    m.paused = true;
    assert_eq!(m.forward_execute_on_dest(&ok_ctx(), &sc, &b"swap".to_vec()), Err(ExchangeError::ContractPaused));
}

#[test]
fn output_payments_are_sent_when_there_are_some() {
    assert!(payments_to_send(Vec::new()).is_none());
    let sent = payments_to_send(vec![DctTokenPayment::new(b"T-000000".to_vec(), 0, amt(3))]).unwrap();
    assert_eq!(sent.len(), 1);
}

#[test]
fn forwarded_call_carries_arguments_and_hooked_payments() {
    let p = DctTokenPayment::new(b"TOK-123456".to_vec(), 2, amt(30));
    let call = forwarded_call(
        b"dex".to_vec(),
        b"swap".to_vec(),
        names(&[b"arg1", b"arg2"]),
        vec![p.duplicate()],
    );
    assert_eq!(call.dest, b"dex".to_vec());
    assert_eq!(call.endpoint_name, b"swap".to_vec());
    assert_eq!(call.arguments, names(&[b"arg1", b"arg2"]));
    assert_eq!(call.payments, vec![p]);
}

#[test]
fn registered_endpoints_can_be_removed() {
    let mut m = ExchangeActionsStorage::new(false);
    let sc = b"dex".to_vec();
    assert_eq!(m.add_exchange_endpoint(true, &sc, names(&[b"swap", b"addLiquidity"])), Ok(()));
    assert_eq!(m.remove_exchange_endpoint(true, &sc, names(&[b"addLiquidity", b"swap"])), Ok(()));
    assert_eq!(m.require_known_endpoint(&sc, &b"swap".to_vec()), Err(ExchangeError::UnknownSc));
}
