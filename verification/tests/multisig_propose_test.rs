use dharitri_contracts::multisig_propose::{
    Action, CallActionData, FunctionCall, MultisigError, MultisigProposeModule, UserRole,
};
use dharitri_contracts::payment::DctTokenPayment;
use dharitri_contracts::amount::Amount;

fn amt(x: u128) -> Amount {
    Amount::from_u128(x)
}

fn call(name: &[u8]) -> FunctionCall {
    FunctionCall { function_name: name.to_vec(), arg_buffer: Vec::new() }
}

fn transfer(to: &[u8]) -> Action {
    Action::SendTransferExecuteMoax(CallActionData {
        to: to.to_vec(),
        moax_amount: amt(1),
        opt_gas_limit: None,
        endpoint_name: Vec::new(),
        arguments: Vec::new(),
    })
}

#[test]
fn board_member_proposes_and_signs() {
    let mut m = MultisigProposeModule::new();
    let id = m.propose_add_board_member(7, UserRole::BoardMember, b"alice".to_vec()).unwrap();
    assert_eq!(id, 1);
    assert_eq!(m.action_signer_ids(1), &vec![7usize]);
    assert!(matches!(m.action(1), Action::AddBoardMember(a) if a == b"alice"));
    assert_eq!(m.group_for_action(1), 0);
}

#[test]
fn proposer_proposes_without_signing() {
    let mut m = MultisigProposeModule::new();
    m.propose_change_quorum(3, UserRole::BoardMember, 2).unwrap();
    let id = m.propose_add_proposer(4, UserRole::Proposer, b"bob".to_vec()).unwrap();
    assert_eq!(id, 2);
    assert!(m.action_signer_ids(2).is_empty());
}

#[test]
fn others_cannot_propose() {
    let mut m = MultisigProposeModule::new();
    assert_eq!(m.propose_remove_user(1, UserRole::NoRole, b"bob".to_vec()), Err(MultisigError::CannotPropose));
    assert_eq!(m.action_count(), 0);
}

#[test]
fn proposals_without_effect_are_refused() {
    let mut m = MultisigProposeModule::new();
    assert_eq!(
        m.propose_transfer_execute(1, UserRole::BoardMember, b"to".to_vec(), amt(0), None, call(b"")),
        Err(MultisigError::NoEffect)
    );
    assert_eq!(
        m.propose_async_call(1, UserRole::BoardMember, b"to".to_vec(), amt(0), None, call(b"")),
        Err(MultisigError::NoEffect)
    );
    assert_eq!(
        m.propose_transfer_execute_dct(1, UserRole::BoardMember, b"to".to_vec(), Vec::new(), None, call(b"f")),
        Err(MultisigError::NoTokensToTransfer)
    );
    assert_eq!(m.action_count(), 0);
    assert_eq!(m.propose_transfer_execute(1, UserRole::BoardMember, b"to".to_vec(), amt(5), None, call(b"")), Ok(1));
    assert_eq!(m.propose_async_call(1, UserRole::BoardMember, b"to".to_vec(), amt(0), Some(10), call(b"f")), Ok(2));
    assert_eq!(
        m.propose_transfer_execute_dct(
            1,
            UserRole::Proposer,
            b"to".to_vec(),
            vec![DctTokenPayment::new(b"T-000000".to_vec(), 0, amt(1))],
            None,
            call(b"")
        ),
        Ok(3)
    );
    assert_eq!(m.propose_sc_deploy_from_source(1, UserRole::Proposer, amt(0), b"src".to_vec(), 0, Vec::new()), Ok(4));
    assert_eq!(
        m.propose_sc_upgrade_from_source(1, UserRole::Proposer, b"sc".to_vec(), amt(0), b"src".to_vec(), 0, Vec::new()),
        Ok(5)
    );
    assert!(matches!(m.action(2), Action::SendAsyncCall(d) if d.endpoint_name == b"f" && d.opt_gas_limit == Some(10)));
}

#[test]
fn batch_is_stored_in_its_group() {
    let mut m = MultisigProposeModule::new();
    m.propose_change_quorum(1, UserRole::BoardMember, 3).unwrap();
    let batch = vec![(transfer(b"x"), 1u32), (Action::ChangeQuorum(2), 0u32)];
    assert_eq!(m.propose_batch(9, UserRole::BoardMember, 5, batch, 1), Ok(()));
    assert_eq!(m.action_count(), 3);
    assert_eq!(m.group_for_action(1), 0);
    assert_eq!(m.group_for_action(2), 5);
    assert_eq!(m.group_for_action(3), 5);
    assert_eq!(m.action_signer_ids(3), &vec![9usize]);
}

#[test]
fn batch_refusals_leave_nothing_behind() {
    let mut m = MultisigProposeModule::new();
    assert_eq!(m.propose_batch(1, UserRole::BoardMember, 0, vec![(Action::ChangeQuorum(2), 0)], 0), Err(MultisigError::GroupIdZero));
    assert_eq!(m.propose_batch(1, UserRole::BoardMember, 1, Vec::new(), 0), Err(MultisigError::NoActions));
    assert_eq!(m.propose_batch(1, UserRole::NoRole, 1, vec![(Action::ChangeQuorum(2), 0)], 0), Err(MultisigError::CannotPropose));
    assert_eq!(
        m.propose_batch(1, UserRole::BoardMember, 1, vec![(Action::ChangeQuorum(2), 0), (Action::Nothing, 0)], 0),
        Err(MultisigError::InvalidAction)
    );
    let async_call = Action::SendAsyncCall(CallActionData {
        to: b"x".to_vec(),
        moax_amount: amt(1),
        opt_gas_limit: None,
        endpoint_name: Vec::new(),
        arguments: Vec::new(),
    });
    assert_eq!(m.propose_batch(1, UserRole::BoardMember, 1, vec![(async_call, 0)], 0), Err(MultisigError::InvalidAction));
    assert_eq!(
        m.propose_batch(1, UserRole::BoardMember, 1, vec![(Action::ChangeQuorum(2), 0), (transfer(b"far"), 2)], 1),
        Err(MultisigError::DifferentShard)
    );
    assert_eq!(m.action_count(), 0);
}

#[test]
fn async_call_cannot_only_send_coins() {
    let mut m = MultisigProposeModule::new();
    assert_eq!(
        m.propose_async_call(1, UserRole::BoardMember, b"to".to_vec(), amt(5), None, call(b"")),
        Err(MultisigError::NoEndpointCalled)
    );
    assert_eq!(m.action_count(), 0);
    assert_eq!(m.propose_async_call(1, UserRole::Proposer, b"to".to_vec(), amt(5), None, call(b"f")), Ok(1));
    assert!(matches!(m.action(1), Action::SendAsyncCall(d) if d.endpoint_name == b"f" && d.moax_amount == amt(5)));
}
