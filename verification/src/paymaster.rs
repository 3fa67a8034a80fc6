//! A paymaster: the first payment of a call pays the relayer, the rest is
//! forwarded with the call, and what comes back goes to the original caller.
use vstd::prelude::*;

use crate::amount::Amount;
use crate::payment::{payments_view, DctTokenPayment, PaymentView};

verus! {

/// The index of the payment that pays the relayer.
pub const FEE_PAYMENT: usize = 0;

/// The first bytes of the answer to a failed forwarded call:
/// "Error received in callback:".
pub open spec fn err_callback_msg() -> Seq<u8> {
    seq![
        69u8, 114u8, 114u8, 111u8, 114u8, 32u8, 114u8, 101u8, 99u8, 101u8, 105u8, 118u8, 101u8, 100u8,
        32u8, 105u8, 110u8, 32u8, 99u8, 97u8, 108u8, 108u8, 98u8, 97u8, 99u8, 107u8, 58u8,
    ]
}

/// The bytes "Error received in callback:".
pub fn err_callback_message() -> (r: Vec<u8>)
    ensures
        r@ == err_callback_msg(),
{
    vec![
        69u8, 114u8, 114u8, 111u8, 114u8, 32u8, 114u8, 101u8, 99u8, 101u8, 105u8, 118u8, 101u8, 100u8,
        32u8, 105u8, 110u8, 32u8, 99u8, 97u8, 108u8, 108u8, 98u8, 97u8, 99u8, 107u8, 58u8,
    ]
}

/// An asynchronous call to a contract, with the payments it carries and the
/// caller to whom its results go back.
pub struct AsyncCallRequest {
    pub dest: Vec<u8>,
    pub endpoint_name: Vec<u8>,
    pub endpoint_args: Vec<Vec<u8>>,
    pub payments: Vec<DctTokenPayment>,
    pub original_caller: Vec<u8>,
}

/// The transfers that came back to the contract with the answer of a
/// forwarded call.
pub struct BackTransfers {
    pub dct_payments: Vec<DctTokenPayment>,
    pub total_moax_amount: Amount,
}

/// What the callback of a forwarded call does: the token payments and native
/// coins to send back to the original caller, if any, and the values it
/// returns.
pub struct CallbackOutcome {
    pub dct_refund: Option<Vec<DctTokenPayment>>,
    pub moax_refund: Option<Amount>,
    pub returned: Vec<Vec<u8>>,
}

/// The values that the callback returns for the answer `result`.
pub open spec fn callback_returns(result: Result<Seq<Seq<u8>>, Seq<u8>>) -> Seq<Seq<u8>> {
    match result {
        Ok(values) => values,
        Err(msg) => seq![err_callback_msg(), msg],
    }
}

/// The views of a list of byte strings.
pub open spec fn bytes_views(v: Seq<Vec<u8>>) -> Seq<Seq<u8>> {
    v.map_values(|b: Vec<u8>| b@)
}

/// The forwarding of calls, and the handling of their answers.
pub trait ForwardCall {
    /// Builds the asynchronous call that forwards `payments` and
    /// `endpoint_args` to `endpoint_name` of `dest`, answered to
    /// `original_caller`.
    fn forward_call(
        &self,
        original_caller: Vec<u8>,
        dest: Vec<u8>,
        endpoint_name: Vec<u8>,
        payments: Vec<DctTokenPayment>,
        endpoint_args: Vec<Vec<u8>>,
    ) -> (r: AsyncCallRequest)
        ensures
            r == (AsyncCallRequest { dest, endpoint_name, endpoint_args, payments, original_caller }),
    {
        AsyncCallRequest { dest, endpoint_name, endpoint_args, payments, original_caller }
    }

    /// Handles the answer of a forwarded call: the token payments that came
    /// back are sent to the original caller when there are any, the native
    /// coins when they are not zero; a success returns the call's values, a
    /// failure returns "Error received in callback:" and the error message.
    fn transfer_callback(
        &self,
        back_transfers: BackTransfers,
        result: Result<Vec<Vec<u8>>, Vec<u8>>,
    ) -> (r: CallbackOutcome)
        ensures
            back_transfers.dct_payments@.len() > 0 ==> r.dct_refund == Some(back_transfers.dct_payments),
            back_transfers.dct_payments@.len() == 0 ==> r.dct_refund is None,
            back_transfers.total_moax_amount@ != 0 ==> r.moax_refund == Some(back_transfers.total_moax_amount),
            back_transfers.total_moax_amount@ == 0 ==> r.moax_refund is None,
            bytes_views(r.returned@) == callback_returns(
                match result {
                    Ok(values) => Ok(bytes_views(values@)),
                    Err(msg) => Err(msg@),
                },
            ),
    {
        let dct_refund = if !back_transfers.dct_payments.is_empty() {
            Some(back_transfers.dct_payments)
        } else {
            None
        };
        let moax_refund = if !back_transfers.total_moax_amount.is_zero() {
            Some(back_transfers.total_moax_amount)
        } else {
            None
        };
        let returned = match result {
            Ok(values) => values,
            Err(err_msg) => {
                let mut err_result: Vec<Vec<u8>> = Vec::new();
                err_result.push(err_callback_message());
                err_result.push(err_msg);
                assert(bytes_views(err_result@) =~= seq![err_callback_msg(), err_msg@]);
                err_result
            },
        };
        CallbackOutcome { dct_refund, moax_refund, returned }
    }
}

/// Why a forwarded execution is refused.
#[derive(Clone, Copy, Debug, PartialEq, Eq, Structural)]
pub enum PaymasterError {
    /// The call carried no payment, so nothing pays the relayer.
    NoFeePayment,
}

/// The effects of a forwarded execution: the fee sent to the relayer, and the
/// call that forwards the other payments.
pub struct ForwardExecution {
    pub relayer: Vec<u8>,
    pub fee: DctTokenPayment,
    pub call: AsyncCallRequest,
}

/// The paymaster contract.
pub trait PaymasterContract: ForwardCall {
    /// Deploys the paymaster; it keeps nothing in storage.
    fn init(&self) {
    }

    /// Forwards a call of `original_caller`: the first payment goes to the
    /// relayer (with nonce 0), the others go with the call, in their order.
    fn forward_execution(
        &self,
        original_caller: Vec<u8>,
        relayer_addr: Vec<u8>,
        dest: Vec<u8>,
        endpoint_name: Vec<u8>,
        endpoint_args: Vec<Vec<u8>>,
        payments: Vec<DctTokenPayment>,
    ) -> (r: Result<ForwardExecution, PaymasterError>)
        ensures
            payments@.len() == 0 <==> r == Err::<ForwardExecution, PaymasterError>(PaymasterError::NoFeePayment),
            r matches Ok(plan) ==> {
                &&& plan.relayer == relayer_addr
                &&& plan.fee@ == (PaymentView {
                    token_identifier: payments@[FEE_PAYMENT as int].token_identifier@,
                    token_nonce: 0,
                    amount: payments@[FEE_PAYMENT as int].amount@,
                })
                &&& plan.call == (AsyncCallRequest {
                    dest,
                    endpoint_name,
                    endpoint_args,
                    payments: plan.call.payments,
                    original_caller,
                })
                &&& plan.call.payments@ == payments@.remove(FEE_PAYMENT as int)
            },
    {
        if payments.is_empty() {
            return Err(PaymasterError::NoFeePayment);
        }
        let mut payments_without_fee = payments;
        let fee_payment = payments_without_fee.remove(FEE_PAYMENT);
        let fee = DctTokenPayment::new(fee_payment.token_identifier, 0, fee_payment.amount);
        let call = self.forward_call(
            original_caller,
            dest,
            endpoint_name,
            payments_without_fee,
            endpoint_args,
        );
        Ok(ForwardExecution { relayer: relayer_addr, fee, call })
    }
}

/// The paymaster, which keeps no state.
pub struct Paymaster;

impl ForwardCall for Paymaster {}

impl PaymasterContract for Paymaster {}

/// No payment of a forwarded execution is lost or doubled: the payments are
/// the fee payment (whose amount and token go to the relayer) followed by the
/// forwarded ones.
pub proof fn lemma_forward_execution_keeps_payments(payments: Seq<DctTokenPayment>, forwarded: Seq<DctTokenPayment>)
    requires
        payments.len() > 0,
        forwarded == payments.remove(FEE_PAYMENT as int),
    ensures
        payments_view(payments) == seq![payments[0]@] + payments_view(forwarded),
        forwarded.len() == payments.len() - 1,
{
    assert(payments_view(payments) =~= seq![payments[0]@] + payments_view(forwarded));
}

} // verus!
