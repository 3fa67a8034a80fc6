//! Token payments as plain values.
use vstd::prelude::*;

use crate::amount::Amount;

verus! {

/// A transfer of a fungible or semi-fungible token: its identifier, its nonce
/// and the amount moved.
#[derive(Debug, PartialEq, Eq)]
pub struct DctTokenPayment {
    pub token_identifier: Vec<u8>,
    pub token_nonce: u64,
    pub amount: Amount,
}

/// A payment as a mathematical value.
pub struct PaymentView {
    pub token_identifier: Seq<u8>,
    pub token_nonce: u64,
    pub amount: nat,
}

impl View for DctTokenPayment {
    type V = PaymentView;

    open spec fn view(&self) -> PaymentView {
        PaymentView {
            token_identifier: self.token_identifier@,
            token_nonce: self.token_nonce,
            amount: self.amount@,
        }
    }
}

/// The views of a list of payments.
pub open spec fn payments_view(v: Seq<DctTokenPayment>) -> Seq<PaymentView> {
    v.map_values(|p: DctTokenPayment| p@)
}

impl DctTokenPayment {
    /// A payment of `amount` of the token `token_identifier` with nonce
    /// `token_nonce`.
    pub fn new(token_identifier: Vec<u8>, token_nonce: u64, amount: Amount) -> (r: DctTokenPayment)
        ensures
            r == (DctTokenPayment { token_identifier, token_nonce, amount }),
    {
        DctTokenPayment { token_identifier, token_nonce, amount }
    }

    /// A copy of the payment.
    pub fn duplicate(&self) -> (r: DctTokenPayment)
        ensures
            r@ == self@,
    {
        let t = self.token_identifier.clone();
        assert(t@ =~= self.token_identifier@);
        DctTokenPayment { token_identifier: t, token_nonce: self.token_nonce, amount: self.amount.duplicate() }
    }
}

} // verus!
