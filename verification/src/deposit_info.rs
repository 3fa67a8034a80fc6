//! What a digital-cash deposit holds.
use vstd::prelude::*;

use crate::amount::Amount;
use crate::payment::DctTokenPayment;

verus! {

/// The fee that a deposit pays: per token to transfer, and in total.
pub struct Fee {
    pub num_token_to_transfer: usize,
    pub value: Amount,
}

impl Default for Fee {
    fn default() -> (r: Fee)
        ensures
            r.num_token_to_transfer == 0,
            r.value@ == 0,
    {
        Fee { num_token_to_transfer: 0, value: Amount::zero() }
    }
}

/// A deposit: who made it, the tokens and native coins it holds, how long it
/// stays claimable, and its fees.
pub struct DepositInfo {
    pub depositor_address: Vec<u8>,
    pub dct_funds: Vec<DctTokenPayment>,
    pub moax_funds: Amount,
    pub valability: u64,
    pub expiration_round: u64,
    pub fees: Fee,
}

/// The number of transfers that paying out the deposit takes: one per token
/// payment, and one more when it holds native coins.
pub open spec fn num_tokens(d: DepositInfo) -> int {
    d.dct_funds@.len() + if d.moax_funds@ > 0 {
        1int
    } else {
        0int
    }
}

impl DepositInfo {
    /// The number of transfers that paying out the deposit takes.
    pub fn get_num_tokens(&self) -> (r: usize)
        requires
            num_tokens(*self) <= usize::MAX,
        ensures
            r == num_tokens(*self),
    {
        let mut amount = self.dct_funds.len();
        if !self.moax_funds.is_zero() {
            amount = amount + 1;
        }
        amount
    }
}

/// Adding token payments to a deposit adds one transfer per payment to its
/// payout; the native coins count once, whatever their amount.
pub proof fn lemma_num_tokens_grows_with_payments(d: DepositInfo, e: DepositInfo, added: Seq<DctTokenPayment>)
    requires
        e.dct_funds@ == d.dct_funds@ + added,
        (e.moax_funds@ > 0) == (d.moax_funds@ > 0),
    ensures
        num_tokens(e) == num_tokens(d) + added.len(),
{
}

} // verus!
