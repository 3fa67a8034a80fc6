//! A stand-in for an exchange pair: it swaps its first token for twice as much
//! of its second, and any other token for half as much of its first.
use vstd::prelude::*;

use crate::amount::Amount;
use crate::payment::{DctTokenPayment, PaymentView};

verus! {

/// What the pair hands out for `payment`.
pub open spec fn swap_output(first: Seq<u8>, second: Seq<u8>, payment: PaymentView) -> PaymentView {
    if payment.token_identifier == first {
        PaymentView { token_identifier: second, token_nonce: 0, amount: payment.amount * 2 }
    } else {
        PaymentView { token_identifier: first, token_nonce: 0, amount: payment.amount / 2 }
    }
}

/// The mock pair: its two tokens in storage, and its swap.
pub trait PairMock: Sized {
    /// The first token of the pair.
    spec fn spec_first_token_id(&self) -> Seq<u8>;

    /// The second token of the pair.
    spec fn spec_second_token_id(&self) -> Seq<u8>;

    /// Reads the first token.
    fn first_token_id(&self) -> (r: Vec<u8>)
        ensures
            r@ == self.spec_first_token_id(),
    ;

    /// Reads the second token.
    fn second_token_id(&self) -> (r: Vec<u8>)
        ensures
            r@ == self.spec_second_token_id(),
    ;

    /// Stores both tokens.
    fn set_token_ids(&mut self, first_token_id: Vec<u8>, second_token_id: Vec<u8>)
        ensures
            final(self).spec_first_token_id() == first_token_id@,
            final(self).spec_second_token_id() == second_token_id@,
    ;

    /// Deploys the pair with its two tokens.
    fn init(&mut self, first_token_id: Vec<u8>, second_token_id: Vec<u8>)
        ensures
            final(self).spec_first_token_id() == first_token_id@,
            final(self).spec_second_token_id() == second_token_id@,
    {
        self.set_token_ids(first_token_id, second_token_id);
    }

    /// Swaps `payment`: the first token for twice the amount of the second,
    /// anything else for half the amount of the first; the result is sent to
    /// the caller and returned.
    fn swap_tokens_fixed_input(
        &self,
        _token_out: &Vec<u8>,
        _amount_out_min: &Amount,
        payment: &DctTokenPayment,
    ) -> (r: DctTokenPayment)
        ensures
            r@ == swap_output(self.spec_first_token_id(), self.spec_second_token_id(), payment@),
    {
        let first_token_id = self.first_token_id();
        let second_token_id = self.second_token_id();
        if payment.token_identifier == first_token_id {
            assert(payment.token_identifier@ =~= first_token_id@);
            DctTokenPayment::new(second_token_id, 0, payment.amount.double())
        } else {
            DctTokenPayment::new(first_token_id, 0, payment.amount.half())
        }
    }
}

/// The storage of the mock pair.
pub struct PairMockStorage {
    pub first_token_id: Vec<u8>,
    pub second_token_id: Vec<u8>,
}

impl PairMock for PairMockStorage {
    open spec fn spec_first_token_id(&self) -> Seq<u8> {
        self.first_token_id@
    }

    open spec fn spec_second_token_id(&self) -> Seq<u8> {
        self.second_token_id@
    }

    fn first_token_id(&self) -> (r: Vec<u8>) {
        let r = self.first_token_id.clone();
        assert(r@ =~= self.first_token_id@);
        r
    }

    fn second_token_id(&self) -> (r: Vec<u8>) {
        let r = self.second_token_id.clone();
        assert(r@ =~= self.second_token_id@);
        r
    }

    fn set_token_ids(&mut self, first_token_id: Vec<u8>, second_token_id: Vec<u8>) {
        self.first_token_id = first_token_id;
        self.second_token_id = second_token_id;
    }
}

/// Swapping an amount of the first token, then swapping what came back,
/// returns the same amount of the first token.
pub proof fn lemma_swap_round_trip(first: Seq<u8>, second: Seq<u8>, payment: PaymentView)
    requires
        first != second,
        payment.token_identifier == first,
    ensures
        swap_output(first, second, swap_output(first, second, payment)) == (PaymentView {
            token_identifier: first,
            token_nonce: 0,
            amount: payment.amount,
        }),
{
}

/// What the pair hands out depends on the paid token and amount alone: not
/// on the paid nonce (and the swap reads neither the wanted token nor the
/// minimum amount); every token but the first is paid out as the second.
pub proof fn lemma_swap_depends_on_token_and_amount(
    first: Seq<u8>,
    second: Seq<u8>,
    p: PaymentView,
    q: PaymentView,
)
    requires
        p.token_identifier == q.token_identifier,
        p.amount == q.amount,
    ensures
        swap_output(first, second, p) == swap_output(first, second, q),
        swap_output(first, second, p).token_nonce == 0,
{
}

} // verus!
