//! The initial launch phase of a fair-launch token: buy and sell fees that
//! decrease from block to block, per-transaction and per-account buy limits.
use vstd::prelude::*;

use crate::amount::Amount;
use crate::collections::{stored, ByteSet, KeyedStore};
use crate::payment::DctTokenPayment;

verus! {

/// A fee in hundredths of a percent.
pub type Percentage = u32;

/// The blocks between which the initial launch runs.
#[derive(Clone, Copy, Debug, PartialEq, Eq, Structural)]
pub struct InitialLaunchBlocks {
    pub start: u64,
    pub end: u64,
}

/// The limits and fees of the initial launch.
#[derive(Debug, PartialEq, Eq)]
pub struct InitialLaunchInfo {
    pub account_buy_limit: Amount,
    pub tx_buy_limit: Amount,
    pub buy_fee_percentage_start: Percentage,
    pub buy_fee_percentage_end: Percentage,
    pub sell_fee_percentage_start: Percentage,
    pub sell_fee_percentage_end: Percentage,
}

/// Why a buy or sell request is refused.
#[derive(Clone, Copy, Debug, PartialEq, Eq, Structural)]
pub enum LaunchError {
    /// The contract is paused.
    ContractPaused,
    /// The endpoint is only open during the initial launch, which is over.
    InitialLaunchPassed,
    /// The endpoint is closed during the initial launch.
    DuringInitialLaunch,
    /// The pair has no known endpoint.
    UnknownPair,
    /// The block is past the end of the initial launch.
    InvalidBuySellBlock,
    /// The payment does not cover the fees.
    PaymentTooSmall,
    /// More tokens were bought in one transaction than allowed.
    TxLimitExceeded,
    /// The account bought more tokens in total than allowed.
    TotalBuyExceeded,
}

/// The decrease of the fee after `current_block`, before its conversion to a
/// percentage.
pub open spec fn fee_decrease(
    fee_start: Percentage,
    fee_end: Percentage,
    blocks: InitialLaunchBlocks,
    current_block: u64,
) -> int {
    ((fee_start - fee_end) * (current_block - blocks.start)) / (blocks.end - blocks.start - 1)
}

/// The fee computation does not overflow or divide by zero: the block lies in
/// the launch, which spans at least two blocks, the fee does not increase, the
/// product fits a `u64` and the decrease, as a `u32`, does not exceed the
/// starting fee.
pub open spec fn fee_fits(
    fee_start: Percentage,
    fee_end: Percentage,
    blocks: InitialLaunchBlocks,
    current_block: u64,
) -> bool {
    current_block <= blocks.end ==> {
        &&& blocks.start <= current_block
        &&& blocks.end - blocks.start >= 2
        &&& fee_end <= fee_start
        &&& (fee_start - fee_end) * (current_block - blocks.start) <= u64::MAX
        &&& (fee_decrease(fee_start, fee_end, blocks, current_block) as u32) <= fee_start
    }
}

/// The fee at `current_block`.
pub open spec fn fee_percentage(
    fee_start: Percentage,
    fee_end: Percentage,
    blocks: InitialLaunchBlocks,
    current_block: u64,
) -> Result<Percentage, LaunchError> {
    if current_block > blocks.end {
        Err(LaunchError::InvalidBuySellBlock)
    } else {
        Ok((fee_start - (fee_decrease(fee_start, fee_end, blocks, current_block) as u32)) as u32)
    }
}

/// Whether a call made at `current_block` may go on while the launch runs.
pub open spec fn initial_launch_check(blocks: InitialLaunchBlocks, current_block: u64) -> Result<(), LaunchError> {
    if current_block <= blocks.end {
        Ok(())
    } else {
        Err(LaunchError::InitialLaunchPassed)
    }
}

/// Whether a call made at `current_block` may go on once the launch is over.
pub open spec fn after_launch_check(blocks: InitialLaunchBlocks, current_block: u64) -> Result<(), LaunchError> {
    if current_block > blocks.end {
        Ok(())
    } else {
        Err(LaunchError::DuringInitialLaunch)
    }
}

/// A buy or a sell that the checks let through: the fee to take from the
/// payment, and the swap to ask of the pair once the fee is taken.
pub struct TradeOpening {
    pub fee_percentage: Percentage,
    pub pair_address: Vec<u8>,
    pub token_out: Vec<u8>,
    pub amount_out_min: Amount,
}

/// The swap asked of the pair: at least `amount_out_min` of `token_out` for
/// `payment`.
pub struct SwapRequest {
    pub pair_address: Vec<u8>,
    pub token_out: Vec<u8>,
    pub amount_out_min: Amount,
    pub payment: DctTokenPayment,
}

/// Whether the checks before the fee let a trade through `pair_address` go on
/// at `current_block`.
pub open spec fn trade_may_open(
    paused: bool,
    blocks: InitialLaunchBlocks,
    known_pairs: Set<Seq<u8>>,
    pair_address: Seq<u8>,
    current_block: u64,
) -> bool {
    !paused && current_block <= blocks.end && known_pairs.contains(pair_address)
}

/// The swap to ask of the pair once the fees are taken: the first of the
/// transfers left after the fees goes to the pair, with the token and the
/// minimum of the opening; when no transfer is left the payment does not
/// cover the fees.
pub fn swap_request(opening: TradeOpening, fee_transfers: Vec<DctTokenPayment>) -> (r: Result<SwapRequest, LaunchError>)
    ensures
        fee_transfers@.len() == 0 ==> r == Err::<SwapRequest, LaunchError>(LaunchError::PaymentTooSmall),
        fee_transfers@.len() > 0 ==> {
            &&& r is Ok
            &&& r->Ok_0.pair_address == opening.pair_address
            &&& r->Ok_0.token_out == opening.token_out
            &&& r->Ok_0.amount_out_min == opening.amount_out_min
            &&& r->Ok_0.payment == fee_transfers@[0]
        },
{
    let mut transfers = fee_transfers;
    if transfers.len() == 0 {
        return Err(LaunchError::PaymentTooSmall);
    }
    let payment = transfers.remove(0);
    Ok(
        SwapRequest {
            pair_address: opening.pair_address,
            token_out: opening.token_out,
            amount_out_min: opening.amount_out_min,
            payment,
        },
    )
}

/// The checks that open a buy or a sell, then the fee that applies.
pub open spec fn trade_opening(
    paused: bool,
    blocks: InitialLaunchBlocks,
    known_pairs: Set<Seq<u8>>,
    pair_address: Seq<u8>,
    fee_start: Percentage,
    fee_end: Percentage,
    current_block: u64,
) -> Result<Percentage, LaunchError> {
    if paused {
        Err(LaunchError::ContractPaused)
    } else if current_block > blocks.end {
        Err(LaunchError::InitialLaunchPassed)
    } else if !known_pairs.contains(pair_address) {
        Err(LaunchError::UnknownPair)
    } else {
        fee_percentage(fee_start, fee_end, blocks, current_block)
    }
}

/// What an account has bought so far.
pub open spec fn bought_so_far(m: Map<Seq<u8>, nat>, account: Seq<u8>) -> nat {
    match stored(m, account) {
        Some(v) => v,
        None => 0,
    }
}

/// The new total of an account after it received `received` tokens, or why
/// the purchase is refused.
pub open spec fn purchase_outcome(
    bought: Map<Seq<u8>, nat>,
    account: Seq<u8>,
    received: nat,
    info: InitialLaunchInfo,
) -> Result<nat, LaunchError> {
    if received > info.tx_buy_limit@ {
        Err(LaunchError::TxLimitExceeded)
    } else if bought_so_far(bought, account) + received > info.account_buy_limit@ {
        Err(LaunchError::TotalBuyExceeded)
    } else {
        Ok(bought_so_far(bought, account) + received)
    }
}

/// What ends a trade: the fees to burn, if any, and the tokens to send to
/// the original caller.
pub struct TradeOutcome {
    pub burn: Option<DctTokenPayment>,
    pub recipient: Vec<u8>,
    pub send: DctTokenPayment,
}

/// The initial-launch logic of a fair-launch token contract: what it keeps in
/// storage, and its checks and computations.
pub trait InitialLaunchModule: Sized {
    /// Whether the contract is paused.
    spec fn spec_paused(&self) -> bool;

    /// The blocks of the initial launch.
    spec fn spec_initial_launch_blocks(&self) -> InitialLaunchBlocks;

    /// The limits and fees of the initial launch.
    spec fn spec_initial_launch_info(&self) -> InitialLaunchInfo;

    /// The pairs that have known endpoints.
    spec fn spec_known_pairs(&self) -> Set<Seq<u8>>;

    /// What each account bought during the launch.
    spec fn spec_total_bought(&self) -> Map<Seq<u8>, nat>;

    /// Reads whether the contract is paused.
    fn paused(&self) -> (r: bool)
        ensures
            r == self.spec_paused(),
    ;

    /// Reads the blocks of the initial launch.
    fn initial_launch_blocks(&self) -> (r: InitialLaunchBlocks)
        ensures
            r == self.spec_initial_launch_blocks(),
    ;

    /// Reads the limits and fees of the initial launch.
    fn initial_launch_info(&self) -> (r: &InitialLaunchInfo)
        ensures
            *r == self.spec_initial_launch_info(),
    ;

    /// Whether the pair at `address` has known endpoints.
    fn is_known_pair(&self, address: &Vec<u8>) -> (r: bool)
        ensures
            r == self.spec_known_pairs().contains(address@),
    ;

    /// Reads what `account` has bought (0 when nothing).
    fn total_bought(&self, account: &Vec<u8>) -> (r: Amount)
        ensures
            r@ == bought_so_far(self.spec_total_bought(), account@),
    ;

    /// Stores what `account` has bought.
    fn set_total_bought(&mut self, account: &Vec<u8>, total: Amount)
        ensures
            final(self).spec_total_bought() == old(self).spec_total_bought().insert(account@, total@),
            final(self).spec_paused() == old(self).spec_paused(),
            final(self).spec_initial_launch_blocks() == old(self).spec_initial_launch_blocks(),
            final(self).spec_initial_launch_info() == old(self).spec_initial_launch_info(),
            final(self).spec_known_pairs() == old(self).spec_known_pairs(),
    ;

    /// The fee at `current_block`: it starts at `fee_start` and decreases in
    /// proportion to the blocks passed since the start of the launch; a block
    /// past the end of the launch is refused.
    fn get_fee_percentage(&self, fee_start: Percentage, fee_end: Percentage, current_block: u64) -> (r: Result<
        Percentage,
        LaunchError,
    >)
        requires
            fee_fits(fee_start, fee_end, self.spec_initial_launch_blocks(), current_block),
        ensures
            r == fee_percentage(fee_start, fee_end, self.spec_initial_launch_blocks(), current_block),
    {
        let blocks = self.initial_launch_blocks();
        if current_block > blocks.end {
            return Err(LaunchError::InvalidBuySellBlock);
        }
        let blocks_passed_in_penalty_phase = current_block - blocks.start;
        let blocks_diff = blocks.end - blocks.start;
        let percentage_diff = fee_start - fee_end;
        let penalty_percentage_decrease = percentage_diff as u64 * blocks_passed_in_penalty_phase / (
        blocks_diff - 1);
        Ok(fee_start - penalty_percentage_decrease as u32)
    }

    /// Refuses a call made after the initial launch.
    fn require_initial_launch(&self, current_block: u64) -> (r: Result<(), LaunchError>)
        ensures
            r == initial_launch_check(self.spec_initial_launch_blocks(), current_block),
    {
        let blocks = self.initial_launch_blocks();
        if current_block <= blocks.end {
            Ok(())
        } else {
            Err(LaunchError::InitialLaunchPassed)
        }
    }

    /// Refuses a call made during the initial launch.
    fn require_not_initial_launch(&self, current_block: u64) -> (r: Result<(), LaunchError>)
        ensures
            r == after_launch_check(self.spec_initial_launch_blocks(), current_block),
    {
        let blocks = self.initial_launch_blocks();
        if current_block > blocks.end {
            Ok(())
        } else {
            Err(LaunchError::DuringInitialLaunch)
        }
    }

    /// The fees taken from a payment are burnt when the contract may burn the
    /// token; this is the amount to burn, if any.
    fn burn_tokens(&self, tokens: &DctTokenPayment, has_burn_role: bool) -> (r: Option<DctTokenPayment>)
        ensures
            has_burn_role ==> r is Some && r->Some_0@ == tokens@,
            !has_burn_role ==> r is None,
    {
        if has_burn_role {
            Some(tokens.duplicate())
        } else {
            None
        }
    }

    /// The checks that open a trade, then the fee that applies.
    fn open_trade(&self, pair_address: &Vec<u8>, fee_start: Percentage, fee_end: Percentage, current_block: u64) -> (r:
        Result<Percentage, LaunchError>)
        requires
            trade_may_open(
                self.spec_paused(),
                self.spec_initial_launch_blocks(),
                self.spec_known_pairs(),
                pair_address@,
                current_block,
            ) ==> fee_fits(fee_start, fee_end, self.spec_initial_launch_blocks(), current_block),
        ensures
            r == trade_opening(
                self.spec_paused(),
                self.spec_initial_launch_blocks(),
                self.spec_known_pairs(),
                pair_address@,
                fee_start,
                fee_end,
                current_block,
            ),
    {
        if self.paused() {
            return Err(LaunchError::ContractPaused);
        }
        match self.require_initial_launch(current_block) {
            Ok(()) => {},
            Err(e) => {
                return Err(e);
            },
        }
        if !self.is_known_pair(pair_address) {
            return Err(LaunchError::UnknownPair);
        }
        self.get_fee_percentage(fee_start, fee_end, current_block)
    }

    /// Opens a buy of `launched_token` through `pair_address`: the contract
    /// must not be paused, the launch must be running and the pair known;
    /// answers the buy fee that applies at `current_block` and the swap to ask
    /// of the pair, with the buyer's minimum.
    fn buy_token(&self, pair_address: &Vec<u8>, launched_token: &Vec<u8>, amount_out_min: Amount, current_block: u64) -> (r:
        Result<TradeOpening, LaunchError>)
        requires
            trade_may_open(
                self.spec_paused(),
                self.spec_initial_launch_blocks(),
                self.spec_known_pairs(),
                pair_address@,
                current_block,
            ) ==> fee_fits(
                self.spec_initial_launch_info().buy_fee_percentage_start,
                self.spec_initial_launch_info().buy_fee_percentage_end,
                self.spec_initial_launch_blocks(),
                current_block,
            ),
        ensures
            match trade_opening(
                self.spec_paused(),
                self.spec_initial_launch_blocks(),
                self.spec_known_pairs(),
                pair_address@,
                self.spec_initial_launch_info().buy_fee_percentage_start,
                self.spec_initial_launch_info().buy_fee_percentage_end,
                current_block,
            ) {
                Ok(fee) => {
                    &&& r is Ok
                    &&& r->Ok_0.fee_percentage == fee
                    &&& r->Ok_0.pair_address@ == pair_address@
                    &&& r->Ok_0.token_out@ == launched_token@
                    &&& r->Ok_0.amount_out_min == amount_out_min
                },
                Err(e) => r is Err && r->Err_0 == e,
            },
    {
        let info = self.initial_launch_info();
        match self.open_trade(pair_address, info.buy_fee_percentage_start, info.buy_fee_percentage_end, current_block) {
            Ok(fee_percentage) => {
                let pair = pair_address.clone();
                let token_out = launched_token.clone();
                assert(pair@ =~= pair_address@);
                assert(token_out@ =~= launched_token@);
                Ok(TradeOpening { fee_percentage, pair_address: pair, token_out, amount_out_min })
            },
            Err(e) => Err(e),
        }
    }

    /// Opens a sell through `pair_address` for at least `amount_out_min` of
    /// `out_token_id`, as a buy is opened, with the sell fee.
    fn sell_token(&self, pair_address: &Vec<u8>, out_token_id: &Vec<u8>, amount_out_min: Amount, current_block: u64) -> (r:
        Result<TradeOpening, LaunchError>)
        requires
            trade_may_open(
                self.spec_paused(),
                self.spec_initial_launch_blocks(),
                self.spec_known_pairs(),
                pair_address@,
                current_block,
            ) ==> fee_fits(
                self.spec_initial_launch_info().sell_fee_percentage_start,
                self.spec_initial_launch_info().sell_fee_percentage_end,
                self.spec_initial_launch_blocks(),
                current_block,
            ),
        ensures
            match trade_opening(
                self.spec_paused(),
                self.spec_initial_launch_blocks(),
                self.spec_known_pairs(),
                pair_address@,
                self.spec_initial_launch_info().sell_fee_percentage_start,
                self.spec_initial_launch_info().sell_fee_percentage_end,
                current_block,
            ) {
                Ok(fee) => {
                    &&& r is Ok
                    &&& r->Ok_0.fee_percentage == fee
                    &&& r->Ok_0.pair_address@ == pair_address@
                    &&& r->Ok_0.token_out@ == out_token_id@
                    &&& r->Ok_0.amount_out_min == amount_out_min
                },
                Err(e) => r is Err && r->Err_0 == e,
            },
    {
        let info = self.initial_launch_info();
        match self.open_trade(pair_address, info.sell_fee_percentage_start, info.sell_fee_percentage_end, current_block) {
            Ok(fee_percentage) => {
                let pair = pair_address.clone();
                let token_out = out_token_id.clone();
                assert(pair@ =~= pair_address@);
                assert(token_out@ =~= out_token_id@);
                Ok(TradeOpening { fee_percentage, pair_address: pair, token_out, amount_out_min })
            },
            Err(e) => Err(e),
        }
    }

    /// Records that `original_caller` received `received_amount` tokens from
    /// the pair: at most the per-transaction limit, and at most the account
    /// limit in total; a refused purchase leaves every count as it was.
    fn record_purchase(&mut self, original_caller: &Vec<u8>, received_amount: &Amount) -> (r: Result<(), LaunchError>)
        ensures
            match purchase_outcome(
                old(self).spec_total_bought(),
                original_caller@,
                received_amount@,
                old(self).spec_initial_launch_info(),
            ) {
                Ok(total) => {
                    &&& r is Ok
                    &&& final(self).spec_total_bought() == old(self).spec_total_bought().insert(
                        original_caller@,
                        total,
                    )
                    &&& final(self).spec_paused() == old(self).spec_paused()
                    &&& final(self).spec_initial_launch_blocks() == old(self).spec_initial_launch_blocks()
                    &&& final(self).spec_initial_launch_info() == old(self).spec_initial_launch_info()
                    &&& final(self).spec_known_pairs() == old(self).spec_known_pairs()
                },
                Err(e) => r == Err::<(), LaunchError>(e) && *final(self) == *old(self),
            },
    {
        let info = self.initial_launch_info();
        if !received_amount.le(&info.tx_buy_limit) {
            return Err(LaunchError::TxLimitExceeded);
        }
        let so_far = self.total_bought(original_caller);
        let total = so_far.add(received_amount);
        if !total.le(&info.account_buy_limit) {
            return Err(LaunchError::TotalBuyExceeded);
        }
        self.set_total_bought(original_caller, total);
        Ok(())
    }

    /// Ends a buy once the pair has answered with `received_tokens`: the
    /// purchase is recorded within the limits, the fees taken are burnt when
    /// the contract may burn them, and the received tokens go to the original
    /// caller.
    fn complete_buy(
        &mut self,
        original_caller: &Vec<u8>,
        received_tokens: DctTokenPayment,
        fees: &DctTokenPayment,
        has_burn_role: bool,
    ) -> (r: Result<TradeOutcome, LaunchError>)
        ensures
            match purchase_outcome(
                old(self).spec_total_bought(),
                original_caller@,
                received_tokens.amount@,
                old(self).spec_initial_launch_info(),
            ) {
                Ok(total) => {
                    &&& r is Ok
                    &&& r->Ok_0.recipient@ == original_caller@
                    &&& r->Ok_0.send == received_tokens
                    &&& (has_burn_role ==> r->Ok_0.burn is Some && r->Ok_0.burn->Some_0@ == fees@)
                    &&& (!has_burn_role ==> r->Ok_0.burn is None)
                    &&& final(self).spec_total_bought() == old(self).spec_total_bought().insert(
                        original_caller@,
                        total,
                    )
                    &&& final(self).spec_paused() == old(self).spec_paused()
                    &&& final(self).spec_initial_launch_blocks() == old(self).spec_initial_launch_blocks()
                    &&& final(self).spec_initial_launch_info() == old(self).spec_initial_launch_info()
                    &&& final(self).spec_known_pairs() == old(self).spec_known_pairs()
                },
                Err(e) => r is Err && r->Err_0 == e && *final(self) == *old(self),
            },
    {
        match self.record_purchase(original_caller, &received_tokens.amount) {
            Ok(()) => {},
            Err(e) => {
                return Err(e);
            },
        }
        let burn = self.burn_tokens(fees, has_burn_role);
        let recipient = original_caller.clone();
        assert(recipient@ =~= original_caller@);
        Ok(TradeOutcome { burn, recipient, send: received_tokens })
    }

    /// Ends a sell once the pair has answered with `received_tokens`: the
    /// fees taken are burnt when the contract may burn them, and the received
    /// tokens go to the original caller.
    fn complete_sell(
        &self,
        original_caller: &Vec<u8>,
        received_tokens: DctTokenPayment,
        fees: &DctTokenPayment,
        has_burn_role: bool,
    ) -> (r: TradeOutcome)
        ensures
            r.recipient@ == original_caller@,
            r.send == received_tokens,
            has_burn_role ==> r.burn is Some && r.burn->Some_0@ == fees@,
            !has_burn_role ==> r.burn is None,
    {
        let burn = self.burn_tokens(fees, has_burn_role);
        let recipient = original_caller.clone();
        assert(recipient@ =~= original_caller@);
        TradeOutcome { burn, recipient, send: received_tokens }
    }
}

/// The numbers that stored amounts stand for.
pub open spec fn amounts_view(m: Map<Seq<u8>, Amount>) -> Map<Seq<u8>, nat> {
    m.map_values(|a: Amount| a@)
}

/// The storage that the launch logic reads and writes.
pub struct InitialLaunchStorage {
    pub paused: bool,
    pub initial_launch_blocks: InitialLaunchBlocks,
    pub initial_launch_info: InitialLaunchInfo,
    /// The pairs that have known endpoints.
    pub known_contracts: ByteSet,
    /// What each account bought during the launch.
    pub total_bought: KeyedStore<Amount>,
}

impl InitialLaunchModule for InitialLaunchStorage {
    open spec fn spec_paused(&self) -> bool {
        self.paused
    }

    open spec fn spec_initial_launch_blocks(&self) -> InitialLaunchBlocks {
        self.initial_launch_blocks
    }

    open spec fn spec_initial_launch_info(&self) -> InitialLaunchInfo {
        self.initial_launch_info
    }

    open spec fn spec_known_pairs(&self) -> Set<Seq<u8>> {
        self.known_contracts@
    }

    open spec fn spec_total_bought(&self) -> Map<Seq<u8>, nat> {
        amounts_view(self.total_bought@)
    }

    fn paused(&self) -> (r: bool) {
        self.paused
    }

    fn initial_launch_blocks(&self) -> (r: InitialLaunchBlocks) {
        self.initial_launch_blocks
    }

    fn initial_launch_info(&self) -> (r: &InitialLaunchInfo) {
        &self.initial_launch_info
    }

    fn is_known_pair(&self, address: &Vec<u8>) -> (r: bool) {
        self.known_contracts.contains(address)
    }

    fn total_bought(&self, account: &Vec<u8>) -> (r: Amount) {
        match self.total_bought.get(account) {
            Some(v) => v.duplicate(),
            None => Amount::zero(),
        }
    }

    fn set_total_bought(&mut self, account: &Vec<u8>, total: Amount) {
        let key = account.clone();
        assert(key@ =~= account@);
        let ghost before = self.total_bought@;
        let ghost t = total@;
        self.total_bought.set(key, total);
        assert(amounts_view(before.insert(account@, self.total_bought@[account@])) =~= amounts_view(
            before,
        ).insert(account@, t));
    }
}

/// At every block exactly one of the launch-phase checks lets a call through.
pub proof fn lemma_launch_phases_exclusive(blocks: InitialLaunchBlocks, current_block: u64)
    ensures
        initial_launch_check(blocks, current_block) is Ok != after_launch_check(blocks, current_block) is Ok,
{
}

/// At the first block of the launch the fee is the starting fee.
pub proof fn lemma_fee_at_start(fee_start: Percentage, fee_end: Percentage, blocks: InitialLaunchBlocks)
    requires
        blocks.start <= blocks.end,
        fee_fits(fee_start, fee_end, blocks, blocks.start),
    ensures
        fee_percentage(fee_start, fee_end, blocks, blocks.start) == Ok::<Percentage, LaunchError>(fee_start),
{
    let d = blocks.end - blocks.start - 1;
    assert((fee_start - fee_end) * (blocks.start - blocks.start) == 0) by (nonlinear_arith);
    assert(0int / d == 0) by (nonlinear_arith)
        requires
            d > 0,
    ;
}

/// The fee does not increase from one block of the launch to a later one (on
/// the blocks where the decrease stays within the starting fee).
pub proof fn lemma_fee_non_increasing(
    fee_start: Percentage,
    fee_end: Percentage,
    blocks: InitialLaunchBlocks,
    earlier: u64,
    later: u64,
)
    requires
        earlier <= later <= blocks.end,
        fee_fits(fee_start, fee_end, blocks, earlier),
        fee_fits(fee_start, fee_end, blocks, later),
        fee_decrease(fee_start, fee_end, blocks, later) <= fee_start,
    ensures
        fee_percentage(fee_start, fee_end, blocks, later)->Ok_0 <= fee_percentage(
            fee_start,
            fee_end,
            blocks,
            earlier,
        )->Ok_0,
{
    let diff = (fee_start - fee_end) as int;
    let d = (blocks.end - blocks.start - 1) as int;
    let p1 = (earlier - blocks.start) as int;
    let p2 = (later - blocks.start) as int;
    assert(diff * p1 <= diff * p2) by (nonlinear_arith)
        requires
            0 <= diff,
            0 <= p1 <= p2,
    ;
    assert((diff * p1) / d <= (diff * p2) / d) by (nonlinear_arith)
        requires
            diff * p1 <= diff * p2,
            d > 0,
    ;
    assert(0 <= (diff * p1) / d) by (nonlinear_arith)
        requires
            0 <= diff,
            0 <= p1,
            d > 0,
    ;
    let x1 = fee_decrease(fee_start, fee_end, blocks, earlier);
    let x2 = fee_decrease(fee_start, fee_end, blocks, later);
    assert(0 <= x1 <= x2 <= fee_start);
}

/// A recorded purchase never takes an account past the account limit, and
/// never lowers what it has bought.
pub proof fn lemma_purchase_within_limit(
    bought: Map<Seq<u8>, nat>,
    account: Seq<u8>,
    received: nat,
    info: InitialLaunchInfo,
)
    requires
        purchase_outcome(bought, account, received, info) is Ok,
    ensures
        purchase_outcome(bought, account, received, info)->Ok_0 <= info.account_buy_limit@,
        purchase_outcome(bought, account, received, info)->Ok_0 == bought_so_far(bought, account) + received,
        received <= info.tx_buy_limit@,
{
}

/// Purchases keep every account within the account limit: when no account
/// is past it, none is after a recorded purchase either.
pub proof fn lemma_purchases_keep_every_account_within_limit(
    bought: Map<Seq<u8>, nat>,
    account: Seq<u8>,
    received: nat,
    info: InitialLaunchInfo,
)
    requires
        forall|a: Seq<u8>| #[trigger] bought_so_far(bought, a) <= info.account_buy_limit@,
        purchase_outcome(bought, account, received, info) is Ok,
    ensures
        forall|a: Seq<u8>|
            #[trigger] bought_so_far(
                bought.insert(account, purchase_outcome(bought, account, received, info)->Ok_0),
                a,
            ) <= info.account_buy_limit@,
{
    let total = purchase_outcome(bought, account, received, info)->Ok_0;
    assert forall|a: Seq<u8>| #[trigger] bought_so_far(bought.insert(account, total), a) <= info.account_buy_limit@ by {
        if a != account {
            assert(bought_so_far(bought, a) <= info.account_buy_limit@);
        }
    }
}

/// A purchase is accepted exactly when it is within both limits: what was
/// received is at most the per-transaction limit, and what the account
/// bought in all, this purchase included, is at most the account limit. It
/// is refused for the transaction limit exactly when the amount received
/// exceeds it, whatever the account bought before; an accepted purchase
/// adds what was received to the account's total.
pub proof fn lemma_purchase_accepted_within_limits(
    bought: Map<Seq<u8>, nat>,
    account: Seq<u8>,
    received: nat,
    info: InitialLaunchInfo,
)
    ensures
        purchase_outcome(bought, account, received, info) is Ok <==> (received <= info.tx_buy_limit@
            && bought_so_far(bought, account) + received <= info.account_buy_limit@),
        purchase_outcome(bought, account, received, info) == Err::<nat, LaunchError>(
            LaunchError::TxLimitExceeded,
        ) <==> received > info.tx_buy_limit@,
        purchase_outcome(bought, account, received, info) is Ok ==> purchase_outcome(
            bought,
            account,
            received,
            info,
        )->Ok_0 == bought_so_far(bought, account) + received,
{
}

/// Inside the launch the fee falls from the starting fee in proportion to the
/// blocks passed: at block `b` it is the starting fee less the fee difference
/// times the blocks passed since the start, divided by the length of the
/// launch less two blocks (rounded down), on every block where the original
/// computation neither overflows nor goes below zero.
pub proof fn lemma_fee_formula(fee_start: Percentage, fee_end: Percentage, blocks: InitialLaunchBlocks, b: u64)
    requires
        blocks.start <= b <= blocks.end,
        blocks.end - blocks.start >= 2,
        fee_end <= fee_start,
        (fee_start - fee_end) * (b - blocks.start) <= u64::MAX,
        ((fee_start - fee_end) * (b - blocks.start)) / (blocks.end - blocks.start - 1) <= fee_start,
    ensures
        fee_percentage(fee_start, fee_end, blocks, b) == Ok::<Percentage, LaunchError>(
            (fee_start - ((fee_start - fee_end) * (b - blocks.start)) / (blocks.end - blocks.start - 1)) as u32,
        ),
{
}

/// At the last block before the end of the launch the fee has come down to
/// the end fee.
pub proof fn lemma_fee_reaches_end(fee_start: Percentage, fee_end: Percentage, blocks: InitialLaunchBlocks)
    requires
        blocks.start <= blocks.end,
        blocks.end - blocks.start >= 2,
        fee_end <= fee_start,
        (fee_start - fee_end) * (blocks.end - 1 - blocks.start) <= u64::MAX,
    ensures
        fee_percentage(fee_start, fee_end, blocks, (blocks.end - 1) as u64) == Ok::<Percentage, LaunchError>(
            fee_end,
        ),
{
    let d = (blocks.end - blocks.start - 1) as int;
    let diff = (fee_start - fee_end) as int;
    assert((diff * d) / d == diff) by (nonlinear_arith)
        requires
            d > 0,
    ;
    lemma_fee_formula(fee_start, fee_end, blocks, (blocks.end - 1) as u64);
}

} // verus!
