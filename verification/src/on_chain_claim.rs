//! Daily (per-epoch) claims with streaks, and paid repair of a broken streak.
use vstd::prelude::*;

use crate::amount::Amount;
use crate::collections::{stored, ByteSet, KeyedStore};
use crate::payment::DctTokenPayment;
use crate::token_identifier::{is_valid_token_identifier, validate_token_identifier};

verus! {

/// The largest number of missed epochs that a repair may cover.
pub const MAX_REPAIR_GAP: u64 = 5;

/// The amount of the repair token that a repair costs.
pub const SFT_AMOUNT: u64 = 1;

/// What the contract remembers of an address's claims.
#[derive(Clone, Copy, Debug, PartialEq, Eq, Structural)]
pub struct AddressInfo {
    pub current_streak: u64,
    pub last_epoch_claimed: u64,
    pub total_epochs_claimed: u64,
    pub best_streak: u64,
}

impl AddressInfo {
    /// A record with the four values given.
    pub fn new(
        current_streak: u64,
        last_epoch_claimed: u64,
        total_epochs_claimed: u64,
        best_streak: u64,
    ) -> (r: AddressInfo)
        ensures
            r == (AddressInfo { current_streak, last_epoch_claimed, total_epochs_claimed, best_streak }),
    {
        AddressInfo { current_streak, last_epoch_claimed, total_epochs_claimed, best_streak }
    }

    /// The record of a first claim, made in `current_epoch`.
    pub fn new_with_epoch(current_epoch: u64) -> (r: AddressInfo)
        ensures
            r == first_claim(current_epoch),
    {
        AddressInfo {
            current_streak: 1,
            last_epoch_claimed: current_epoch,
            total_epochs_claimed: 1,
            best_streak: 1,
        }
    }
}

/// The record of a first claim in epoch `e`.
pub open spec fn first_claim(e: u64) -> AddressInfo {
    AddressInfo { current_streak: 1, last_epoch_claimed: e, total_epochs_claimed: 1, best_streak: 1 }
}

/// Why a request to the claim contract is refused.
#[derive(Clone, Copy, Debug, PartialEq, Eq, Structural)]
pub enum ClaimError {
    /// Only user accounts can claim or repair.
    SmartContractCaller,
    /// The address is not in the contract's shard.
    WrongShard,
    /// The address already claimed in this epoch (or a later one).
    EpochAlreadyClaimed,
    /// A repair was paid with another token than the repair token.
    BadPaymentToken,
    /// A repair was paid with another amount than `SFT_AMOUNT`.
    BadPaymentAmount,
    /// A repair was asked for an address that never claimed.
    UnknownAddress,
    /// No epoch was missed, or more than `MAX_REPAIR_GAP` were.
    CannotRepairEpoch,
    /// The caller is not an admin.
    NotAdmin,
    /// The repair token identifier is not a valid token identifier.
    InvalidTokenId,
}

/// What the blockchain tells about a claiming caller and the moment.
#[derive(Clone, Copy, Debug)]
pub struct ClaimContext {
    pub caller_is_smart_contract: bool,
    pub caller_in_same_shard: bool,
    pub current_epoch: u64,
}

/// The number of whole epochs strictly between the last claim and now.
pub open spec fn missed_epochs(current_epoch: u64, last_epoch_claimed: u64) -> int {
    if current_epoch <= last_epoch_claimed {
        0
    } else {
        current_epoch - last_epoch_claimed - 1
    }
}

/// The number of whole epochs strictly between `last_epoch_claimed` and
/// `current_epoch` (0 when the last claim is not earlier).
pub fn get_missed_epochs(current_epoch: u64, last_epoch_claimed: u64) -> (r: u64)
    ensures
        r == missed_epochs(current_epoch, last_epoch_claimed),
{
    if current_epoch <= last_epoch_claimed {
        0
    } else {
        current_epoch - last_epoch_claimed - 1
    }
}

/// The larger of a best streak and a new current streak.
pub open spec fn best_of(best: u64, current: u64) -> u64 {
    if best < current {
        current
    } else {
        best
    }
}

/// The streak that a claim in epoch `e` gives after record `a`.
pub open spec fn next_streak(a: AddressInfo, e: u64) -> int {
    if a.last_epoch_claimed + 1 == e {
        a.current_streak + 1
    } else {
        1
    }
}

/// What a claim in epoch `e` makes of the stored record `prev`.
pub open spec fn claim_result(prev: Option<AddressInfo>, e: u64) -> Result<AddressInfo, ClaimError> {
    match prev {
        None => Ok(first_claim(e)),
        Some(a) => if a.last_epoch_claimed >= e {
            Err(ClaimError::EpochAlreadyClaimed)
        } else {
            let s = next_streak(a, e) as u64;
            Ok(
                AddressInfo {
                    current_streak: s,
                    last_epoch_claimed: e,
                    total_epochs_claimed: (a.total_epochs_claimed + 1) as u64,
                    best_streak: best_of(a.best_streak, s),
                },
            )
        },
    }
}

/// A claim in epoch `e` after `prev` counts without overflowing a `u64`.
pub open spec fn claim_fits(prev: Option<AddressInfo>, e: u64) -> bool {
    match prev {
        None => true,
        Some(a) => a.last_epoch_claimed < e ==> {
            &&& next_streak(a, e) <= u64::MAX
            &&& a.total_epochs_claimed + 1 <= u64::MAX
        },
    }
}

/// What a repair in epoch `e` makes of the stored record `a`.
pub open spec fn repair_result(a: AddressInfo, e: u64) -> Result<AddressInfo, ClaimError> {
    let missed = missed_epochs(e, a.last_epoch_claimed);
    if !(missed > 0 && missed <= MAX_REPAIR_GAP) {
        Err(ClaimError::CannotRepairEpoch)
    } else {
        let s = (a.current_streak + missed + 1) as u64;
        Ok(
            AddressInfo {
                current_streak: s,
                last_epoch_claimed: e,
                total_epochs_claimed: (a.total_epochs_claimed + missed + 1) as u64,
                best_streak: best_of(a.best_streak, s),
            },
        )
    }
}

/// A repair in epoch `e` after `a` counts without overflowing a `u64`.
pub open spec fn repair_fits(a: AddressInfo, e: u64) -> bool {
    let missed = missed_epochs(e, a.last_epoch_claimed);
    (missed > 0 && missed <= MAX_REPAIR_GAP) ==> {
        &&& a.current_streak + missed + 1 <= u64::MAX
        &&& a.total_epochs_claimed + missed + 1 <= u64::MAX
    }
}

/// The new record of an address after a claim in `current_epoch`: a first
/// claim starts every count at 1; a claim in the epoch right after the last
/// one extends the streak, a later one restarts it at 1; a claim in the same
/// or an earlier epoch is refused.
pub fn claim_record(prev: Option<AddressInfo>, current_epoch: u64) -> (r: Result<AddressInfo, ClaimError>)
    requires
        claim_fits(prev, current_epoch),
    ensures
        r == claim_result(prev, current_epoch),
{
    match prev {
        None => Ok(AddressInfo::new_with_epoch(current_epoch)),
        Some(a) => {
            if a.last_epoch_claimed >= current_epoch {
                return Err(ClaimError::EpochAlreadyClaimed);
            }
            let mut info = a;
            if info.last_epoch_claimed + 1 == current_epoch {
                info.current_streak = info.current_streak + 1;
            } else {
                info.current_streak = 1;
            }
            info.total_epochs_claimed = info.total_epochs_claimed + 1;
            info.last_epoch_claimed = current_epoch;
            if info.best_streak < info.current_streak {
                info.best_streak = info.current_streak;
            }
            Ok(info)
        },
    }
}

/// The new record of an address after a paid repair in `current_epoch`:
/// between 1 and `MAX_REPAIR_GAP` missed epochs are counted as claimed,
/// together with the current one.
pub fn repair_record(a: AddressInfo, current_epoch: u64) -> (r: Result<AddressInfo, ClaimError>)
    requires
        repair_fits(a, current_epoch),
    ensures
        r == repair_result(a, current_epoch),
{
    let missed = get_missed_epochs(current_epoch, a.last_epoch_claimed);
    if !(missed > 0 && missed <= MAX_REPAIR_GAP) {
        return Err(ClaimError::CannotRepairEpoch);
    }
    let mut info = a;
    info.current_streak = info.current_streak + missed + 1;
    info.total_epochs_claimed = info.total_epochs_claimed + missed + 1;
    info.last_epoch_claimed = current_epoch;
    if info.best_streak < info.current_streak {
        info.best_streak = info.current_streak;
    }
    Ok(info)
}

/// The outcome of a claim request: the caller checks, then the record update.
pub open spec fn claim_outcome(prev: Option<AddressInfo>, ctx: ClaimContext) -> Result<AddressInfo, ClaimError> {
    if ctx.caller_is_smart_contract {
        Err(ClaimError::SmartContractCaller)
    } else if !ctx.caller_in_same_shard {
        Err(ClaimError::WrongShard)
    } else {
        claim_result(prev, ctx.current_epoch)
    }
}

/// The outcome of a repair request: caller checks, payment checks, then the
/// record update.
pub open spec fn repair_outcome(
    prev: Option<AddressInfo>,
    ctx: ClaimContext,
    repair_token: Seq<u8>,
    payment: DctTokenPayment,
) -> Result<AddressInfo, ClaimError> {
    if ctx.caller_is_smart_contract {
        Err(ClaimError::SmartContractCaller)
    } else if !ctx.caller_in_same_shard {
        Err(ClaimError::WrongShard)
    } else if payment.token_identifier@ != repair_token {
        Err(ClaimError::BadPaymentToken)
    } else if payment.amount@ != SFT_AMOUNT {
        Err(ClaimError::BadPaymentAmount)
    } else {
        match prev {
            None => Err(ClaimError::UnknownAddress),
            Some(a) => repair_result(a, ctx.current_epoch),
        }
    }
}

/// The claim contract: what it keeps in storage, and its endpoints.
pub trait OnChainClaimContract: Sized {
    /// The record of each address that ever claimed.
    spec fn spec_address_info(&self) -> Map<Seq<u8>, AddressInfo>;

    /// The token that pays for a repair.
    spec fn spec_repair_streak_token_identifier(&self) -> Seq<u8>;

    /// The addresses allowed to administer the contract.
    spec fn spec_admins(&self) -> Set<Seq<u8>>;

    /// Reads the record of `address`.
    fn address_info(&self, address: &Vec<u8>) -> (r: Option<AddressInfo>)
        ensures
            r == stored(self.spec_address_info(), address@),
    ;

    /// Stores the record of `address`.
    fn set_address_info(&mut self, address: &Vec<u8>, info: AddressInfo)
        ensures
            final(self).spec_address_info() == old(self).spec_address_info().insert(address@, info),
            final(self).spec_repair_streak_token_identifier() == old(self).spec_repair_streak_token_identifier(),
            final(self).spec_admins() == old(self).spec_admins(),
    ;

    /// Reads the repair token.
    fn repair_streak_token_identifier(&self) -> (r: Vec<u8>)
        ensures
            r@ == self.spec_repair_streak_token_identifier(),
    ;

    /// Stores the repair token.
    fn store_repair_streak_token_identifier(&mut self, token_id: Vec<u8>)
        ensures
            final(self).spec_repair_streak_token_identifier() == token_id@,
            final(self).spec_address_info() == old(self).spec_address_info(),
            final(self).spec_admins() == old(self).spec_admins(),
    ;

    /// Whether `address` is an admin.
    fn is_admin(&self, address: &Vec<u8>) -> (r: bool)
        ensures
            r == self.spec_admins().contains(address@),
    ;

    /// Makes `address` an admin.
    fn add_admin(&mut self, address: Vec<u8>)
        ensures
            final(self).spec_admins() == old(self).spec_admins().insert(address@),
            final(self).spec_address_info() == old(self).spec_address_info(),
            final(self).spec_repair_streak_token_identifier() == old(self).spec_repair_streak_token_identifier(),
    ;

    /// Deploys the contract: the repair token must be a valid token
    /// identifier; the deployer becomes an admin.
    fn init(&mut self, repair_streak_token_id: Vec<u8>, caller: Vec<u8>) -> (r: Result<(), ClaimError>)
        ensures
            r is Ok <==> is_valid_token_identifier(repair_streak_token_id@),
            r is Err ==> r == Err::<(), ClaimError>(ClaimError::InvalidTokenId) && *final(self) == *old(self),
            r is Ok ==> {
                &&& final(self).spec_repair_streak_token_identifier() == repair_streak_token_id@
                &&& final(self).spec_admins() == old(self).spec_admins().insert(caller@)
                &&& final(self).spec_address_info() == old(self).spec_address_info()
            },
    {
        match self.internal_set_repair_streak_token_id(repair_streak_token_id) {
            Ok(()) => {},
            Err(e) => {
                return Err(e);
            },
        }
        self.add_admin(caller);
        Ok(())
    }

    /// Upgrading keeps the state as it is.
    fn upgrade(&mut self)
        ensures
            *final(self) == *old(self),
    {
    }

    /// Records a claim of `caller` in the current epoch.
    fn claim(&mut self, caller: &Vec<u8>, ctx: &ClaimContext) -> (r: Result<(), ClaimError>)
        requires
            !ctx.caller_is_smart_contract && ctx.caller_in_same_shard ==> claim_fits(
                stored(old(self).spec_address_info(), caller@),
                ctx.current_epoch,
            ),
        ensures
            match claim_outcome(stored(old(self).spec_address_info(), caller@), *ctx) {
                Ok(info) => {
                    &&& r is Ok
                    &&& final(self).spec_address_info() == old(self).spec_address_info().insert(caller@, info)
                    &&& final(self).spec_admins() == old(self).spec_admins()
                    &&& final(self).spec_repair_streak_token_identifier()
                        == old(self).spec_repair_streak_token_identifier()
                },
                Err(e) => r == Err::<(), ClaimError>(e) && *final(self) == *old(self),
            },
    {
        if ctx.caller_is_smart_contract {
            return Err(ClaimError::SmartContractCaller);
        }
        if !ctx.caller_in_same_shard {
            return Err(ClaimError::WrongShard);
        }
        let prev = self.address_info(caller);
        match claim_record(prev, ctx.current_epoch) {
            Ok(info) => {
                self.set_address_info(caller, info);
                Ok(())
            },
            Err(e) => Err(e),
        }
    }

    /// Repairs the streak of `caller` against a payment of `SFT_AMOUNT` of the
    /// repair token; on success hands back the payment, which is to be burnt.
    fn claim_and_repair(
        &mut self,
        caller: &Vec<u8>,
        ctx: &ClaimContext,
        payment: DctTokenPayment,
    ) -> (r: Result<DctTokenPayment, ClaimError>)
        requires
            !ctx.caller_is_smart_contract && ctx.caller_in_same_shard && payment.token_identifier@
                == old(self).spec_repair_streak_token_identifier() && payment.amount@ == SFT_AMOUNT
                ==> match stored(old(self).spec_address_info(), caller@) {
                Some(a) => repair_fits(a, ctx.current_epoch),
                None => true,
            },
        ensures
            match repair_outcome(
                stored(old(self).spec_address_info(), caller@),
                *ctx,
                old(self).spec_repair_streak_token_identifier(),
                payment,
            ) {
                Ok(info) => {
                    &&& r == Ok::<DctTokenPayment, ClaimError>(payment)
                    &&& final(self).spec_address_info() == old(self).spec_address_info().insert(caller@, info)
                    &&& final(self).spec_admins() == old(self).spec_admins()
                    &&& final(self).spec_repair_streak_token_identifier()
                        == old(self).spec_repair_streak_token_identifier()
                },
                Err(e) => r == Err::<DctTokenPayment, ClaimError>(e) && *final(self) == *old(self),
            },
    {
        if ctx.caller_is_smart_contract {
            return Err(ClaimError::SmartContractCaller);
        }
        if !ctx.caller_in_same_shard {
            return Err(ClaimError::WrongShard);
        }
        let repair_token = self.repair_streak_token_identifier();
        if !(payment.token_identifier == repair_token) {
            assert(payment.token_identifier@ != repair_token@);
            return Err(ClaimError::BadPaymentToken);
        }
        assert(payment.token_identifier@ =~= repair_token@);
        let repair_cost = Amount::from_u128(SFT_AMOUNT as u128);
        if !payment.amount.equals(&repair_cost) {
            return Err(ClaimError::BadPaymentAmount);
        }
        let prev = match self.address_info(caller) {
            Some(a) => a,
            None => {
                return Err(ClaimError::UnknownAddress);
            },
        };
        match repair_record(prev, ctx.current_epoch) {
            Ok(info) => {
                self.set_address_info(caller, info);
                Ok(payment)
            },
            Err(e) => Err(e),
        }
    }

    /// An admin overwrites the record of `address` with the four values given.
    fn update_state(
        &mut self,
        caller: &Vec<u8>,
        address: &Vec<u8>,
        address_in_same_shard: bool,
        current_streak: u64,
        last_epoch_claimed: u64,
        total_epochs_claimed: u64,
        best_streak: u64,
    ) -> (r: Result<(), ClaimError>)
        ensures
            !old(self).spec_admins().contains(caller@) ==> r == Err::<(), ClaimError>(ClaimError::NotAdmin),
            old(self).spec_admins().contains(caller@) && !address_in_same_shard ==> r == Err::<(), ClaimError>(
                ClaimError::WrongShard,
            ),
            old(self).spec_admins().contains(caller@) && address_in_same_shard ==> {
                &&& r is Ok
                &&& final(self).spec_address_info() == old(self).spec_address_info().insert(
                    address@,
                    AddressInfo { current_streak, last_epoch_claimed, total_epochs_claimed, best_streak },
                )
                &&& final(self).spec_admins() == old(self).spec_admins()
                &&& final(self).spec_repair_streak_token_identifier()
                    == old(self).spec_repair_streak_token_identifier()
            },
            r is Err ==> *final(self) == *old(self),
    {
        if !self.is_admin(caller) {
            return Err(ClaimError::NotAdmin);
        }
        if !address_in_same_shard {
            return Err(ClaimError::WrongShard);
        }
        let info = AddressInfo::new(current_streak, last_epoch_claimed, total_epochs_claimed, best_streak);
        self.set_address_info(address, info);
        Ok(())
    }

    /// An admin sets a new repair token, which must be a valid token
    /// identifier.
    fn set_repair_streak_token_id(&mut self, caller: &Vec<u8>, repair_streak_token_id: Vec<u8>) -> (r: Result<
        (),
        ClaimError,
    >)
        ensures
            !old(self).spec_admins().contains(caller@) ==> r == Err::<(), ClaimError>(ClaimError::NotAdmin),
            old(self).spec_admins().contains(caller@) ==> {
                &&& r is Ok <==> is_valid_token_identifier(repair_streak_token_id@)
                &&& r is Err ==> r == Err::<(), ClaimError>(ClaimError::InvalidTokenId)
            },
            r is Ok ==> {
                &&& final(self).spec_repair_streak_token_identifier() == repair_streak_token_id@
                &&& final(self).spec_admins() == old(self).spec_admins()
                &&& final(self).spec_address_info() == old(self).spec_address_info()
            },
            r is Err ==> *final(self) == *old(self),
    {
        if !self.is_admin(caller) {
            return Err(ClaimError::NotAdmin);
        }
        self.internal_set_repair_streak_token_id(repair_streak_token_id)
    }

    /// Sets the repair token, which must be a valid token identifier.
    fn internal_set_repair_streak_token_id(&mut self, repair_streak_token_id: Vec<u8>) -> (r: Result<
        (),
        ClaimError,
    >)
        ensures
            r is Ok <==> is_valid_token_identifier(repair_streak_token_id@),
            r is Err ==> r == Err::<(), ClaimError>(ClaimError::InvalidTokenId) && *final(self) == *old(self),
            r is Ok ==> {
                &&& final(self).spec_repair_streak_token_identifier() == repair_streak_token_id@
                &&& final(self).spec_admins() == old(self).spec_admins()
                &&& final(self).spec_address_info() == old(self).spec_address_info()
            },
    {
        if !validate_token_identifier(&repair_streak_token_id) {
            return Err(ClaimError::InvalidTokenId);
        }
        self.store_repair_streak_token_identifier(repair_streak_token_id);
        Ok(())
    }
}

/// The storage of the claim contract: the repair token, the admins and one
/// record per address that ever claimed.
pub struct OnChainClaimStorage {
    pub repair_streak_token_identifier: Vec<u8>,
    pub admins: ByteSet,
    pub address_info: KeyedStore<AddressInfo>,
}

impl OnChainClaimStorage {
    /// Empty storage, before deployment.
    pub fn new() -> (r: OnChainClaimStorage)
        ensures
            r.spec_address_info() == Map::<Seq<u8>, AddressInfo>::empty(),
            r.spec_admins() == Set::<Seq<u8>>::empty(),
            r.spec_repair_streak_token_identifier() == Seq::<u8>::empty(),
    {
        let r = OnChainClaimStorage {
            repair_streak_token_identifier: Vec::new(),
            admins: ByteSet::new(),
            address_info: KeyedStore::new(),
        };
        assert(r.repair_streak_token_identifier@ =~= Seq::<u8>::empty());
        r
    }
}

impl OnChainClaimContract for OnChainClaimStorage {
    open spec fn spec_address_info(&self) -> Map<Seq<u8>, AddressInfo> {
        self.address_info@
    }

    open spec fn spec_repair_streak_token_identifier(&self) -> Seq<u8> {
        self.repair_streak_token_identifier@
    }

    open spec fn spec_admins(&self) -> Set<Seq<u8>> {
        self.admins@
    }

    fn address_info(&self, address: &Vec<u8>) -> (r: Option<AddressInfo>) {
        match self.address_info.get(address) {
            Some(a) => Some(*a),
            None => None,
        }
    }

    fn set_address_info(&mut self, address: &Vec<u8>, info: AddressInfo) {
        let key = address.clone();
        assert(key@ =~= address@);
        self.address_info.set(key, info);
    }

    fn repair_streak_token_identifier(&self) -> (r: Vec<u8>) {
        let r = self.repair_streak_token_identifier.clone();
        assert(r@ =~= self.repair_streak_token_identifier@);
        r
    }

    fn store_repair_streak_token_identifier(&mut self, token_id: Vec<u8>) {
        self.repair_streak_token_identifier = token_id;
    }

    fn is_admin(&self, address: &Vec<u8>) -> (r: bool) {
        self.admins.contains(address)
    }

    fn add_admin(&mut self, address: Vec<u8>) {
        let _ = self.admins.insert(address);
    }
}

/// The record after claiming in each of the `k` epochs that follow the last
/// claim of `a`, one claim per epoch.
pub open spec fn claim_each_epoch(a: AddressInfo, k: nat) -> AddressInfo
    decreases k,
{
    if k == 0 {
        a
    } else {
        match claim_result(Some(claim_each_epoch(a, (k - 1) as nat)), (a.last_epoch_claimed + k) as u64) {
            Ok(info) => info,
            Err(_) => a,
        }
    }
}

/// A second claim in the epoch of a successful claim is refused.
pub proof fn lemma_claim_twice_in_epoch_refused(prev: Option<AddressInfo>, e: u64)
    requires
        claim_result(prev, e) is Ok,
    ensures
        claim_result(Some(claim_result(prev, e)->Ok_0), e) == Err::<AddressInfo, ClaimError>(
            ClaimError::EpochAlreadyClaimed,
        ),
{
}

/// After a successful claim in epoch `e`: the last claimed epoch is `e`, the
/// streak is at least 1 and the best streak is at least the current one; a
/// claim in the epoch right after the last one extends the streak by one, a
/// later one restarts it at 1, every claim but the first adds exactly one
/// claimed epoch, and a record whose streak and best streak do not exceed its
/// total of claimed epochs keeps them so.
pub proof fn lemma_claim_counts(prev: Option<AddressInfo>, e: u64)
    requires
        claim_fits(prev, e),
        claim_result(prev, e) is Ok,
    ensures
        ({
            let info = claim_result(prev, e)->Ok_0;
            &&& info.last_epoch_claimed == e
            &&& info.current_streak >= 1
            &&& info.best_streak >= info.current_streak
            &&& match prev {
                None => info == first_claim(e),
                Some(a) => {
                    &&& a.last_epoch_claimed + 1 == e ==> info.current_streak == a.current_streak + 1
                    &&& a.last_epoch_claimed + 1 < e ==> info.current_streak == 1
                    &&& info.total_epochs_claimed == a.total_epochs_claimed + 1
                    &&& info.best_streak >= a.best_streak
                    &&& a.current_streak <= a.total_epochs_claimed ==> info.current_streak
                        <= info.total_epochs_claimed
                    &&& a.current_streak <= a.total_epochs_claimed && a.best_streak
                        <= a.total_epochs_claimed ==> info.best_streak <= info.total_epochs_claimed
                },
            }
        }),
{
}

/// After a successful repair the best streak is at least the current one and
/// never falls, the last claimed epoch is the current epoch, streak and total
/// grow by the same count, and a record whose streak and best streak do not
/// exceed its total of claimed epochs keeps them so.
pub proof fn lemma_repair_counts(a: AddressInfo, e: u64)
    requires
        repair_fits(a, e),
        repair_result(a, e) is Ok,
    ensures
        ({
            let info = repair_result(a, e)->Ok_0;
            &&& info.last_epoch_claimed == e
            &&& info.best_streak >= info.current_streak
            &&& info.current_streak == a.current_streak + (e - a.last_epoch_claimed)
            &&& info.total_epochs_claimed == a.total_epochs_claimed + (e - a.last_epoch_claimed)
            &&& info.best_streak >= a.best_streak
            &&& a.current_streak <= a.total_epochs_claimed ==> info.current_streak
                <= info.total_epochs_claimed
            &&& a.current_streak <= a.total_epochs_claimed && a.best_streak <= a.total_epochs_claimed
                ==> info.best_streak <= info.total_epochs_claimed
        }),
{
}

/// Claiming in each of `k` consecutive epochs after the last claim extends
/// every count by `k`.
pub proof fn lemma_claim_each_epoch(a: AddressInfo, k: nat)
    requires
        k >= 1,
        a.last_epoch_claimed + k <= u64::MAX,
        a.current_streak + k <= u64::MAX,
        a.total_epochs_claimed + k <= u64::MAX,
    ensures
        claim_each_epoch(a, k) == (AddressInfo {
            current_streak: (a.current_streak + k) as u64,
            last_epoch_claimed: (a.last_epoch_claimed + k) as u64,
            total_epochs_claimed: (a.total_epochs_claimed + k) as u64,
            best_streak: best_of(a.best_streak, (a.current_streak + k) as u64),
        }),
    decreases k,
{
    let e = (a.last_epoch_claimed + k) as u64;
    let prev = claim_each_epoch(a, (k - 1) as nat);
    if k > 1 {
        lemma_claim_each_epoch(a, (k - 1) as nat);
        assert(prev.last_epoch_claimed + 1 == e);
        assert(next_streak(prev, e) == a.current_streak + k);
    } else {
        assert(prev == a);
        assert(next_streak(prev, e) == a.current_streak + 1);
    }
    assert(claim_each_epoch(a, k) == claim_result(Some(prev), e)->Ok_0);
}

/// A paid repair in epoch `e` leaves the record exactly as one claim in each
/// epoch from the one after the last claim up to `e` would have left it.
pub proof fn lemma_repair_equals_missed_claims(a: AddressInfo, e: u64)
    requires
        repair_fits(a, e),
        repair_result(a, e) is Ok,
    ensures
        repair_result(a, e) == Ok::<AddressInfo, ClaimError>(
            claim_each_epoch(a, (e - a.last_epoch_claimed) as nat),
        ),
{
    lemma_claim_each_epoch(a, (e - a.last_epoch_claimed) as nat);
}

/// A first claim is always accepted and starts every count at 1.
pub proof fn lemma_first_claim_accepted(e: u64)
    ensures
        claim_result(None, e) == Ok::<AddressInfo, ClaimError>(
            AddressInfo { current_streak: 1, last_epoch_claimed: e, total_epochs_claimed: 1, best_streak: 1 },
        ),
{
}

/// A claim after the record `a` is refused only in the epoch of the last
/// claim or an earlier one: a claim in any later epoch, however many epochs
/// were missed, is accepted. It records the epoch, adds one claimed epoch,
/// extends the streak by one in the epoch right after the last claim and
/// restarts it at 1 otherwise, and keeps the larger of the best and the new
/// streak.
pub proof fn lemma_claim_accepted(a: AddressInfo, e: u64)
    requires
        claim_fits(Some(a), e),
    ensures
        claim_result(Some(a), e) is Ok <==> a.last_epoch_claimed < e,
        a.last_epoch_claimed >= e ==> claim_result(Some(a), e) == Err::<AddressInfo, ClaimError>(
            ClaimError::EpochAlreadyClaimed,
        ),
        a.last_epoch_claimed < e ==> {
            let info = claim_result(Some(a), e)->Ok_0;
            &&& info.last_epoch_claimed == e
            &&& info.total_epochs_claimed == a.total_epochs_claimed + 1
            &&& info.current_streak == (if a.last_epoch_claimed + 1 == e {
                a.current_streak + 1
            } else {
                1
            })
            &&& info.best_streak == (if a.best_streak >= info.current_streak {
                a.best_streak as int
            } else {
                info.current_streak as int
            })
        },
{
}

/// A repair is accepted exactly when between 1 and `MAX_REPAIR_GAP` epochs
/// were missed since the last claim, whatever the counts of the record; it
/// then counts every missed epoch and the current one as claimed: streak and
/// total grow by the epochs since the last claim, the last claimed epoch
/// becomes the current one, and the best streak is the larger of the old
/// best and the new streak.
pub proof fn lemma_repair_accepted(a: AddressInfo, e: u64)
    requires
        repair_fits(a, e),
    ensures
        repair_result(a, e) is Ok <==> (a.last_epoch_claimed + 1 < e && e - a.last_epoch_claimed - 1
            <= MAX_REPAIR_GAP),
        repair_result(a, e) is Err ==> repair_result(a, e) == Err::<AddressInfo, ClaimError>(
            ClaimError::CannotRepairEpoch,
        ),
        repair_result(a, e) is Ok ==> {
            let info = repair_result(a, e)->Ok_0;
            &&& info.last_epoch_claimed == e
            &&& info.current_streak == a.current_streak + (e - a.last_epoch_claimed)
            &&& info.total_epochs_claimed == a.total_epochs_claimed + (e - a.last_epoch_claimed)
            &&& info.best_streak == (if a.best_streak >= info.current_streak {
                a.best_streak as int
            } else {
                info.current_streak as int
            })
        },
{
}

} // verus!
