//! Proposing actions to a multisig: who may propose, which proposals are
//! refused, the identifier each action gets, who signs it at once, and
//! batches of actions proposed together.
use vstd::prelude::*;

use crate::amount::Amount;
use crate::payment::DctTokenPayment;

verus! {

/// The identifier of a proposed action: its position, counted from 1.
pub type ActionId = usize;

/// The identifier of a group of actions proposed together; 0 is no group.
pub type GroupId = usize;

/// A gas limit.
pub type GasLimit = u64;

/// A call to make: destination, native coins, gas, endpoint and arguments.
pub struct CallActionData {
    pub to: Vec<u8>,
    pub moax_amount: Amount,
    pub opt_gas_limit: Option<GasLimit>,
    pub endpoint_name: Vec<u8>,
    pub arguments: Vec<Vec<u8>>,
}

/// An endpoint name and its arguments.
pub struct FunctionCall {
    pub function_name: Vec<u8>,
    pub arg_buffer: Vec<Vec<u8>>,
}

impl FunctionCall {
    /// A call with no endpoint name calls nothing.
    pub fn is_empty(&self) -> (r: bool)
        ensures
            r == (self.function_name@.len() == 0),
    {
        self.function_name.len() == 0
    }
}

/// What a multisig may be asked to do.
pub enum Action {
    Nothing,
    AddBoardMember(Vec<u8>),
    AddProposer(Vec<u8>),
    RemoveUser(Vec<u8>),
    ChangeQuorum(usize),
    SendTransferExecuteMoax(CallActionData),
    SendTransferExecuteDct {
        to: Vec<u8>,
        tokens: Vec<DctTokenPayment>,
        opt_gas_limit: Option<GasLimit>,
        endpoint_name: Vec<u8>,
        arguments: Vec<Vec<u8>>,
    },
    SendAsyncCall(CallActionData),
    SCDeployFromSource { amount: Amount, source: Vec<u8>, code_metadata: u16, arguments: Vec<Vec<u8>> },
    SCUpgradeFromSource {
        sc_address: Vec<u8>,
        amount: Amount,
        source: Vec<u8>,
        code_metadata: u16,
        arguments: Vec<Vec<u8>>,
    },
}

impl Action {
    /// Whether the action does nothing.
    pub fn is_nothing(&self) -> (r: bool)
        ensures
            r == (*self is Nothing),
    {
        match self {
            Action::Nothing => true,
            _ => false,
        }
    }

    /// Whether the action is an asynchronous call.
    pub fn is_async_call(&self) -> (r: bool)
        ensures
            r == (*self is SendAsyncCall),
    {
        match self {
            Action::SendAsyncCall(_) => true,
            _ => false,
        }
    }
}

/// The role of a user of the multisig.
#[derive(Clone, Copy, Debug, PartialEq, Eq, Structural)]
pub enum UserRole {
    NoRole,
    Proposer,
    BoardMember,
}

impl UserRole {
    /// Board members and proposers may propose.
    pub fn can_propose(&self) -> (r: bool)
        ensures
            r == (*self is Proposer || *self is BoardMember),
    {
        match self {
            UserRole::Proposer | UserRole::BoardMember => true,
            UserRole::NoRole => false,
        }
    }

    /// Board members may sign.
    pub fn can_sign(&self) -> (r: bool)
        ensures
            r == (*self is BoardMember),
    {
        match self {
            UserRole::BoardMember => true,
            _ => false,
        }
    }
}

/// Why a proposal is refused.
#[derive(Clone, Copy, Debug, PartialEq, Eq, Structural)]
pub enum MultisigError {
    /// Only board members and proposers can propose.
    CannotPropose,
    /// The proposed action would have no effect.
    NoEffect,
    /// An asynchronous call must call an endpoint: it cannot only send coins.
    NoEndpointCalled,
    /// A token transfer with no token.
    NoTokensToTransfer,
    /// A batch may not use group 0.
    GroupIdZero,
    /// A batch with no action.
    NoActions,
    /// A batch may not hold an empty action or an asynchronous call.
    InvalidAction,
    /// A transfer-execute in a batch must go to the multisig's own shard.
    DifferentShard,
}

/// The proposals of a multisig: the actions in the order of their
/// identifiers, who signed each, and the group of each.
pub struct MultisigState {
    pub actions: Seq<Action>,
    pub signers: Seq<Seq<usize>>,
    pub groups: Seq<GroupId>,
}

/// The proposals of a multisig.
pub struct MultisigProposeModule {
    actions: Vec<Action>,
    action_signer_ids: Vec<Vec<usize>>,
    group_for_action: Vec<GroupId>,
}

impl MultisigProposeModule {
    /// One list of signers and one group per action.
    #[verifier::type_invariant]
    spec fn aligned(&self) -> bool {
        &&& self.action_signer_ids@.len() == self.actions@.len()
        &&& self.group_for_action@.len() == self.actions@.len()
    }
}

/// The lists of signers, as values.
pub open spec fn signer_views(v: Seq<Vec<usize>>) -> Seq<Seq<usize>> {
    v.map_values(|s: Vec<usize>| s@)
}

impl View for MultisigProposeModule {
    type V = MultisigState;

    closed spec fn view(&self) -> MultisigState {
        MultisigState {
            actions: self.actions@,
            signers: signer_views(self.action_signer_ids@),
            groups: self.group_for_action@,
        }
    }
}

/// One list of signers and one group for each action: the signers and the
/// group of the action with identifier `id` stand at position `id - 1`.
pub open spec fn aligned_state(s: MultisigState) -> bool {
    &&& s.signers.len() == s.actions.len()
    &&& s.groups.len() == s.actions.len()
}

/// Who signs a new action at once: its proposer, when a board member.
pub open spec fn initial_signers(caller_id: usize, caller_role: UserRole) -> Seq<usize> {
    if caller_role is BoardMember {
        seq![caller_id]
    } else {
        Seq::empty()
    }
}

/// The proposals after `action` is proposed in `group` by `caller_id`.
pub open spec fn with_action(
    s: MultisigState,
    action: Action,
    caller_id: usize,
    caller_role: UserRole,
    group: GroupId,
) -> MultisigState {
    MultisigState {
        actions: s.actions.push(action),
        signers: s.signers.push(initial_signers(caller_id, caller_role)),
        groups: s.groups.push(group),
    }
}

/// The proposals after `actions` are proposed one after the other in `group`.
pub open spec fn with_actions(
    s: MultisigState,
    actions: Seq<Action>,
    caller_id: usize,
    caller_role: UserRole,
    group: GroupId,
) -> MultisigState
    decreases actions.len(),
{
    if actions.len() == 0 {
        s
    } else {
        with_action(
            with_actions(s, actions.drop_last(), caller_id, caller_role, group),
            actions.last(),
            caller_id,
            caller_role,
            group,
        )
    }
}

/// Whether an action may stand in a batch, given the shard of its
/// destination and the multisig's own shard.
pub open spec fn batch_action_check(action: Action, target_shard: u32, own_shard: u32) -> Result<(), MultisigError> {
    if action is Nothing || action is SendAsyncCall {
        Err(MultisigError::InvalidAction)
    } else if action is SendTransferExecuteMoax && target_shard != own_shard {
        Err(MultisigError::DifferentShard)
    } else {
        Ok(())
    }
}

/// The actions of a batch, without their shards.
pub open spec fn batch_actions(batch: Seq<(Action, u32)>) -> Seq<Action> {
    batch.map_values(|p: (Action, u32)| p.0)
}

/// The first refusal among the actions of a batch from position `i` on.
pub open spec fn first_batch_error(batch: Seq<(Action, u32)>, own_shard: u32, i: int) -> Result<(), MultisigError>
    decreases batch.len() - i,
{
    if i >= batch.len() || i < 0 {
        Ok(())
    } else {
        match batch_action_check(batch[i].0, batch[i].1, own_shard) {
            Err(e) => Err(e),
            Ok(()) => first_batch_error(batch, own_shard, i + 1),
        }
    }
}

/// The outcome of a batch request before anything is stored.
pub open spec fn batch_check(
    group_id: GroupId,
    batch: Seq<(Action, u32)>,
    caller_role: UserRole,
    own_shard: u32,
) -> Result<(), MultisigError> {
    if group_id == 0 {
        Err(MultisigError::GroupIdZero)
    } else if batch.len() == 0 {
        Err(MultisigError::NoActions)
    } else if !(caller_role is Proposer || caller_role is BoardMember) {
        Err(MultisigError::CannotPropose)
    } else {
        first_batch_error(batch, own_shard, 0)
    }
}

/// The actions whose group is `group`.
pub open spec fn action_group(s: MultisigState, group: GroupId) -> Set<int> {
    Set::new(|id: int| 1 <= id <= s.groups.len() && s.groups[id - 1] == group)
}

impl MultisigProposeModule {
    /// A multisig with no proposal.
    pub fn new() -> (r: MultisigProposeModule)
        ensures
            aligned_state(r@),
            r@.actions.len() == 0,
            r@.signers.len() == 0,
            r@.groups.len() == 0,
    {
        MultisigProposeModule { actions: Vec::new(), action_signer_ids: Vec::new(), group_for_action: Vec::new() }
    }

    /// The number of proposed actions.
    pub fn action_count(&self) -> (r: usize)
        ensures
            r == self@.actions.len(),
            aligned_state(self@),
    {
        proof {
            use_type_invariant(self);
        }
        self.actions.len()
    }

    /// The action with identifier `action_id`.
    pub fn action(&self, action_id: ActionId) -> (r: &Action)
        requires
            1 <= action_id <= self@.actions.len(),
        ensures
            *r == self@.actions[action_id - 1],
            aligned_state(self@),
    {
        proof {
            use_type_invariant(self);
        }
        &self.actions[action_id - 1]
    }

    /// The users who signed the action `action_id`.
    pub fn action_signer_ids(&self, action_id: ActionId) -> (r: &Vec<usize>)
        requires
            1 <= action_id <= self@.actions.len(),
        ensures
            r@ == self@.signers[action_id - 1],
            aligned_state(self@),
    {
        proof {
            use_type_invariant(self);
        }
        &self.action_signer_ids[action_id - 1]
    }

    /// The group of the action `action_id` (0 when none).
    pub fn group_for_action(&self, action_id: ActionId) -> (r: GroupId)
        requires
            1 <= action_id <= self@.actions.len(),
        ensures
            r == self@.groups[action_id - 1],
            aligned_state(self@),
    {
        proof {
            use_type_invariant(self);
        }
        self.group_for_action[action_id - 1]
    }

    fn store(&mut self, action: Action, caller_id: usize, caller_role: UserRole, group: GroupId) -> (r: ActionId)
        requires
            old(self)@.actions.len() < usize::MAX,
        ensures
            r == old(self)@.actions.len() + 1,
            final(self)@ == with_action(old(self)@, action, caller_id, caller_role, group),
    {
        proof {
            use_type_invariant(&*self);
        }
        let mut taken = MultisigProposeModule::new();
        std::mem::swap(&mut taken, self);
        proof {
            use_type_invariant(&taken);
        }
        let MultisigProposeModule { actions: mut actions, action_signer_ids: mut signers, group_for_action: mut groups } =
            taken;
        let ghost old_signers = signers@;
        actions.push(action);
        let action_id = actions.len();
        let mut action_signers: Vec<usize> = Vec::new();
        if caller_role.can_sign() {
            action_signers.push(caller_id);
        }
        assert(action_signers@ =~= initial_signers(caller_id, caller_role));
        signers.push(action_signers);
        groups.push(group);
        assert(signer_views(signers@) =~= signer_views(old_signers).push(initial_signers(caller_id, caller_role)));
        *self = MultisigProposeModule { actions, action_signer_ids: signers, group_for_action: groups };
        action_id
    }

    /// Proposes `action` for `caller_id`; a board member also signs it at
    /// once. Answers the new action's identifier.
    pub fn propose_action(&mut self, caller_id: usize, caller_role: UserRole, action: Action) -> (r: Result<
        ActionId,
        MultisigError,
    >)
        requires
            old(self)@.actions.len() < usize::MAX,
        ensures
            !(caller_role is Proposer || caller_role is BoardMember) ==> r == Err::<ActionId, MultisigError>(
                MultisigError::CannotPropose,
            ) && final(self)@ == old(self)@,
            (caller_role is Proposer || caller_role is BoardMember) ==> {
                &&& r == Ok::<ActionId, MultisigError>((old(self)@.actions.len() + 1) as usize)
                &&& final(self)@ == with_action(old(self)@, action, caller_id, caller_role, 0)
            },
    {
        if !caller_role.can_propose() {
            return Err(MultisigError::CannotPropose);
        }
        Ok(self.store(action, caller_id, caller_role, 0))
    }

    /// Proposes to add `board_member_address` as a board member (or to promote
    /// a proposer).
    pub fn propose_add_board_member(&mut self, caller_id: usize, caller_role: UserRole, board_member_address: Vec<u8>) -> (r:
        Result<ActionId, MultisigError>)
        requires
            old(self)@.actions.len() < usize::MAX,
        ensures
            proposed(old(self)@, final(self)@, r, caller_id, caller_role, Action::AddBoardMember(board_member_address)),
    {
        self.propose_action(caller_id, caller_role, Action::AddBoardMember(board_member_address))
    }

    /// Proposes to add `proposer_address` as a proposer (or to demote a board
    /// member).
    pub fn propose_add_proposer(&mut self, caller_id: usize, caller_role: UserRole, proposer_address: Vec<u8>) -> (r: Result<
        ActionId,
        MultisigError,
    >)
        requires
            old(self)@.actions.len() < usize::MAX,
        ensures
            proposed(old(self)@, final(self)@, r, caller_id, caller_role, Action::AddProposer(proposer_address)),
    {
        self.propose_action(caller_id, caller_role, Action::AddProposer(proposer_address))
    }

    /// Proposes to remove `user_address`, board member or proposer.
    pub fn propose_remove_user(&mut self, caller_id: usize, caller_role: UserRole, user_address: Vec<u8>) -> (r: Result<
        ActionId,
        MultisigError,
    >)
        requires
            old(self)@.actions.len() < usize::MAX,
        ensures
            proposed(old(self)@, final(self)@, r, caller_id, caller_role, Action::RemoveUser(user_address)),
    {
        self.propose_action(caller_id, caller_role, Action::RemoveUser(user_address))
    }

    /// Proposes a new quorum.
    pub fn propose_change_quorum(&mut self, caller_id: usize, caller_role: UserRole, new_quorum: usize) -> (r: Result<
        ActionId,
        MultisigError,
    >)
        requires
            old(self)@.actions.len() < usize::MAX,
        ensures
            proposed(old(self)@, final(self)@, r, caller_id, caller_role, Action::ChangeQuorum(new_quorum)),
    {
        self.propose_action(caller_id, caller_role, Action::ChangeQuorum(new_quorum))
    }

    /// Proposes a transfer-execute: native coins and/or an endpoint call; one
    /// that sends no coin and calls nothing is refused.
    pub fn propose_transfer_execute(
        &mut self,
        caller_id: usize,
        caller_role: UserRole,
        to: Vec<u8>,
        moax_amount: Amount,
        opt_gas_limit: Option<GasLimit>,
        function_call: FunctionCall,
    ) -> (r: Result<ActionId, MultisigError>)
        requires
            old(self)@.actions.len() < usize::MAX,
        ensures
            !(moax_amount@ > 0 || function_call.function_name@.len() != 0) ==> r == Err::<
                ActionId,
                MultisigError,
            >(MultisigError::NoEffect) && final(self)@ == old(self)@,
            (moax_amount@ > 0 || function_call.function_name@.len() != 0) ==> proposed(
                old(self)@,
                final(self)@,
                r,
                caller_id,
                caller_role,
                Action::SendTransferExecuteMoax(
                    CallActionData {
                        to,
                        moax_amount,
                        opt_gas_limit,
                        endpoint_name: function_call.function_name,
                        arguments: function_call.arg_buffer,
                    },
                ),
            ),
    {
        if !(!moax_amount.is_zero() || !function_call.is_empty()) {
            return Err(MultisigError::NoEffect);
        }
        let call_data = CallActionData {
            to,
            moax_amount,
            opt_gas_limit,
            endpoint_name: function_call.function_name,
            arguments: function_call.arg_buffer,
        };
        self.propose_action(caller_id, caller_role, Action::SendTransferExecuteMoax(call_data))
    }

    /// Proposes a transfer of `tokens`, with an optional endpoint call; a
    /// transfer of no token is refused.
    pub fn propose_transfer_execute_dct(
        &mut self,
        caller_id: usize,
        caller_role: UserRole,
        to: Vec<u8>,
        tokens: Vec<DctTokenPayment>,
        opt_gas_limit: Option<GasLimit>,
        function_call: FunctionCall,
    ) -> (r: Result<ActionId, MultisigError>)
        requires
            old(self)@.actions.len() < usize::MAX,
        ensures
            tokens@.len() == 0 ==> r == Err::<ActionId, MultisigError>(MultisigError::NoTokensToTransfer)
                && final(self)@ == old(self)@,
            tokens@.len() > 0 ==> proposed(
                old(self)@,
                final(self)@,
                r,
                caller_id,
                caller_role,
                Action::SendTransferExecuteDct {
                    to,
                    tokens,
                    opt_gas_limit,
                    endpoint_name: function_call.function_name,
                    arguments: function_call.arg_buffer,
                },
            ),
    {
        if tokens.is_empty() {
            return Err(MultisigError::NoTokensToTransfer);
        }
        self.propose_action(
            caller_id,
            caller_role,
            Action::SendTransferExecuteDct {
                to,
                tokens,
                opt_gas_limit,
                endpoint_name: function_call.function_name,
                arguments: function_call.arg_buffer,
            },
        )
    }

    /// Proposes an asynchronous call. It calls an endpoint of `to` (possibly
    /// a built-in transfer function, which sends tokens), with optional
    /// coins; it cannot only send coins: one that sends no coin and calls
    /// nothing has no effect, and one that sends coins and calls nothing is
    /// refused as well.
    pub fn propose_async_call(
        &mut self,
        caller_id: usize,
        caller_role: UserRole,
        to: Vec<u8>,
        moax_amount: Amount,
        opt_gas_limit: Option<GasLimit>,
        function_call: FunctionCall,
    ) -> (r: Result<ActionId, MultisigError>)
        requires
            old(self)@.actions.len() < usize::MAX,
        ensures
            function_call.function_name@.len() == 0 && moax_amount@ == 0 ==> r == Err::<ActionId, MultisigError>(
                MultisigError::NoEffect,
            ),
            function_call.function_name@.len() == 0 && moax_amount@ > 0 ==> r == Err::<ActionId, MultisigError>(
                MultisigError::NoEndpointCalled,
            ),
            function_call.function_name@.len() == 0 ==> r is Err && final(self)@ == old(self)@,
            function_call.function_name@.len() != 0 ==> proposed(
                old(self)@,
                final(self)@,
                r,
                caller_id,
                caller_role,
                Action::SendAsyncCall(
                    CallActionData {
                        to,
                        moax_amount,
                        opt_gas_limit,
                        endpoint_name: function_call.function_name,
                        arguments: function_call.arg_buffer,
                    },
                ),
            ),
    {
        if !(!moax_amount.is_zero() || !function_call.is_empty()) {
            return Err(MultisigError::NoEffect);
        }
        if function_call.is_empty() {
            return Err(MultisigError::NoEndpointCalled);
        }
        let call_data = CallActionData {
            to,
            moax_amount,
            opt_gas_limit,
            endpoint_name: function_call.function_name,
            arguments: function_call.arg_buffer,
        };
        self.propose_action(caller_id, caller_role, Action::SendAsyncCall(call_data))
    }

    /// Proposes to deploy a contract with the code of `source`.
    pub fn propose_sc_deploy_from_source(
        &mut self,
        caller_id: usize,
        caller_role: UserRole,
        amount: Amount,
        source: Vec<u8>,
        code_metadata: u16,
        arguments: Vec<Vec<u8>>,
    ) -> (r: Result<ActionId, MultisigError>)
        requires
            old(self)@.actions.len() < usize::MAX,
        ensures
            proposed(
                old(self)@,
                final(self)@,
                r,
                caller_id,
                caller_role,
                Action::SCDeployFromSource { amount, source, code_metadata, arguments },
            ),
    {
        self.propose_action(
            caller_id,
            caller_role,
            Action::SCDeployFromSource { amount, source, code_metadata, arguments },
        )
    }

    /// Proposes to upgrade `sc_address` with the code of `source`.
    pub fn propose_sc_upgrade_from_source(
        &mut self,
        caller_id: usize,
        caller_role: UserRole,
        sc_address: Vec<u8>,
        amount: Amount,
        source: Vec<u8>,
        code_metadata: u16,
        arguments: Vec<Vec<u8>>,
    ) -> (r: Result<ActionId, MultisigError>)
        requires
            old(self)@.actions.len() < usize::MAX,
        ensures
            proposed(
                old(self)@,
                final(self)@,
                r,
                caller_id,
                caller_role,
                Action::SCUpgradeFromSource { sc_address, amount, source, code_metadata, arguments },
            ),
    {
        self.propose_action(
            caller_id,
            caller_role,
            Action::SCUpgradeFromSource { sc_address, amount, source, code_metadata, arguments },
        )
    }

    /// Proposes the actions of `batch` together in the group `group_id`; each
    /// comes with the shard of its destination, checked for transfer-executes
    /// against `own_shard`. Either every action is stored or none is.
    pub fn propose_batch(
        &mut self,
        caller_id: usize,
        caller_role: UserRole,
        group_id: GroupId,
        batch: Vec<(Action, u32)>,
        own_shard: u32,
    ) -> (r: Result<(), MultisigError>)
        requires
            old(self)@.actions.len() + batch@.len() <= usize::MAX,
        ensures
            r == batch_check(group_id, batch@, caller_role, own_shard),
            r is Err ==> final(self)@ == old(self)@,
            r is Ok ==> final(self)@ == with_actions(
                old(self)@,
                batch_actions(batch@),
                caller_id,
                caller_role,
                group_id,
            ),
    {
        if group_id == 0 {
            return Err(MultisigError::GroupIdZero);
        }
        if batch.is_empty() {
            return Err(MultisigError::NoActions);
        }
        if !caller_role.can_propose() {
            return Err(MultisigError::CannotPropose);
        }
        let n = batch.len();
        let mut i: usize = 0;
        while i < n
            invariant
                n == batch@.len(),
                group_id != 0,
                n > 0,
                caller_role is Proposer || caller_role is BoardMember,
                i <= n,
                forall|j: int| 0 <= j < i ==> #[trigger] batch_action_check(batch@[j].0, batch@[j].1, own_shard) is Ok,
            decreases n - i,
        {
            let (action, target_shard) = (&batch[i].0, batch[i].1);
            if action.is_nothing() || action.is_async_call() {
                proof {
                    lemma_first_batch_error_at(batch@, own_shard, 0, i as int);
                }
                return Err(MultisigError::InvalidAction);
            }
            let is_transfer = match action {
                Action::SendTransferExecuteMoax(_) => true,
                _ => false,
            };
            if is_transfer && target_shard != own_shard {
                proof {
                    lemma_first_batch_error_at(batch@, own_shard, 0, i as int);
                }
                return Err(MultisigError::DifferentShard);
            }
            i = i + 1;
        }
        proof {
            lemma_first_batch_error_none(batch@, own_shard, 0);
        }
        let ghost start = self@;
        let ghost all = batch_actions(batch@);
        assert(batch_check(group_id, batch@, caller_role, own_shard) == Ok::<(), MultisigError>(()));
        let mut rest = batch;
        let mut k: usize = 0;
        while k < n
            invariant
                n == all.len(),
                k <= n,
                rest@.len() == n - k,
                forall|j: int| 0 <= j < rest@.len() ==> #[trigger] rest@[j].0 == all[k + j],
                start.actions.len() + n <= usize::MAX,
                batch_check(group_id, batch@, caller_role, own_shard) == Ok::<(), MultisigError>(()),
                self@.actions.len() == start.actions.len() + k,
                self@ == with_actions(start, all.subrange(0, k as int), caller_id, caller_role, group_id),
            decreases n - k,
        {
            let (action, _) = rest.remove(0);
            assert(action == all[k as int]);
            let _ = self.store(action, caller_id, caller_role, group_id);
            proof {
                let next = all.subrange(0, k + 1);
                assert(next.drop_last() =~= all.subrange(0, k as int));
                assert(next.last() == all[k as int]);
            }
            k = k + 1;
        }
        assert(all.subrange(0, n as int) =~= all);
        Ok(())
    }
}

/// The outcome of proposing `action`: refused when the caller may not
/// propose, else stored under the next identifier.
pub open spec fn proposed(
    before: MultisigState,
    after: MultisigState,
    r: Result<ActionId, MultisigError>,
    caller_id: usize,
    caller_role: UserRole,
    action: Action,
) -> bool {
    if !(caller_role is Proposer || caller_role is BoardMember) {
        r == Err::<ActionId, MultisigError>(MultisigError::CannotPropose) && after == before
    } else {
        &&& r == Ok::<ActionId, MultisigError>((before.actions.len() + 1) as usize)
        &&& after == with_action(before, action, caller_id, caller_role, 0)
    }
}

proof fn lemma_first_batch_error_at(batch: Seq<(Action, u32)>, own_shard: u32, from: int, at: int)
    requires
        0 <= from <= at < batch.len(),
        forall|j: int| from <= j < at ==> #[trigger] batch_action_check(batch[j].0, batch[j].1, own_shard) is Ok,
    ensures
        first_batch_error(batch, own_shard, from) == batch_action_check(batch[at].0, batch[at].1, own_shard)
            || batch_action_check(batch[at].0, batch[at].1, own_shard) is Ok,
    decreases at - from,
{
    if from < at {
        assert(batch_action_check(batch[from].0, batch[from].1, own_shard) is Ok);
        lemma_first_batch_error_at(batch, own_shard, from + 1, at);
    }
}

proof fn lemma_first_batch_error_none(batch: Seq<(Action, u32)>, own_shard: u32, from: int)
    requires
        0 <= from <= batch.len(),
        forall|j: int| from <= j < batch.len() ==> #[trigger] batch_action_check(batch[j].0, batch[j].1, own_shard) is Ok,
    ensures
        first_batch_error(batch, own_shard, from) == Ok::<(), MultisigError>(()),
    decreases batch.len() - from,
{
    if from < batch.len() {
        assert(batch_action_check(batch[from].0, batch[from].1, own_shard) is Ok);
        lemma_first_batch_error_none(batch, own_shard, from + 1);
    }
}

/// Proposing an action keeps every earlier proposal as it was, stores the
/// action under the next identifier, and leaves its proposer as its only
/// possible signer: a board member signs it at once, a proposer does not.
pub proof fn lemma_proposal_appends(
    s: MultisigState,
    action: Action,
    caller_id: usize,
    caller_role: UserRole,
    group: GroupId,
)
    ensures
        ({
            let t = with_action(s, action, caller_id, caller_role, group);
            &&& t.actions.len() == s.actions.len() + 1
            &&& t.actions[s.actions.len() as int] == action
            &&& forall|i: int| 0 <= i < s.actions.len() ==> #[trigger] t.actions[i] == s.actions[i]
            &&& forall|i: int| 0 <= i < s.signers.len() ==> #[trigger] t.signers[i] == s.signers[i]
            &&& t.signers.last().len() <= 1
            &&& caller_role is BoardMember ==> t.signers.last() == seq![caller_id]
            &&& !(caller_role is BoardMember) ==> t.signers.last().len() == 0
        }),
{
}

/// After a batch, the proposals before it are unchanged and the actions of
/// the batch follow them in order, every one of them in the batch's group.
pub proof fn lemma_batch_in_group(
    s: MultisigState,
    actions: Seq<Action>,
    caller_id: usize,
    caller_role: UserRole,
    group: GroupId,
)
    requires
        s.groups.len() == s.actions.len(),
        s.signers.len() == s.actions.len(),
    ensures
        with_actions(s, actions, caller_id, caller_role, group).actions.len() == s.actions.len()
            + actions.len(),
        with_actions(s, actions, caller_id, caller_role, group).groups.len() == s.actions.len()
            + actions.len(),
        with_actions(s, actions, caller_id, caller_role, group).signers.len() == s.actions.len()
            + actions.len(),
        with_actions(s, actions, caller_id, caller_role, group).actions.subrange(0, s.actions.len() as int)
            == s.actions,
        with_actions(s, actions, caller_id, caller_role, group).groups.subrange(0, s.actions.len() as int)
            == s.groups,
        with_actions(s, actions, caller_id, caller_role, group).signers.subrange(0, s.actions.len() as int)
            == s.signers,
        with_actions(s, actions, caller_id, caller_role, group).actions.subrange(
            s.actions.len() as int,
            (s.actions.len() + actions.len()) as int,
        ) == actions,
        with_actions(s, actions, caller_id, caller_role, group).signers.subrange(
            s.actions.len() as int,
            (s.actions.len() + actions.len()) as int,
        ) == Seq::new(actions.len(), |_i: int| initial_signers(caller_id, caller_role)),
        forall|id: int|
            s.actions.len() < id <= s.actions.len() + actions.len() ==> #[trigger] action_group(
                with_actions(s, actions, caller_id, caller_role, group),
                group,
            ).contains(id),
    decreases actions.len(),
{
    let t = with_actions(s, actions, caller_id, caller_role, group);
    let n = s.actions.len() as int;
    if actions.len() > 0 {
        let rest = actions.drop_last();
        lemma_batch_in_group(s, rest, caller_id, caller_role, group);
        let u = with_actions(s, rest, caller_id, caller_role, group);
        assert(t == with_action(u, actions.last(), caller_id, caller_role, group));
        assert(t.actions.subrange(0, n) =~= u.actions.subrange(0, n));
        assert(t.groups.subrange(0, n) =~= u.groups.subrange(0, n));
        assert(t.signers.subrange(0, n) =~= u.signers.subrange(0, n));
        assert(t.actions.subrange(n, n + actions.len()) =~= actions) by {
            assert forall|j: int| 0 <= j < actions.len() implies #[trigger] t.actions.subrange(n, n + actions.len())[j]
                == actions[j] by {
                if j < actions.len() - 1 {
                    assert(u.actions.subrange(n, n + rest.len())[j] == rest[j]);
                }
            }
        }
        assert forall|id: int| n < id <= n + actions.len() implies #[trigger] action_group(t, group).contains(id) by {
            if id < n + actions.len() {
                assert(action_group(u, group).contains(id));
            }
        }
        assert(t.signers.subrange(n, n + actions.len()) =~= Seq::new(
            actions.len(),
            |_i: int| initial_signers(caller_id, caller_role),
        )) by {
            assert forall|j: int| 0 <= j < actions.len() implies #[trigger] t.signers.subrange(n, n + actions.len())[j]
                == initial_signers(caller_id, caller_role) by {
                if j < actions.len() - 1 {
                    assert(u.signers.subrange(n, n + rest.len())[j] == initial_signers(caller_id, caller_role));
                }
            }
        }
    } else {
        assert(t == s);
        assert(t.actions.subrange(0, n) =~= s.actions);
        assert(t.groups.subrange(0, n) =~= s.groups);
        assert(t.signers.subrange(0, n) =~= s.signers);
        assert(t.actions.subrange(n, n) =~= actions);
        assert(t.signers.subrange(n, n) =~= Seq::new(0, |_i: int| initial_signers(caller_id, caller_role)));
    }
}

/// Whether an action may stand in a batch, said by its kind: anything but
/// an empty action, an asynchronous call, or a transfer-execute of coins to
/// another shard than the multisig's own.
pub open spec fn allowed_in_batch(action: Action, target_shard: u32, own_shard: u32) -> bool {
    &&& !(action is Nothing)
    &&& !(action is SendAsyncCall)
    &&& (action is SendTransferExecuteMoax ==> target_shard == own_shard)
}

/// An action passes the batch check exactly when it is allowed in a batch:
/// token transfers, user and quorum changes, deploys and upgrades always
/// are, and a transfer-execute of coins is when it stays in the multisig's
/// shard.
pub proof fn lemma_batch_action_accepted(action: Action, target_shard: u32, own_shard: u32)
    ensures
        batch_action_check(action, target_shard, own_shard) is Ok <==> allowed_in_batch(
            action,
            target_shard,
            own_shard,
        ),
        (action is SendTransferExecuteDct || action is AddBoardMember || action is AddProposer
            || action is RemoveUser || action is ChangeQuorum || action is SCDeployFromSource
            || action is SCUpgradeFromSource) ==> batch_action_check(action, target_shard, own_shard) is Ok,
{
}

/// A batch in a group other than 0, proposed by a board member or a
/// proposer, whose actions are all allowed in a batch, is accepted.
pub proof fn lemma_batch_accepted(
    group_id: GroupId,
    batch: Seq<(Action, u32)>,
    caller_role: UserRole,
    own_shard: u32,
)
    requires
        group_id != 0,
        batch.len() > 0,
        caller_role is Proposer || caller_role is BoardMember,
        forall|j: int| 0 <= j < batch.len() ==> #[trigger] allowed_in_batch(batch[j].0, batch[j].1, own_shard),
    ensures
        batch_check(group_id, batch, caller_role, own_shard) == Ok::<(), MultisigError>(()),
{
    assert forall|j: int| 0 <= j < batch.len() implies #[trigger] batch_action_check(
        batch[j].0,
        batch[j].1,
        own_shard,
    ) is Ok by {
        assert(allowed_in_batch(batch[j].0, batch[j].1, own_shard));
        lemma_batch_action_accepted(batch[j].0, batch[j].1, own_shard);
    }
    lemma_first_batch_error_none(batch, own_shard, 0);
}

} // verus!
