//! The exchange endpoints that a token contract lets whitelisted users call:
//! the owner registers and unregisters them per contract, and a forwarded
//! call is only let through to a registered endpoint.
use vstd::prelude::*;

use crate::collections::{ByteSet, KeyedStore};
use crate::amount::Amount;
use crate::payment::DctTokenPayment;

verus! {

/// Why a request about exchange endpoints is refused.
#[derive(Clone, Copy, Debug, PartialEq, Eq, Structural)]
pub enum ExchangeError {
    /// Only the owner may change the endpoints.
    NotOwner,
    /// An endpoint to remove is not registered (or is named twice).
    UnknownEndpointName,
    /// The contract is paused.
    ContractPaused,
    /// The destination has no registered endpoint.
    UnknownSc,
    /// The endpoint is not registered for the destination.
    UnknownEndpoint,
    /// Native coins were sent along.
    InvalidPayment,
    /// The caller is not whitelisted.
    NotWhitelisted,
}

/// The views of a list of byte strings.
pub open spec fn names_view(v: Seq<Vec<u8>>) -> Seq<Seq<u8>> {
    v.map_values(|b: Vec<u8>| b@)
}

/// The endpoints registered for `sc` in a map from contracts to endpoint
/// sets.
pub open spec fn known_endpoints(m: Map<Seq<u8>, ByteSet>, sc: Seq<u8>) -> Set<Seq<u8>> {
    if m.contains_key(sc) {
        m[sc]@
    } else {
        Set::empty()
    }
}

/// `names` holds no byte string twice.
pub open spec fn distinct(names: Seq<Seq<u8>>) -> bool {
    forall|i: int, j: int| 0 <= i < j < names.len() ==> names[i] != names[j]
}

/// Removing `names` one after the other from `known` succeeds each time:
/// each is registered and none is named twice.
pub open spec fn removable(known: Set<Seq<u8>>, names: Seq<Seq<u8>>) -> bool {
    &&& forall|i: int| 0 <= i < names.len() ==> known.contains(#[trigger] names[i])
    &&& distinct(names)
}

/// What the blockchain tells about a forwarded call: the native coins sent
/// along and whether the caller is whitelisted.
#[derive(Clone, Debug)]
pub struct ForwardContext {
    pub moax_value: Amount,
    pub caller_whitelisted: bool,
}

/// The checks of a forwarded call, in their order.
pub open spec fn forward_check(
    paused: bool,
    known: Set<Seq<u8>>,
    endpoint_name: Seq<u8>,
    ctx: ForwardContext,
) -> Result<(), ExchangeError> {
    if paused {
        Err(ExchangeError::ContractPaused)
    } else if known == Set::<Seq<u8>>::empty() {
        Err(ExchangeError::UnknownSc)
    } else if !known.contains(endpoint_name) {
        Err(ExchangeError::UnknownEndpoint)
    } else if ctx.moax_value@ != 0 {
        Err(ExchangeError::InvalidPayment)
    } else if !ctx.caller_whitelisted {
        Err(ExchangeError::NotWhitelisted)
    } else {
        Ok(())
    }
}

/// The payments to send to the caller: all of them, unless there are none.
pub fn payments_to_send(payments: Vec<DctTokenPayment>) -> (r: Option<Vec<DctTokenPayment>>)
    ensures
        payments@.len() > 0 ==> r == Some(payments),
        payments@.len() == 0 ==> r is None,
{
    if payments.is_empty() {
        None
    } else {
        Some(payments)
    }
}

/// A call forwarded to an exchange contract: the endpoint of `dest` to
/// call, the raw arguments, and the payments that go with it.
pub struct ForwardedCall {
    pub dest: Vec<u8>,
    pub endpoint_name: Vec<u8>,
    pub arguments: Vec<Vec<u8>>,
    pub payments: Vec<DctTokenPayment>,
}

/// The call made once a forwarded call has passed its checks and the hook
/// before the exchange action has run: `endpoint_name` of `dest`, with the
/// caller's extra arguments as raw arguments, carrying the payments that the
/// hook handed back.
pub fn forwarded_call(
    dest: Vec<u8>,
    endpoint_name: Vec<u8>,
    extra_args: Vec<Vec<u8>>,
    payments_after_hook: Vec<DctTokenPayment>,
) -> (r: ForwardedCall)
    ensures
        r.dest == dest,
        r.endpoint_name == endpoint_name,
        r.arguments == extra_args,
        r.payments == payments_after_hook,
{
    ForwardedCall { dest, endpoint_name, arguments: extra_args, payments: payments_after_hook }
}

/// The exchange endpoints of a token contract: what it keeps in storage, the
/// owner's registration endpoints and the checks of a forwarded call.
pub trait ExchangeActionsModule: Sized {
    /// Whether the contract is paused.
    spec fn spec_paused(&self) -> bool;

    /// The endpoints registered for the contract `sc`.
    spec fn spec_known_endpoints(&self, sc: Seq<u8>) -> Set<Seq<u8>>;

    /// Reads whether the contract is paused.
    fn paused(&self) -> (r: bool)
        ensures
            r == self.spec_paused(),
    ;

    /// Whether `name` is registered for `sc`.
    fn is_known_endpoint(&self, sc: &Vec<u8>, name: &Vec<u8>) -> (r: bool)
        ensures
            r == self.spec_known_endpoints(sc@).contains(name@),
    ;

    /// Whether no endpoint is registered for `sc`.
    fn has_no_endpoint(&self, sc: &Vec<u8>) -> (r: bool)
        ensures
            r == (self.spec_known_endpoints(sc@) == Set::<Seq<u8>>::empty()),
    ;

    /// Registers `name` for `sc`; answers whether it was new.
    fn insert_endpoint(&mut self, sc: &Vec<u8>, name: Vec<u8>) -> (r: bool)
        ensures
            r == !old(self).spec_known_endpoints(sc@).contains(name@),
            final(self).spec_known_endpoints(sc@) == old(self).spec_known_endpoints(sc@).insert(name@),
            forall|k: Seq<u8>|
                k != sc@ ==> #[trigger] final(self).spec_known_endpoints(k) == old(self).spec_known_endpoints(k),
            final(self).spec_paused() == old(self).spec_paused(),
    ;

    /// Unregisters `name` for `sc`; answers whether it was registered.
    fn swap_remove_endpoint(&mut self, sc: &Vec<u8>, name: &Vec<u8>) -> (r: bool)
        ensures
            r == old(self).spec_known_endpoints(sc@).contains(name@),
            final(self).spec_known_endpoints(sc@) == old(self).spec_known_endpoints(sc@).remove(name@),
            forall|k: Seq<u8>|
                k != sc@ ==> #[trigger] final(self).spec_known_endpoints(k) == old(self).spec_known_endpoints(k),
            final(self).spec_paused() == old(self).spec_paused(),
    ;

    /// The owner registers `endpoint_names` for the contract `sc_addr`.
    fn add_exchange_endpoint(&mut self, caller_is_owner: bool, sc_addr: &Vec<u8>, endpoint_names: Vec<Vec<u8>>) -> (r:
        Result<(), ExchangeError>)
        ensures
            !caller_is_owner ==> r == Err::<(), ExchangeError>(ExchangeError::NotOwner) && *final(self)
                == *old(self),
            caller_is_owner ==> {
                &&& r is Ok
                &&& final(self).spec_paused() == old(self).spec_paused()
                &&& final(self).spec_known_endpoints(sc_addr@) == old(self).spec_known_endpoints(sc_addr@)
                    + names_view(endpoint_names@).to_set()
                &&& forall|k: Seq<u8>|
                    k != sc_addr@ ==> #[trigger] final(self).spec_known_endpoints(k)
                        == old(self).spec_known_endpoints(k)
            },
    {
        if !caller_is_owner {
            return Err(ExchangeError::NotOwner);
        }
        let ghost before = self.spec_known_endpoints(sc_addr@);
        let ghost names = names_view(endpoint_names@);
        let n = endpoint_names.len();
        let mut i: usize = 0;
        while i < n
            invariant
                n == endpoint_names@.len(),
                names == names_view(endpoint_names@),
                i <= n,
                self.spec_known_endpoints(sc_addr@) == before + names.subrange(0, i as int).to_set(),
                forall|k: Seq<u8>|
                    k != sc_addr@ ==> #[trigger] self.spec_known_endpoints(k) == old(self).spec_known_endpoints(k),
                self.spec_paused() == old(self).spec_paused(),
            decreases n - i,
        {
            let name = endpoint_names[i].clone();
            assert(name@ =~= names[i as int]);
            let _ = self.insert_endpoint(sc_addr, name);
            proof {
                assert(names.subrange(0, i + 1) =~= names.subrange(0, i as int).push(names[i as int]));
                assert(names.subrange(0, i as int).push(names[i as int]).to_set() =~= names.subrange(
                    0,
                    i as int,
                ).to_set().insert(names[i as int])) by {
                    broadcast use vstd::seq_lib::group_seq_properties;
                }
                assert(self.spec_known_endpoints(sc_addr@) =~= before + names.subrange(0, i + 1).to_set());
            }
            i = i + 1;
        }
        assert(names.subrange(0, n as int) =~= names);
        Ok(())
    }

    /// The owner unregisters `endpoint_names` for the contract `sc_addr`; if
    /// one of them is not registered (or is named twice) nothing changes.
    fn remove_exchange_endpoint(&mut self, caller_is_owner: bool, sc_addr: &Vec<u8>, endpoint_names: Vec<Vec<u8>>) -> (r:
        Result<(), ExchangeError>)
        ensures
            !caller_is_owner ==> r == Err::<(), ExchangeError>(ExchangeError::NotOwner),
            caller_is_owner && !removable(old(self).spec_known_endpoints(sc_addr@), names_view(endpoint_names@))
                ==> r == Err::<(), ExchangeError>(ExchangeError::UnknownEndpointName),
            caller_is_owner && removable(old(self).spec_known_endpoints(sc_addr@), names_view(endpoint_names@))
                ==> r is Ok,
            r is Err ==> *final(self) == *old(self),
            r is Ok ==> {
                &&& caller_is_owner
                &&& removable(old(self).spec_known_endpoints(sc_addr@), names_view(endpoint_names@))
                &&& final(self).spec_paused() == old(self).spec_paused()
                &&& final(self).spec_known_endpoints(sc_addr@) == old(self).spec_known_endpoints(sc_addr@)
                    - names_view(endpoint_names@).to_set()
                &&& forall|k: Seq<u8>|
                    k != sc_addr@ ==> #[trigger] final(self).spec_known_endpoints(k)
                        == old(self).spec_known_endpoints(k)
            },
    {
        if !caller_is_owner {
            return Err(ExchangeError::NotOwner);
        }
        let ghost names = names_view(endpoint_names@);
        let ghost before = self.spec_known_endpoints(sc_addr@);
        let n = endpoint_names.len();
        let mut i: usize = 0;
        while i < n
            invariant
                n == endpoint_names@.len(),
                names == names_view(endpoint_names@),
                before == self.spec_known_endpoints(sc_addr@),
                caller_is_owner,
                i <= n,
                forall|a: int| 0 <= a < i ==> before.contains(#[trigger] names[a]),
                forall|a: int, b: int| 0 <= a < b < i ==> names[a] != names[b],
            decreases n - i,
        {
            if !self.is_known_endpoint(sc_addr, &endpoint_names[i]) {
                assert(!before.contains(names[i as int]));
                return Err(ExchangeError::UnknownEndpointName);
            }
            let mut j: usize = 0;
            while j < i
                invariant
                    n == endpoint_names@.len(),
                    names == names_view(endpoint_names@),
                    i < n,
                    caller_is_owner,
                    j <= i,
                    forall|a: int| 0 <= a < j ==> names[a] != names[i as int],
                decreases i - j,
            {
                if endpoint_names[j] == endpoint_names[i] {
                    assert(names[j as int] =~= names[i as int]);
                    assert(!distinct(names));
                    return Err(ExchangeError::UnknownEndpointName);
                }
                j = j + 1;
            }
            i = i + 1;
        }
        let mut k: usize = 0;
        while k < n
            invariant
                n == endpoint_names@.len(),
                names == names_view(endpoint_names@),
                removable(before, names),
                k <= n,
                self.spec_known_endpoints(sc_addr@) == before - names.subrange(0, k as int).to_set(),
                forall|key: Seq<u8>|
                    key != sc_addr@ ==> #[trigger] self.spec_known_endpoints(key) == old(
                        self,
                    ).spec_known_endpoints(key),
                self.spec_paused() == old(self).spec_paused(),
            decreases n - k,
        {
            let _ = self.swap_remove_endpoint(sc_addr, &endpoint_names[k]);
            proof {
                assert(names.subrange(0, k + 1) =~= names.subrange(0, k as int).push(names[k as int]));
                assert(names.subrange(0, k as int).push(names[k as int]).to_set() =~= names.subrange(
                    0,
                    k as int,
                ).to_set().insert(names[k as int])) by {
                    broadcast use vstd::seq_lib::group_seq_properties;
                }
                assert(self.spec_known_endpoints(sc_addr@) =~= before - names.subrange(0, k + 1).to_set());
            }
            k = k + 1;
        }
        assert(names.subrange(0, n as int) =~= names);
        Ok(())
    }

    /// Refuses a destination with no registered endpoint, then an endpoint
    /// not registered for it.
    fn require_known_endpoint(&self, dest: &Vec<u8>, endpoint_name: &Vec<u8>) -> (r: Result<(), ExchangeError>)
        ensures
            self.spec_known_endpoints(dest@) == Set::<Seq<u8>>::empty() ==> r == Err::<(), ExchangeError>(
                ExchangeError::UnknownSc,
            ),
            self.spec_known_endpoints(dest@) != Set::<Seq<u8>>::empty() && !self.spec_known_endpoints(
                dest@,
            ).contains(endpoint_name@) ==> r == Err::<(), ExchangeError>(ExchangeError::UnknownEndpoint),
            r is Ok <==> self.spec_known_endpoints(dest@).contains(endpoint_name@),
    {
        if self.has_no_endpoint(dest) {
            return Err(ExchangeError::UnknownSc);
        }
        if !self.is_known_endpoint(dest, endpoint_name) {
            return Err(ExchangeError::UnknownEndpoint);
        }
        Ok(())
    }

    /// The checks that a call forwarded to `endpoint_name` of `dest` must pass
    /// before the hooks run and the call is made: the contract is not paused,
    /// the endpoint is registered, no native coins come along and the caller
    /// is whitelisted.
    fn forward_execute_on_dest(&self, ctx: &ForwardContext, dest: &Vec<u8>, endpoint_name: &Vec<u8>) -> (r: Result<
        (),
        ExchangeError,
    >)
        ensures
            r == forward_check(self.spec_paused(), self.spec_known_endpoints(dest@), endpoint_name@, *ctx),
    {
        if self.paused() {
            return Err(ExchangeError::ContractPaused);
        }
        match self.require_known_endpoint(dest, endpoint_name) {
            Ok(()) => {},
            Err(e) => {
                return Err(e);
            },
        }
        if !ctx.moax_value.is_zero() {
            return Err(ExchangeError::InvalidPayment);
        }
        if !ctx.caller_whitelisted {
            return Err(ExchangeError::NotWhitelisted);
        }
        Ok(())
    }
}

/// The storage of the exchange endpoints: the pause flag and, per contract
/// address, the set of its registered endpoints.
pub struct ExchangeActionsStorage {
    pub paused: bool,
    pub known_contracts: KeyedStore<ByteSet>,
}

impl ExchangeActionsStorage {
    /// Storage with no registered endpoint.
    pub fn new(paused: bool) -> (r: ExchangeActionsStorage)
        ensures
            r.paused == paused,
            forall|sc: Seq<u8>| #[trigger] r.spec_known_endpoints(sc) == Set::<Seq<u8>>::empty(),
    {
        ExchangeActionsStorage { paused, known_contracts: KeyedStore::new() }
    }

    fn take_endpoints(&mut self, sc_addr: &Vec<u8>) -> (r: ByteSet)
        ensures
            r@ == known_endpoints(old(self).known_contracts@, sc_addr@),
            final(self).known_contracts@ == old(self).known_contracts@.remove(sc_addr@),
            final(self).paused == old(self).paused,
    {
        match self.known_contracts.take(sc_addr) {
            Some(s) => s,
            None => ByteSet::new(),
        }
    }
}

impl ExchangeActionsModule for ExchangeActionsStorage {
    open spec fn spec_paused(&self) -> bool {
        self.paused
    }

    open spec fn spec_known_endpoints(&self, sc: Seq<u8>) -> Set<Seq<u8>> {
        known_endpoints(self.known_contracts@, sc)
    }

    fn paused(&self) -> (r: bool) {
        self.paused
    }

    fn is_known_endpoint(&self, sc: &Vec<u8>, name: &Vec<u8>) -> (r: bool) {
        match self.known_contracts.get(sc) {
            Some(s) => s.contains(name),
            None => false,
        }
    }

    fn has_no_endpoint(&self, sc: &Vec<u8>) -> (r: bool) {
        match self.known_contracts.get(sc) {
            Some(s) => s.is_empty(),
            None => true,
        }
    }

    fn insert_endpoint(&mut self, sc: &Vec<u8>, name: Vec<u8>) -> (r: bool) {
        let mut set = self.take_endpoints(sc);
        let r = set.insert(name);
        let key = sc.clone();
        assert(key@ =~= sc@);
        self.known_contracts.set(key, set);
        r
    }

    fn swap_remove_endpoint(&mut self, sc: &Vec<u8>, name: &Vec<u8>) -> (r: bool) {
        let mut set = self.take_endpoints(sc);
        let r = set.swap_remove(name);
        let key = sc.clone();
        assert(key@ =~= sc@);
        self.known_contracts.set(key, set);
        r
    }
}

/// Registering endpoints that were not registered, then unregistering them,
/// leaves the registered endpoints as they were.
pub proof fn lemma_add_then_remove_restores(known: Set<Seq<u8>>, names: Seq<Seq<u8>>)
    requires
        forall|i: int| 0 <= i < names.len() ==> !known.contains(#[trigger] names[i]),
    ensures
        (known + names.to_set()) - names.to_set() == known,
{
    assert forall|s: Seq<u8>| #[trigger] known.contains(s) implies !names.to_set().contains(s) by {
        if names.to_set().contains(s) {
            let i = choose|i: int| 0 <= i < names.len() && names[i] == s;
            assert(!known.contains(names[i]));
        }
    }
    assert((known + names.to_set()) - names.to_set() =~= known);
}

/// After registering distinct endpoint names, unregistering them all is
/// accepted, and every registered name lets a forwarded call through (when
/// the other checks pass).
pub proof fn lemma_added_endpoints_are_known(known: Set<Seq<u8>>, names: Seq<Seq<u8>>, ctx: ForwardContext)
    requires
        distinct(names),
        ctx.moax_value@ == 0,
        ctx.caller_whitelisted,
    ensures
        removable(known + names.to_set(), names),
        forall|i: int|
            0 <= i < names.len() ==> forward_check(false, known + names.to_set(), #[trigger] names[i], ctx)
                is Ok,
{
    assert forall|i: int| 0 <= i < names.len() implies (known + names.to_set()).contains(#[trigger] names[i]) by {
        assert(names.to_set().contains(names[i]));
    }
    assert forall|i: int| 0 <= i < names.len() implies forward_check(
        false,
        known + names.to_set(),
        #[trigger] names[i],
        ctx,
    ) is Ok by {
        assert((known + names.to_set()).contains(names[i]));
        assert(known + names.to_set() != Set::<Seq<u8>>::empty());
    }
}

} // verus!
