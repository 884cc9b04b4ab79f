//! Deciding which calls are routed to the precompiles, and which precompiles
//! are registered.
use crate::address::{contains_address, list_contains};
use crate::config::ExtsloadConfig;
use crate::precompiles::{target_address, TxTarget};
use crate::selectors::{match_selector, selector_kind, PrecompileKind};
use vstd::prelude::*;
use vstd::slice::slice_subrange;

verus! {

/// The precompile address that `config` assigns to `kind`.
pub open spec fn precompile_address(config: ExtsloadConfig, kind: PrecompileKind) -> Seq<u8> {
    match kind {
        PrecompileKind::SingleSlot => config.single_slot_precompile@,
        PrecompileKind::ConsecutiveSlots => config.consecutive_slots_precompile@,
        PrecompileKind::SparseSlots => config.sparse_slots_precompile@,
    }
}

/// The precompile that a transaction is routed to, if any: only calls to a
/// configured PoolManager, while optimisation is enabled, whose calldata
/// starts with one of the `extsload` selectors.
pub open spec fn route(config: ExtsloadConfig, transact_to: TxTarget, data: Seq<u8>) -> Option<
    PrecompileKind,
> {
    match transact_to {
        TxTarget::Create => None,
        TxTarget::Call(address) => {
            if config.enabled && contains_address(config.pool_manager_addresses@, address@) {
                selector_kind(data)
            } else {
                None
            }
        },
    }
}

/// A call sent on to a precompile in place of the PoolManager.
pub struct RedirectedCall {
    /// The precompile that is called instead.
    pub precompile: [u8; 20],
    /// Which read it performs.
    pub kind: PrecompileKind,
    /// The calldata without its 4-byte selector.
    pub data: Vec<u8>,
    /// The PoolManager that was called, whose storage the precompile reads.
    pub storage_owner: [u8; 20],
}

/// What to do with a transaction.
pub enum Interception {
    /// Execute it unchanged.
    Transact,
    /// Execute it against a precompile with the given calldata, then restore
    /// the original target and calldata.
    Redirect(RedirectedCall),
}

/// EVM execution interceptor for `extsload` optimisation.
pub struct ExtsloadInterceptor {
    config: ExtsloadConfig,
}

impl ExtsloadInterceptor {
    /// The configuration that the interceptor follows.
    pub closed spec fn config(&self) -> ExtsloadConfig {
        self.config
    }

    /// An interceptor that follows `config`.
    pub fn new(config: ExtsloadConfig) -> (interceptor: Self)
        ensures
            interceptor.config() == config,
    {
        Self { config }
    }

    /// Decides whether a transaction to `transact_to` with calldata `data`
    /// is an `extsload` call to be redirected to a precompile. A call whose
    /// precompile is not among `available_precompiles` falls back to
    /// standard execution.
    pub fn intercept_call(
        &self,
        transact_to: &TxTarget,
        data: &[u8],
        available_precompiles: &Vec<[u8; 20]>,
    ) -> (interception: Interception)
        ensures
            route(self.config(), *transact_to, data@) is None ==> interception is Transact,
            route(self.config(), *transact_to, data@) matches Some(kind) ==> (!contains_address(
                available_precompiles@,
                precompile_address(self.config(), kind),
            ) ==> interception is Transact),
            route(self.config(), *transact_to, data@) matches Some(kind) ==> (contains_address(
                available_precompiles@,
                precompile_address(self.config(), kind),
            ) ==> (interception matches Interception::Redirect(call) && call.kind == kind
                && call.precompile@ == precompile_address(self.config(), kind) && call.data@
                == data@.skip(4) && call.storage_owner@ == target_address(*transact_to))),
    {
        let call_target = match transact_to {
            TxTarget::Call(address) => address,
            TxTarget::Create => {
                return Interception::Transact;
            },
        };
        if !self.config.enabled || !list_contains(&self.config.pool_manager_addresses, call_target) {
            return Interception::Transact;
        }
        if data.len() < 4 {
            return Interception::Transact;
        }
        let (precompile, kind) = match match_selector(data) {
            Some(PrecompileKind::SingleSlot) => (
                self.config.single_slot_precompile,
                PrecompileKind::SingleSlot,
            ),
            Some(PrecompileKind::ConsecutiveSlots) => (
                self.config.consecutive_slots_precompile,
                PrecompileKind::ConsecutiveSlots,
            ),
            Some(PrecompileKind::SparseSlots) => (
                self.config.sparse_slots_precompile,
                PrecompileKind::SparseSlots,
            ),
            None => {
                return Interception::Transact;
            },
        };
        if !list_contains(available_precompiles, &precompile) {
            return Interception::Transact;
        }
        self.redirect_to_precompile(precompile, kind, data, *call_target)
    }

    /// The call to `precompile_address` that replaces the original one to
    /// `pool_manager`: the same calldata without its selector, reading the
    /// storage of `pool_manager`.
    fn redirect_to_precompile(
        &self,
        precompile_address: [u8; 20],
        kind: PrecompileKind,
        data: &[u8],
        pool_manager: [u8; 20],
    ) -> (interception: Interception)
        requires
            data@.len() >= 4,
        ensures
            interception matches Interception::Redirect(call) && call.kind == kind
                && call.precompile == precompile_address && call.data@ == data@.skip(4)
                && call.storage_owner == pool_manager,
    {
        let mut arguments: Vec<u8> = Vec::new();
        arguments.extend_from_slice(slice_subrange(data, 4, data.len()));
        assert(arguments@ =~= data@.skip(4));
        Interception::Redirect(
            RedirectedCall {
                precompile: precompile_address,
                kind,
                data: arguments,
                storage_owner: pool_manager,
            },
        )
    }
}

/// A precompile to be installed at an address.
pub struct PrecompileRegistration {
    pub address: [u8; 20],
    pub kind: PrecompileKind,
}

/// The precompiles that `config` installs, in order: none when optimisation
/// is disabled, else the three reads at their configured addresses.
pub open spec fn registrations(config: ExtsloadConfig) -> Seq<(Seq<u8>, PrecompileKind)> {
    if config.enabled {
        seq![
            (config.single_slot_precompile@, PrecompileKind::SingleSlot),
            (config.consecutive_slots_precompile@, PrecompileKind::ConsecutiveSlots),
            (config.sparse_slots_precompile@, PrecompileKind::SparseSlots),
        ]
    } else {
        Seq::empty()
    }
}

/// The precompiles to register for `config`.
pub fn setup_extsload_precompiles(config: &ExtsloadConfig) -> (installed: Vec<
    PrecompileRegistration,
>)
    ensures
        installed@.len() == registrations(*config).len(),
        forall|i: int|
            0 <= i < installed@.len() ==> (#[trigger] installed@[i]).address@ == registrations(
                *config,
            )[i].0 && installed@[i].kind == registrations(*config)[i].1,
{
    let mut installed: Vec<PrecompileRegistration> = Vec::new();
    if !config.enabled {
        return installed;
    }
    installed.push(
        PrecompileRegistration {
            address: config.single_slot_precompile,
            kind: PrecompileKind::SingleSlot,
        },
    );
    installed.push(
        PrecompileRegistration {
            address: config.consecutive_slots_precompile,
            kind: PrecompileKind::ConsecutiveSlots,
        },
    );
    installed.push(
        PrecompileRegistration {
            address: config.sparse_slots_precompile,
            kind: PrecompileKind::SparseSlots,
        },
    );
    installed
}

} // verus!
