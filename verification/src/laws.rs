//! Properties that hold across the interceptor, the registration of the
//! precompiles, and the precompiles' decoding of their requests.
use crate::address::contains_address;
use crate::config::ExtsloadConfig;
use crate::interceptor::{precompile_address, registrations, route};
use crate::precompiles::{
    answer_bytes, array_output, concat_words, consecutive_count, read_slots, read_values,
    sparse_count, sparse_slot, storage_owner_of, target_address, StorageRead, TxTarget,
};
use crate::precompiles::{consecutive_slots, request_gas};
use crate::selectors::{
    selector_bytes, selector_kind, PrecompileKind, CONSECUTIVE_SLOTS, SINGLE_SLOT, SPARSE_SLOTS,
};
use crate::words::{be_value, lemma_word_roundtrip, word_modulus, word_of};
use vstd::arithmetic::div_mod::{lemma_mod_equivalence, lemma_small_mod};
use vstd::prelude::*;

verus! {

/// A transaction is routed to a precompile exactly when optimisation is
/// enabled, it calls a configured PoolManager, and its calldata starts with
/// an `extsload` selector; creations and calls to any other address are
/// never routed.
pub proof fn lemma_route_exactly_extsload_to_pool_managers(
    config: ExtsloadConfig,
    transact_to: TxTarget,
    data: Seq<u8>,
)
    ensures
        route(config, transact_to, data) is Some <==> {
            &&& config.enabled
            &&& transact_to is Call
            &&& contains_address(config.pool_manager_addresses@, target_address(transact_to))
            &&& selector_kind(data) is Some
        },
        route(config, transact_to, data) is Some ==> route(config, transact_to, data)
            == selector_kind(data),
{
}

/// With optimisation disabled nothing is routed and nothing is registered.
pub proof fn lemma_disabled_config_is_transparent(
    config: ExtsloadConfig,
    transact_to: TxTarget,
    data: Seq<u8>,
)
    requires
        !config.enabled,
    ensures
        route(config, transact_to, data) is None,
        registrations(config).len() == 0,
{
}

/// Every call that is routed goes to an address at which the precompile of
/// the matching kind is registered.
pub proof fn lemma_routed_precompile_is_registered(
    config: ExtsloadConfig,
    transact_to: TxTarget,
    data: Seq<u8>,
    kind: PrecompileKind,
)
    requires
        route(config, transact_to, data) == Some(kind),
    ensures
        exists|j: int|
            0 <= j < registrations(config).len() && #[trigger] registrations(config)[j] == (
                precompile_address(config, kind),
                kind,
            ),
{
    let regs = registrations(config);
    match kind {
        PrecompileKind::SingleSlot => assert(regs[0] == (precompile_address(config, kind), kind)),
        PrecompileKind::ConsecutiveSlots => assert(regs[1] == (
            precompile_address(config, kind),
            kind,
        )),
        PrecompileKind::SparseSlots => assert(regs[2] == (precompile_address(config, kind), kind)),
    }
}

/// When the precompiles that `config` registers are all available, every
/// call that is routed finds its precompile available, so none falls back.
pub proof fn lemma_registered_precompiles_are_available(
    config: ExtsloadConfig,
    available: Seq<[u8; 20]>,
    transact_to: TxTarget,
    data: Seq<u8>,
    kind: PrecompileKind,
)
    requires
        route(config, transact_to, data) == Some(kind),
        forall|j: int|
            0 <= j < registrations(config).len() ==> contains_address(
                available,
                #[trigger] registrations(config)[j].0,
            ),
    ensures
        contains_address(available, precompile_address(config, kind)),
{
    lemma_routed_precompile_is_registered(config, transact_to, data, kind);
    let j = choose|j: int|
        0 <= j < registrations(config).len() && #[trigger] registrations(config)[j] == (
            precompile_address(config, kind),
            kind,
        );
    assert(contains_address(available, registrations(config)[j].0));
}

/// A routed call is answered from the storage of the PoolManager it was
/// sent to: the owner that the redirect carries is the called address, and
/// it is one of the configured PoolManagers.
pub proof fn lemma_routed_call_reads_pool_manager_storage(
    config: ExtsloadConfig,
    transact_to: TxTarget,
    data: Seq<u8>,
    kind: PrecompileKind,
    owner: [u8; 20],
)
    requires
        route(config, transact_to, data) == Some(kind),
        owner@ == target_address(transact_to),
    ensures
        transact_to is Call,
        storage_owner_of(Some(owner), transact_to) == target_address(transact_to),
        contains_address(config.pool_manager_addresses@, storage_owner_of(Some(owner), transact_to)),
{
}

/// An `extsload` call encoded as a selector followed by its arguments, sent
/// to a configured PoolManager while enabled, is routed to the precompile of
/// that selector, and the precompile receives exactly the arguments.
pub proof fn lemma_encoded_call_is_routed(
    config: ExtsloadConfig,
    pool_manager: [u8; 20],
    kind: PrecompileKind,
    arguments: Seq<u8>,
)
    requires
        config.enabled,
        contains_address(config.pool_manager_addresses@, pool_manager@),
    ensures
        route(config, TxTarget::Call(pool_manager), selector_bytes(kind) + arguments) == Some(
            kind,
        ),
        (selector_bytes(kind) + arguments).skip(4) == arguments,
{
    let data = selector_bytes(kind) + arguments;
    assert(data.take(4) =~= selector_bytes(kind));
    assert(data.skip(4) =~= arguments);
    let single = selector_bytes(PrecompileKind::SingleSlot);
    let consecutive = selector_bytes(PrecompileKind::ConsecutiveSlots);
    let sparse = selector_bytes(PrecompileKind::SparseSlots);
    assert(single[0] != consecutive[0] && single[0] != sparse[0] && consecutive[0] != sparse[0]);
}

/// A consecutive read encoded as its start slot followed by the ABI word of
/// its count is decoded back to that start and count.
pub proof fn lemma_consecutive_request_roundtrip(start: Seq<u8>, count: nat)
    requires
        start.len() == 32,
        count < word_modulus(),
    ensures
        (start + word_of(count)).len() == 64,
        (start + word_of(count)).subrange(0, 32) == start,
        consecutive_count(start + word_of(count)) == count,
{
    lemma_word_roundtrip(count);
    let input = start + word_of(count);
    assert(input.subrange(0, 32) =~= start);
    assert(input.subrange(32, 64) =~= word_of(count));
}

/// Words of 32 bytes, one after the other, take 32 bytes each, and the
/// `i`-th of them is found at byte `32 * i`.
pub proof fn lemma_concat_words_layout(words: Seq<Seq<u8>>)
    requires
        forall|i: int| 0 <= i < words.len() ==> (#[trigger] words[i]).len() == 32,
    ensures
        concat_words(words).len() == 32 * words.len(),
        forall|i: int|
            0 <= i < words.len() ==> concat_words(words).subrange(32 * i, 32 * i + 32)
                == #[trigger] words[i],
    decreases words.len(),
{
    if words.len() > 0 {
        let init = words.drop_last();
        lemma_concat_words_layout(init);
        let whole = concat_words(words);
        assert(whole == concat_words(init) + words.last());
        assert forall|i: int| 0 <= i < words.len() implies whole.subrange(32 * i, 32 * i + 32)
            == #[trigger] words[i] by {
            if i < words.len() - 1 {
                assert(init[i] == words[i]);
                assert(whole.subrange(32 * i, 32 * i + 32) =~= concat_words(init).subrange(
                    32 * i,
                    32 * i + 32,
                ));
            } else {
                assert(whole.subrange(32 * i, 32 * i + 32) =~= words.last());
            }
        }
    }
}

/// A sparse read encoded as the ABI word of its slot count followed by the
/// slots is decoded back to that count and those slots.
pub proof fn lemma_sparse_request_roundtrip(slots: Seq<Seq<u8>>)
    requires
        forall|i: int| 0 <= i < slots.len() ==> (#[trigger] slots[i]).len() == 32,
        slots.len() < word_modulus(),
    ensures
        (word_of(slots.len()) + concat_words(slots)).len() == 32 + 32 * slots.len(),
        sparse_count(word_of(slots.len()) + concat_words(slots)) == slots.len(),
        forall|i: int|
            0 <= i < slots.len() ==> sparse_slot(
                word_of(slots.len()) + concat_words(slots),
                i as nat,
            ) == #[trigger] slots[i],
{
    lemma_word_roundtrip(slots.len());
    lemma_concat_words_layout(slots);
    let input = word_of(slots.len()) + concat_words(slots);
    assert(input.subrange(0, 32) =~= word_of(slots.len()));
    assert forall|i: int| 0 <= i < slots.len() implies sparse_slot(input, i as nat)
        == #[trigger] slots[i] by {
        assert(sparse_slot(input, i as nat) =~= concat_words(slots).subrange(32 * i, 32 * i + 32));
    }
}

/// A batched read's answer is a well-formed ABI `bytes32[]`: its offset
/// word decodes to `0x20`, its count word decodes to the number of slots
/// read, and the elements follow.
pub proof fn lemma_array_output_layout(count: nat, elements: Seq<u8>)
    requires
        count < word_modulus(),
    ensures
        array_output(count, elements).len() == 64 + elements.len(),
        be_value(array_output(count, elements).subrange(0, 32)) == 32,
        be_value(array_output(count, elements).subrange(32, 64)) == count,
        array_output(count, elements).skip(64) == elements,
{
    lemma_word_roundtrip(count);
    lemma_word_roundtrip(32);
    let out = array_output(count, elements);
    assert(out.subrange(0, 32) =~= word_of(32));
    assert(out.subrange(32, 64) =~= word_of(count));
    assert(out.skip(64) =~= elements);
}

/// Where the `i`-th word of an answer of the given kind starts.
pub open spec fn answer_word_start(kind: PrecompileKind, i: int) -> int {
    match kind {
        PrecompileKind::SingleSlot => 32 * i,
        _ => 64 + 32 * i,
    }
}

/// The `i`-th word of a precompile's answer is the value that was read at
/// the `i`-th slot that the precompile asked for.
pub proof fn lemma_answer_word_is_read_of_planned_slot(
    kind: PrecompileKind,
    slots: Seq<Seq<u8>>,
    reads: Seq<StorageRead>,
    i: int,
)
    requires
        read_slots(reads) == slots,
        reads.len() < word_modulus(),
        0 <= i < reads.len(),
    ensures
        answer_bytes(kind, read_values(reads)).subrange(
            answer_word_start(kind, i),
            answer_word_start(kind, i) + 32,
        ) == reads[i].value@,
        reads[i].slot@ == slots[i],
{
    let values = read_values(reads);
    assert forall|j: int| 0 <= j < values.len() implies (#[trigger] values[j]).len() == 32 by {
        assert(values[j] == reads[j].value@);
    }
    lemma_concat_words_layout(values);
    assert(read_slots(reads)[i] == reads[i].slot@);
    let body = concat_words(values);
    assert(values[i] == reads[i].value@);
    assert(body.subrange(32 * i, 32 * i + 32) == values[i]);
    match kind {
        PrecompileKind::SingleSlot => {},
        _ => {
            lemma_array_output_layout(values.len(), body);
            let out = array_output(values.len(), body);
            assert(out.subrange(64 + 32 * i, 64 + 32 * i + 32) =~= body.subrange(
                32 * i,
                32 * i + 32,
            ));
        },
    }
}

/// An address is in a list exactly when some entry of the list, at any
/// index, is that address; in particular every entry of a list is found in
/// it.
pub proof fn lemma_contains_address_finds_every_entry(list: Seq<[u8; 20]>, address: Seq<u8>)
    ensures
        contains_address(list, address) <==> exists|j: int|
            0 <= j < list.len() && #[trigger] list[j]@ == address,
        forall|j: int| 0 <= j < list.len() ==> contains_address(list, #[trigger] list[j]@),
{
    assert forall|j: int| 0 <= j < list.len() implies contains_address(
        list,
        #[trigger] list[j]@,
    ) by {
        assert(list[j]@ == list[j]@);
    }
}

/// The `i`-th slot that a consecutive read asks for is the start slot plus
/// `i`, modulo 2^256, as a 32-byte big-endian word.
pub proof fn lemma_consecutive_slot_value(start: Seq<u8>, count: nat, i: int)
    requires
        0 <= i < count,
    ensures
        consecutive_slots(start, count).len() == count,
        consecutive_slots(start, count)[i].len() == 32,
        be_value(consecutive_slots(start, count)[i]) == (be_value(start) + i) % (word_modulus() as int),
{
    let n = ((be_value(start) + i) % (word_modulus() as int)) as nat;
    lemma_word_roundtrip(n);
}

/// A consecutive read of at most 2^256 slots asks for pairwise different
/// slots: no slot is read twice.
pub proof fn lemma_consecutive_slots_distinct(start: Seq<u8>, count: nat, i: int, j: int)
    requires
        count <= word_modulus(),
        0 <= i < j < count,
    ensures
        consecutive_slots(start, count)[i] != consecutive_slots(start, count)[j],
{
    lemma_consecutive_slot_value(start, count, i);
    lemma_consecutive_slot_value(start, count, j);
    let m = word_modulus() as int;
    let a = be_value(start) + i;
    let b = be_value(start) + j;
    if a % m == b % m {
        lemma_mod_equivalence(b, a, m);
        lemma_small_mod((b - a) as nat, m as nat);
        assert(false);
    }
}

/// Only the three `extsload` selectors are recognised, each as its own
/// kind: a kind is reported exactly when the calldata starts with that
/// kind's selector constant.
pub proof fn lemma_selector_kind_exact(data: Seq<u8>)
    ensures
        selector_kind(data) == Some(PrecompileKind::SingleSlot) <==> (data.len() >= 4
            && data.take(4) == SINGLE_SLOT@),
        selector_kind(data) == Some(PrecompileKind::ConsecutiveSlots) <==> (data.len() >= 4
            && data.take(4) == CONSECUTIVE_SLOTS@),
        selector_kind(data) == Some(PrecompileKind::SparseSlots) <==> (data.len() >= 4
            && data.take(4) == SPARSE_SLOTS@),
        selector_kind(data) is None <==> (data.len() < 4 || (data.take(4) != SINGLE_SLOT@
            && data.take(4) != CONSECUTIVE_SLOTS@ && data.take(4) != SPARSE_SLOTS@)),
{
    assert(SINGLE_SLOT@ =~= seq![0x6cu8, 0x94u8, 0x52u8, 0x2eu8]);
    assert(CONSECUTIVE_SLOTS@ =~= seq![0x37u8, 0x96u8, 0x3cu8, 0x44u8]);
    assert(SPARSE_SLOTS@ =~= seq![0x06u8, 0xb8u8, 0xabu8, 0x04u8]);
    assert(SINGLE_SLOT@[0] != CONSECUTIVE_SLOTS@[0] && SINGLE_SLOT@[0] != SPARSE_SLOTS@[0]
        && CONSECUTIVE_SLOTS@[0] != SPARSE_SLOTS@[0]);
    assert(selector_bytes(PrecompileKind::SingleSlot) =~= SINGLE_SLOT@);
    assert(selector_bytes(PrecompileKind::ConsecutiveSlots) =~= CONSECUTIVE_SLOTS@);
    assert(selector_bytes(PrecompileKind::SparseSlots) =~= SPARSE_SLOTS@);
}

/// Each kind of precompile lives at the address configured for it, and an
/// enabled configuration registers exactly those three, one of each kind.
pub proof fn lemma_precompiles_at_configured_addresses(config: ExtsloadConfig)
    ensures
        precompile_address(config, PrecompileKind::SingleSlot) == config.single_slot_precompile@,
        precompile_address(config, PrecompileKind::ConsecutiveSlots)
            == config.consecutive_slots_precompile@,
        precompile_address(config, PrecompileKind::SparseSlots)
            == config.sparse_slots_precompile@,
        config.enabled ==> registrations(config) == seq![
            (config.single_slot_precompile@, PrecompileKind::SingleSlot),
            (config.consecutive_slots_precompile@, PrecompileKind::ConsecutiveSlots),
            (config.sparse_slots_precompile@, PrecompileKind::SparseSlots),
        ],
        !config.enabled ==> registrations(config).len() == 0,
{
}

/// The gas of a read: 200 for a single slot, 500 plus 150 per slot for a
/// consecutive read, 500 plus 180 per slot for a sparse read.
pub proof fn lemma_request_gas_schedule(count: nat)
    ensures
        request_gas(PrecompileKind::SingleSlot, count) == 200,
        request_gas(PrecompileKind::ConsecutiveSlots, count) == 500 + 150 * count,
        request_gas(PrecompileKind::SparseSlots, count) == 500 + 180 * count,
{
}

/// A call's storage owner is the PoolManager it was redirected from when
/// there is one, and otherwise the address that the transaction calls, or
/// the zero address for a creation.
pub proof fn lemma_storage_owner_choice(pool_manager: [u8; 20], called: [u8; 20])
    ensures
        forall|t: TxTarget| storage_owner_of(Some(pool_manager), t) == pool_manager@,
        storage_owner_of(None, TxTarget::Call(called)) == called@,
        storage_owner_of(None, TxTarget::Create) == Seq::new(20, |i: int| 0u8),
        target_address(TxTarget::Call(called)) == called@,
{
}

} // verus!
