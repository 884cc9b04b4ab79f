//! The three storage-read precompiles that `extsload` calls are routed to.
//!
//! A call runs in two steps around the storage reads, which the node
//! performs: `plan_reads` validates the input and names the slots to read,
//! and `StorageRequest::answer` encodes the words that were read and charges
//! gas.
use crate::selectors::PrecompileKind;
use crate::words::{
    b256_from_slice, be_value, limbs_value, u256_from_be_slice, u256_from_u64, u256_gt,
    u256_to_be_bytes, u256_to_u64, u256_to_usize, u256_wrapping_add, word_modulus, word_of,
};
use vstd::prelude::*;
use vstd::slice::slice_subrange;

verus! {

/// Where the current transaction is sent, as far as the precompiles and the
/// interceptor read it: a call to an address, or a contract creation.
#[derive(Clone, Copy, Debug)]
pub enum TxTarget {
    Call([u8; 20]),
    Create,
}

/// The address that a transaction calls; a creation has none and reads as
/// the zero address.
pub open spec fn target_address(target: TxTarget) -> Seq<u8> {
    match target {
        TxTarget::Call(address) => address@,
        TxTarget::Create => Seq::new(20, |i: int| 0u8),
    }
}

impl TxTarget {
    /// The called address, or the zero address for a creation.
    pub fn to_or_zero(&self) -> (address: [u8; 20])
        ensures
            address@ == target_address(*self),
    {
        match self {
            TxTarget::Call(address) => *address,
            TxTarget::Create => {
                let zero = [0u8; 20];
                assert(zero@ =~= target_address(*self));
                zero
            },
        }
    }
}

/// Whose storage a precompile call reads: the PoolManager that the call
/// was redirected from, or, for a call made to the precompile directly, the
/// address that the transaction calls.
pub open spec fn storage_owner_of(redirected_from: Option<[u8; 20]>, transact_to: TxTarget) -> Seq<u8> {
    match redirected_from {
        Some(pool_manager) => pool_manager@,
        None => target_address(transact_to),
    }
}

/// The contract whose storage a precompile call reads.
pub fn storage_owner(redirected_from: Option<[u8; 20]>, transact_to: &TxTarget) -> (owner: [u8; 20])
    ensures
        owner@ == storage_owner_of(redirected_from, *transact_to),
{
    match redirected_from {
        Some(pool_manager) => pool_manager,
        None => transact_to.to_or_zero(),
    }
}

/// Why a precompile refused its input.
#[derive(Clone, Copy, Debug, PartialEq, Eq, Structural)]
pub enum ExtsloadError {
    /// The input does not have the length that the call needs.
    InvalidInputLength,
    /// More than `MAX_SLOTS` slots were asked for.
    TooManySlots,
    /// The slot array's declared length does not match the input's length.
    InputLengthMismatch,
}

impl ExtsloadError {
    /// The message that the precompile reports.
    pub fn message(&self) -> (text: &'static str)
        ensures
            text@ == match *self {
                ExtsloadError::InvalidInputLength => "Invalid input length"@,
                ExtsloadError::TooManySlots => "Too many slots requested"@,
                ExtsloadError::InputLengthMismatch => "Input length mismatch"@,
            },
    {
        match self {
            ExtsloadError::InvalidInputLength => "Invalid input length",
            ExtsloadError::TooManySlots => "Too many slots requested",
            ExtsloadError::InputLengthMismatch => "Input length mismatch",
        }
    }
}

/// The most slots that one batched read may ask for.
pub const MAX_SLOTS: u64 = 1000;

/// Gas charged for a single-slot read.
pub const SINGLE_SLOT_GAS: u64 = 200;

/// Base gas of a batched read.
pub const BATCH_BASE_GAS: u64 = 500;

/// Gas per slot of a consecutive batched read.
pub const CONSECUTIVE_SLOT_GAS: u64 = 150;

/// Gas per slot of a sparse batched read.
pub const SPARSE_SLOT_GAS: u64 = 180;

/// The head of an ABI-encoded `bytes32[]` answer: the offset of its tail,
/// which starts right after this one word.
pub const ARRAY_OFFSET: u64 = 32;

/// The words, one after the other.
pub open spec fn concat_words(words: Seq<Seq<u8>>) -> Seq<u8>
    decreases words.len(),
{
    if words.len() == 0 {
        Seq::empty()
    } else {
        concat_words(words.drop_last()) + words.last()
    }
}

/// The ABI encoding of a `bytes32[]` result: the offset word `0x20`, the
/// element count, then the elements.
pub open spec fn array_output(count: nat, elements: Seq<u8>) -> Seq<u8> {
    word_of(ARRAY_OFFSET as nat) + word_of(count) + elements
}

/// The `i`-th slot of a consecutive read that starts at `start`: the start
/// plus `i`, modulo 2^256.
pub open spec fn consecutive_slot(start: Seq<u8>, i: nat) -> Seq<u8> {
    word_of((be_value(start) + i) % word_modulus())
}

/// The slots of a consecutive read of `count` slots from `start`.
pub open spec fn consecutive_slots(start: Seq<u8>, count: nat) -> Seq<Seq<u8>> {
    Seq::new(count, |i: int| consecutive_slot(start, i as nat))
}

/// The `i`-th slot named in a sparse read's input.
pub open spec fn sparse_slot(input: Seq<u8>, i: nat) -> Seq<u8> {
    input.subrange(32 + 32 * i as int, 64 + 32 * i as int)
}

/// The first `count` slots named in a sparse read's input.
pub open spec fn sparse_slots(input: Seq<u8>, count: nat) -> Seq<Seq<u8>> {
    Seq::new(count, |i: int| sparse_slot(input, i as nat))
}

/// The slot count that a consecutive read asks for.
pub open spec fn consecutive_count(input: Seq<u8>) -> nat {
    be_value(input.subrange(32, 64))
}

/// The slot count that a sparse read declares.
pub open spec fn sparse_count(input: Seq<u8>) -> nat {
    be_value(input.subrange(0, 32))
}

/// The words of a list of 32-byte arrays.
pub open spec fn words_of(words: Seq<[u8; 32]>) -> Seq<Seq<u8>> {
    words.map_values(|w: [u8; 32]| w@)
}

/// The gas that a read of `count` slots of the given kind costs.
pub open spec fn request_gas(kind: PrecompileKind, count: nat) -> nat {
    match kind {
        PrecompileKind::SingleSlot => SINGLE_SLOT_GAS as nat,
        PrecompileKind::ConsecutiveSlots => BATCH_BASE_GAS as nat + CONSECUTIVE_SLOT_GAS as nat * count,
        PrecompileKind::SparseSlots => BATCH_BASE_GAS as nat + SPARSE_SLOT_GAS as nat * count,
    }
}

/// The answer to a read of the given kind whose slots held `values`: the
/// word itself for a single-slot read, the ABI-encoded `bytes32[]` of the
/// words for a batched read.
pub open spec fn answer_bytes(kind: PrecompileKind, values: Seq<Seq<u8>>) -> Seq<u8> {
    match kind {
        PrecompileKind::SingleSlot => concat_words(values),
        _ => array_output(values.len(), concat_words(values)),
    }
}

/// A storage word that the node read: the slot and the value found there.
#[derive(Clone, Copy, Debug)]
pub struct StorageRead {
    pub slot: [u8; 32],
    pub value: [u8; 32],
}

/// The values of a list of storage reads.
pub open spec fn read_values(reads: Seq<StorageRead>) -> Seq<Seq<u8>> {
    reads.map_values(|r: StorageRead| r.value@)
}

/// The slots of a list of storage reads.
pub open spec fn read_slots(reads: Seq<StorageRead>) -> Seq<Seq<u8>> {
    reads.map_values(|r: StorageRead| r.slot@)
}

/// The storage slots that a precompile call needs read, of the contract
/// that the transaction calls.
pub struct StorageRequest {
    /// Which precompile asks.
    pub kind: PrecompileKind,
    /// The contract whose storage is read.
    pub address: [u8; 20],
    /// The slots to read, in the order of the answer.
    pub slots: Vec<[u8; 32]>,
}

impl StorageRequest {
    /// Encodes the answer to the request from the words read at its slots,
    /// in order, and charges the gas of the request's kind.
    pub fn answer(&self, reads: &Vec<StorageRead>) -> (result: (u64, Vec<u8>))
        requires
            self.slots@.len() <= MAX_SLOTS,
            read_slots(reads@) == words_of(self.slots@),
        ensures
            result.0 == request_gas(self.kind, self.slots@.len()),
            result.1@ == answer_bytes(self.kind, read_values(reads@)),
    {
        let count = reads.len();
        assert(read_slots(reads@).len() == reads@.len());
        assert(words_of(self.slots@).len() == self.slots@.len());
        let ghost values = read_values(reads@);
        let mut words: Vec<u8> = Vec::new();
        let mut i: usize = 0;
        assert(concat_words(values.take(0)) =~= Seq::<u8>::empty());
        while i < count
            invariant
                i <= count,
                count == reads@.len(),
                values == read_values(reads@),
                words@ == concat_words(values.take(i as int)),
            decreases count - i,
        {
            let value = reads[i].value;
            let ghost before = words@;
            words.extend_from_slice(&value);
            proof {
                assert(values.take(i + 1).drop_last() =~= values.take(i as int));
                assert(words@ =~= before + value@);
            }
            i = i + 1;
        }
        assert(values.take(count as int) =~= values);
        match self.kind {
            PrecompileKind::SingleSlot => (SINGLE_SLOT_GAS, words),
            PrecompileKind::ConsecutiveSlots => {
                let output = array_answer(count as u64, words);
                (BATCH_BASE_GAS + (count as u64) * CONSECUTIVE_SLOT_GAS, output)
            },
            PrecompileKind::SparseSlots => {
                let output = array_answer(count as u64, words);
                (BATCH_BASE_GAS + (count as u64) * SPARSE_SLOT_GAS, output)
            },
        }
    }
}

/// The ABI encoding of a `bytes32[]` of `count` elements whose bytes are
/// `elements`.
fn array_answer(count: u64, elements: Vec<u8>) -> (output: Vec<u8>)
    ensures
        output@ == array_output(count as nat, elements@),
{
    let mut output: Vec<u8> = Vec::new();
    let offset_word = u256_to_be_bytes(u256_from_u64(ARRAY_OFFSET));
    output.extend_from_slice(&offset_word);
    let count_word = u256_to_be_bytes(u256_from_u64(count));
    output.extend_from_slice(&count_word);
    output.extend_from_slice(elements.as_slice());
    assert(output@ =~= array_output(count as nat, elements@));
    output
}

proof fn lemma_words_of_push(words: Seq<[u8; 32]>, w: [u8; 32])
    ensures
        words_of(words.push(w)) == words_of(words).push(w@),
{
    assert(words_of(words.push(w)) =~= words_of(words).push(w@));
}

/// Optimised read of one storage slot.
#[derive(Clone, Copy, Debug)]
pub struct SingleSlotPrecompile;

impl SingleSlotPrecompile {
    /// Validates the input, the 32-byte slot, and asks for that slot of
    /// `storage_owner`.
    pub fn plan_reads(&self, input: &[u8], _gas_limit: u64, storage_owner: &[u8; 20]) -> (result:
        Result<StorageRequest, ExtsloadError>)
        ensures
            input@.len() != 32 ==> (result matches Err(e) && e == ExtsloadError::InvalidInputLength),
            input@.len() == 32 ==> (result matches Ok(request) && request.kind
                == PrecompileKind::SingleSlot && request.address == *storage_owner
                && words_of(request.slots@) == seq![input@]),
    {
        if input.len() != 32 {
            return Err(ExtsloadError::InvalidInputLength);
        }
        let address = *storage_owner;
        let slot = b256_from_slice(input);
        let mut slots: Vec<[u8; 32]> = Vec::new();
        slots.push(slot);
        assert(words_of(slots@) =~= seq![input@]);
        Ok(StorageRequest { kind: PrecompileKind::SingleSlot, address, slots })
    }
}

/// Optimised read of a run of consecutive storage slots.
#[derive(Clone, Copy, Debug)]
pub struct ConsecutiveSlotsPrecompile;

impl ConsecutiveSlotsPrecompile {
    /// Validates the input, the start slot followed by the slot count as two
    /// 32-byte words, and asks for the `count` slots of `storage_owner` from
    /// `start` on.
    pub fn plan_reads(&self, input: &[u8], _gas_limit: u64, storage_owner: &[u8; 20]) -> (result:
        Result<StorageRequest, ExtsloadError>)
        ensures
            input@.len() != 64 ==> (result matches Err(e) && e == ExtsloadError::InvalidInputLength),
            input@.len() == 64 && consecutive_count(input@) > MAX_SLOTS ==> (result matches Err(e)
                && e == ExtsloadError::TooManySlots),
            input@.len() == 64 && consecutive_count(input@) <= MAX_SLOTS ==> (result matches Ok(
                request,
            ) && request.kind == PrecompileKind::ConsecutiveSlots && request.address
                == *storage_owner && words_of(request.slots@) == consecutive_slots(
                input@.subrange(0, 32),
                consecutive_count(input@),
            )),
    {
        if input.len() != 64 {
            return Err(ExtsloadError::InvalidInputLength);
        }
        let start_slot = b256_from_slice(slice_subrange(input, 0, 32));
        let num_slots = u256_from_be_slice(slice_subrange(input, 32, 64));
        if u256_gt(num_slots, u256_from_u64(MAX_SLOTS)) {
            return Err(ExtsloadError::TooManySlots);
        }
        let address = *storage_owner;
        let count = u256_to_u64(num_slots);
        let ghost start = input@.subrange(0, 32);
        assert(start_slot@ =~= start);
        let start_value = u256_from_be_slice(&start_slot);
        let mut slots: Vec<[u8; 32]> = Vec::new();
        let mut i: u64 = 0;
        while i < count
            invariant
                i <= count,
                limbs_value(start_value) == be_value(start),
                words_of(slots@) == consecutive_slots(start, i as nat),
            decreases count - i,
        {
            let slot = u256_to_be_bytes(u256_wrapping_add(start_value, u256_from_u64(i)));
            proof {
                lemma_words_of_push(slots@, slot);
                assert(consecutive_slots(start, (i + 1) as nat) =~= consecutive_slots(
                    start,
                    i as nat,
                ).push(slot@));
            }
            slots.push(slot);
            i = i + 1;
        }
        Ok(StorageRequest { kind: PrecompileKind::ConsecutiveSlots, address, slots })
    }
}

/// Optimised read of an arbitrary list of storage slots.
#[derive(Clone, Copy, Debug)]
pub struct SparseSlotsPrecompile;

impl SparseSlotsPrecompile {
    /// Validates the input, an ABI-encoded `bytes32[]` given as its element
    /// count followed by the elements, and asks for the listed slots of
    /// `storage_owner`.
    pub fn plan_reads(&self, input: &[u8], _gas_limit: u64, storage_owner: &[u8; 20]) -> (result:
        Result<StorageRequest, ExtsloadError>)
        ensures
            input@.len() < 32 ==> (result matches Err(e) && e == ExtsloadError::InvalidInputLength),
            input@.len() >= 32 && sparse_count(input@) > MAX_SLOTS ==> (result matches Err(e) && e
                == ExtsloadError::TooManySlots),
            input@.len() >= 32 && sparse_count(input@) <= MAX_SLOTS && input@.len() != 32 + 32
                * sparse_count(input@) ==> (result matches Err(e) && e
                == ExtsloadError::InputLengthMismatch),
            input@.len() >= 32 && sparse_count(input@) <= MAX_SLOTS && input@.len() == 32 + 32
                * sparse_count(input@) ==> (result matches Ok(request) && request.kind
                == PrecompileKind::SparseSlots && request.address == *storage_owner
                && words_of(request.slots@) == sparse_slots(input@, sparse_count(input@))),
    {
        if input.len() < 32 {
            return Err(ExtsloadError::InvalidInputLength);
        }
        let declared = u256_from_be_slice(slice_subrange(input, 0, 32));
        if u256_gt(declared, u256_from_u64(MAX_SLOTS)) {
            return Err(ExtsloadError::TooManySlots);
        }
        let array_length = u256_to_usize(declared);
        let expected_length = 32 + array_length * 32;
        if input.len() != expected_length {
            return Err(ExtsloadError::InputLengthMismatch);
        }
        let address = *storage_owner;
        let mut slots: Vec<[u8; 32]> = Vec::new();
        let mut i: usize = 0;
        while i < array_length
            invariant
                i <= array_length,
                array_length <= MAX_SLOTS,
                input@.len() == 32 + 32 * array_length,
                words_of(slots@) == sparse_slots(input@, i as nat),
            decreases array_length - i,
        {
            let slot_offset = 32 + i * 32;
            let slot = b256_from_slice(slice_subrange(input, slot_offset, slot_offset + 32));
            proof {
                lemma_words_of_push(slots@, slot);
                assert(sparse_slots(input@, (i + 1) as nat) =~= sparse_slots(
                    input@,
                    i as nat,
                ).push(slot@));
            }
            slots.push(slot);
            i = i + 1;
        }
        Ok(StorageRequest { kind: PrecompileKind::SparseSlots, address, slots })
    }
}

} // verus!
