//! Function selectors of the three `extsload` overloads of the PoolManager.
use vstd::prelude::*;

verus! {

/// `extsload(bytes32) -> bytes32`
pub const SINGLE_SLOT: [u8; 4] = [0x6c, 0x94, 0x52, 0x2e];

/// `extsload(bytes32,uint256) -> bytes32[]`
pub const CONSECUTIVE_SLOTS: [u8; 4] = [0x37, 0x96, 0x3c, 0x44];

/// `extsload(bytes32[]) -> bytes32[]`
pub const SPARSE_SLOTS: [u8; 4] = [0x06, 0xb8, 0xab, 0x04];

/// The three kinds of batched storage read, one per `extsload` overload.
#[derive(Clone, Copy, Debug, PartialEq, Eq, Structural)]
pub enum PrecompileKind {
    SingleSlot,
    ConsecutiveSlots,
    SparseSlots,
}

/// The selector bytes of each kind.
pub open spec fn selector_bytes(kind: PrecompileKind) -> Seq<u8> {
    match kind {
        PrecompileKind::SingleSlot => seq![0x6cu8, 0x94u8, 0x52u8, 0x2eu8],
        PrecompileKind::ConsecutiveSlots => seq![0x37u8, 0x96u8, 0x3cu8, 0x44u8],
        PrecompileKind::SparseSlots => seq![0x06u8, 0xb8u8, 0xabu8, 0x04u8],
    }
}

/// The kind whose selector the first four bytes of `data` are, if any.
pub open spec fn selector_kind(data: Seq<u8>) -> Option<PrecompileKind> {
    if data.len() < 4 {
        None
    } else if data.take(4) == selector_bytes(PrecompileKind::SingleSlot) {
        Some(PrecompileKind::SingleSlot)
    } else if data.take(4) == selector_bytes(PrecompileKind::ConsecutiveSlots) {
        Some(PrecompileKind::ConsecutiveSlots)
    } else if data.take(4) == selector_bytes(PrecompileKind::SparseSlots) {
        Some(PrecompileKind::SparseSlots)
    } else {
        None
    }
}

/// Whether the first four bytes of `data` equal `selector`.
fn starts_with_selector(data: &[u8], selector: &[u8; 4]) -> (matches: bool)
    requires
        data@.len() >= 4,
    ensures
        matches == (data@.take(4) == selector@),
{
    let mut i: usize = 0;
    while i < 4
        invariant
            0 <= i <= 4,
            data@.len() >= 4,
            data@.take(i as int) == selector@.take(i as int),
        decreases 4 - i,
    {
        if data[i] != selector[i] {
            assert(data@.take(4)[i as int] != selector@[i as int]);
            return false;
        }
        assert(data@.take(i + 1) =~= selector@.take(i + 1)) by {
            assert(data@.take(i + 1) =~= data@.take(i as int).push(data@[i as int]));
            assert(selector@.take(i + 1) =~= selector@.take(i as int).push(selector@[i as int]));
        }
        i = i + 1;
    }
    assert(data@.take(4) =~= selector@);
    true
}

/// Recognises the `extsload` overload that `data` calls, from its selector.
pub fn match_selector(data: &[u8]) -> (kind: Option<PrecompileKind>)
    ensures
        kind == selector_kind(data@),
{
    if data.len() < 4 {
        return None;
    }
    assert(SINGLE_SLOT@ =~= selector_bytes(PrecompileKind::SingleSlot));
    assert(CONSECUTIVE_SLOTS@ =~= selector_bytes(PrecompileKind::ConsecutiveSlots));
    assert(SPARSE_SLOTS@ =~= selector_bytes(PrecompileKind::SparseSlots));
    if starts_with_selector(data, &SINGLE_SLOT) {
        Some(PrecompileKind::SingleSlot)
    } else if starts_with_selector(data, &CONSECUTIVE_SLOTS) {
        Some(PrecompileKind::ConsecutiveSlots)
    } else if starts_with_selector(data, &SPARSE_SLOTS) {
        Some(PrecompileKind::SparseSlots)
    } else {
        None
    }
}

} // verus!
