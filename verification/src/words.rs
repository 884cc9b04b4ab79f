//! 32-byte EVM words: their big-endian value, the ABI word that encodes a
//! number, and the 256-bit arithmetic that the precompiles perform on them.
use alloy_primitives::{B256, U256};
use vstd::prelude::*;
use vstd::arithmetic::power::{pow, lemma_pow_positive};
use vstd::arithmetic::div_mod::{lemma_mod_breakdown, lemma_small_mod};

verus! {

/// 2^64, the weight of one 64-bit limb.
pub open spec fn limb_base() -> nat {
    0x1_0000_0000_0000_0000nat
}

/// 2^256, one past the largest value of a 256-bit word.
pub open spec fn word_modulus() -> nat {
    0x1_0000_0000_0000_0000_0000_0000_0000_0000_0000_0000_0000_0000_0000_0000_0000_0000nat
}

/// The number that a byte string denotes when read big-endian.
pub open spec fn be_value(bytes: Seq<u8>) -> nat
    decreases bytes.len(),
{
    if bytes.len() == 0 {
        0
    } else {
        be_value(bytes.drop_last()) * 256 + bytes.last() as nat
    }
}

/// The `len` low-order bytes of `n`, most significant first.
pub open spec fn be_bytes(n: nat, len: nat) -> Seq<u8>
    decreases len,
{
    if len == 0 {
        Seq::empty()
    } else {
        be_bytes(n / 256, (len - 1) as nat).push((n % 256) as u8)
    }
}

/// The 32-byte ABI word that encodes `n` (taken modulo 2^256).
pub open spec fn word_of(n: nat) -> Seq<u8> {
    be_bytes(n, 32)
}

/// The value of a 256-bit integer given as four 64-bit limbs, least
/// significant limb first.
pub open spec fn limbs_value(limbs: [u64; 4]) -> nat {
    limbs@[0] as nat + limbs@[1] as nat * limb_base() + limbs@[2] as nat * limb_base()
        * limb_base() + limbs@[3] as nat * limb_base() * limb_base() * limb_base()
}

/// Calls `U256::from_be_slice`, which reads at most 32 bytes as a big-endian
/// number; the result is handed back as its limbs, least significant first.
#[verifier::external_body]
pub(crate) fn u256_from_be_slice(bytes: &[u8]) -> (limbs: [u64; 4])
    requires
        bytes@.len() <= 32,
    ensures
        limbs_value(limbs) == be_value(bytes@),
{
    U256::from_be_slice(bytes).into_limbs()
}

/// Calls `U256::from` on a `u64`; every `u64` fits, so the value is kept.
#[verifier::external_body]
pub(crate) fn u256_from_u64(value: u64) -> (limbs: [u64; 4])
    ensures
        limbs_value(limbs) == value,
{
    U256::from(value).into_limbs()
}

/// Calls `>` on two `U256` values built from their limbs: the result is the
/// comparison of the two numbers.
#[verifier::external_body]
pub(crate) fn u256_gt(a: [u64; 4], b: [u64; 4]) -> (greater: bool)
    ensures
        greater == (limbs_value(a) > limbs_value(b)),
{
    U256::from_limbs(a) > U256::from_limbs(b)
}

/// Calls `U256::to::<u64>`, which panics unless the value fits in a `u64`.
#[verifier::external_body]
pub(crate) fn u256_to_u64(limbs: [u64; 4]) -> (value: u64)
    requires
        limbs_value(limbs) <= u64::MAX,
    ensures
        value == limbs_value(limbs),
{
    U256::from_limbs(limbs).to::<u64>()
}

/// Calls `U256::to::<usize>`, which panics unless the value fits in a
/// `usize`.
#[verifier::external_body]
pub(crate) fn u256_to_usize(limbs: [u64; 4]) -> (value: usize)
    requires
        limbs_value(limbs) <= usize::MAX,
    ensures
        value == limbs_value(limbs),
{
    U256::from_limbs(limbs).to::<usize>()
}

/// Calls `U256::to_be_bytes::<32>`: the 32 bytes of the number, most
/// significant first.
#[verifier::external_body]
pub(crate) fn u256_to_be_bytes(limbs: [u64; 4]) -> (word: [u8; 32])
    ensures
        word@ == word_of(limbs_value(limbs)),
{
    U256::from_limbs(limbs).to_be_bytes::<32>()
}

/// Calls `U256::wrapping_add`: the sum modulo 2^256.
#[verifier::external_body]
pub(crate) fn u256_wrapping_add(a: [u64; 4], b: [u64; 4]) -> (sum: [u64; 4])
    ensures
        limbs_value(sum) == (limbs_value(a) + limbs_value(b)) % word_modulus(),
{
    U256::from_limbs(a).wrapping_add(U256::from_limbs(b)).into_limbs()
}

/// Calls `B256::from_slice`, which copies exactly 32 bytes and panics on any
/// other length.
#[verifier::external_body]
pub(crate) fn b256_from_slice(bytes: &[u8]) -> (word: [u8; 32])
    requires
        bytes@.len() == 32,
    ensures
        word@ == bytes@,
{
    B256::from_slice(bytes).0
}

/// Reading back the ABI word that encodes `n` gives `n` modulo 2^256.
pub proof fn lemma_be_value_of_be_bytes(n: nat, len: nat)
    ensures
        be_value(be_bytes(n, len)) == n % (pow(256, len) as nat),
        be_bytes(n, len).len() == len,
    decreases len,
{
    lemma_pow_positive(256, len);
    if len == 0 {
        assert(pow(256, 0) == 1) by {
            reveal(pow);
        }
    } else {
        let k = (len - 1) as nat;
        lemma_be_value_of_be_bytes(n / 256, k);
        lemma_pow_positive(256, k);
        assert(pow(256, len) == 256 * pow(256, k)) by {
            reveal(pow);
        }
        let s = be_bytes(n, len);
        assert(s.drop_last() =~= be_bytes(n / 256, k));
        lemma_mod_breakdown(n as int, 256, pow(256, k));
    }
}

/// 2^256 is 256 to the 32nd power.
pub proof fn lemma_word_modulus()
    ensures
        word_modulus() == pow(256, 32),
{
    reveal_with_fuel(pow, 33);
}

/// Decoding the ABI word of a number below 2^256 gives the number back.
pub proof fn lemma_word_roundtrip(n: nat)
    requires
        n < word_modulus(),
    ensures
        be_value(word_of(n)) == n,
        word_of(n).len() == 32,
{
    lemma_be_value_of_be_bytes(n, 32);
    lemma_word_modulus();
    lemma_small_mod(n, word_modulus());
}

} // verus!
