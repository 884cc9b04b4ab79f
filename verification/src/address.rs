//! 20-byte account addresses: parsing from hex text and comparison.
use alloy_primitives::Address;
use std::str::FromStr;
use vstd::prelude::*;

verus! {

/// Whether `c` is an ASCII hex digit of either case.
pub open spec fn is_hex_digit(c: char) -> bool {
    (48 <= c as u32 <= 57) || (97 <= c as u32 <= 102) || (65 <= c as u32 <= 70)
}

/// The value of a hex digit.
pub open spec fn hex_digit_value(c: char) -> nat {
    if 48 <= c as u32 <= 57 {
        (c as u32 - 48) as nat
    } else if 97 <= c as u32 <= 102 {
        (c as u32 - 87) as nat
    } else {
        (c as u32 - 55) as nat
    }
}

/// The text without a leading `0x` or `0X`.
pub open spec fn strip_hex_prefix(text: Seq<char>) -> Seq<char> {
    if text.len() >= 2 && text[0] == '0' && (text[1] == 'x' || text[1] == 'X') {
        text.skip(2)
    } else {
        text
    }
}

/// Whether every character of `text` is a hex digit.
pub open spec fn all_hex_digits(text: Seq<char>) -> bool
    decreases text.len(),
{
    text.len() == 0 || (is_hex_digit(text[0]) && all_hex_digits(text.skip(1)))
}

/// The bytes that pairs of hex digits denote, high digit first.
pub open spec fn hex_decode(text: Seq<char>) -> Seq<u8>
    decreases text.len(),
{
    if text.len() < 2 {
        Seq::empty()
    } else {
        seq![(16 * hex_digit_value(text[0]) + hex_digit_value(text[1])) as u8] + hex_decode(
            text.skip(2),
        )
    }
}

/// Whether `text` is an address written in hex: forty hex digits, with or
/// without a `0x` prefix.
pub open spec fn is_hex_address(text: Seq<char>) -> bool {
    strip_hex_prefix(text).len() == 40 && all_hex_digits(strip_hex_prefix(text))
}

/// Calls `Address::from_str`, which strips an optional `0x`/`0X` prefix and
/// decodes exactly forty hex digits of either case into the twenty bytes,
/// and fails on any other text.
#[verifier::external_body]
pub(crate) fn parse_address(text: &str) -> (address: Option<[u8; 20]>)
    ensures
        address is Some <==> is_hex_address(text@),
        address matches Some(bytes) ==> bytes@ == hex_decode(strip_hex_prefix(text@)),
{
    match Address::from_str(text) {
        Ok(address) => Some(address.into_array()),
        Err(_) => None,
    }
}

/// Whether two addresses are the same.
pub fn address_eq(a: &[u8; 20], b: &[u8; 20]) -> (same: bool)
    ensures
        same == (a@ == b@),
{
    let mut i: usize = 0;
    while i < 20
        invariant
            0 <= i <= 20,
            forall|j: int| 0 <= j < i ==> a@[j] == b@[j],
        decreases 20 - i,
    {
        if a[i] != b[i] {
            return false;
        }
        i = i + 1;
    }
    assert(a@ =~= b@);
    true
}

/// Whether `address` is one of `list`.
pub open spec fn contains_address(list: Seq<[u8; 20]>, address: Seq<u8>) -> bool {
    exists|j: int| 0 <= j < list.len() && #[trigger] list[j]@ == address
}

/// Whether `address` is one of `list`.
pub fn list_contains(list: &Vec<[u8; 20]>, address: &[u8; 20]) -> (found: bool)
    ensures
        found == contains_address(list@, address@),
{
    let mut i: usize = 0;
    while i < list.len()
        invariant
            0 <= i <= list@.len(),
            forall|j: int| 0 <= j < i ==> #[trigger] list@[j]@ != address@,
        decreases list@.len() - i,
    {
        if address_eq(&list[i], address) {
            return true;
        }
        i = i + 1;
    }
    false
}

} // verus!
