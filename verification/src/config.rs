//! Which contracts have their `extsload` calls optimised, and where the
//! precompiles live.
use crate::address::{all_hex_digits, hex_decode, is_hex_address, parse_address, strip_hex_prefix};
use vstd::prelude::*;

verus! {

/// PoolManager contract addresses to optimise, and the precompile addresses
/// that their `extsload` calls are routed to.
pub struct ExtsloadConfig {
    /// PoolManager contract addresses whose `extsload` calls are optimised.
    pub pool_manager_addresses: Vec<[u8; 20]>,
    /// Precompile address for single slot reads.
    pub single_slot_precompile: [u8; 20],
    /// Precompile address for consecutive slot reads.
    pub consecutive_slots_precompile: [u8; 20],
    /// Precompile address for sparse slot reads.
    pub sparse_slots_precompile: [u8; 20],
    /// Whether optimisation is enabled.
    pub enabled: bool,
}

/// The PoolManager that the default configuration optimises.
pub open spec fn default_pool_manager() -> Seq<u8> {
    seq![0x1fu8, 0x98, 0x40, 0, 0, 0, 0, 0, 0, 0, 0, 0, 0, 0, 0, 0, 0, 0, 0, 0x04]
}

/// The address `0x00..00XXYY`: zero but for its last two bytes.
pub open spec fn low_address(high: u8, low: u8) -> Seq<u8> {
    seq![0u8, 0, 0, 0, 0, 0, 0, 0, 0, 0, 0, 0, 0, 0, 0, 0, 0, 0, high, low]
}

/// Parses an address that is known to be well-formed hex.
fn known_address(text: &str) -> (address: [u8; 20])
    requires
        is_hex_address(text@),
    ensures
        address@ == hex_decode(strip_hex_prefix(text@)),
{
    parse_address(text).unwrap()
}

impl Default for ExtsloadConfig {
    fn default() -> (config: Self)
        ensures
            config.enabled,
            config.pool_manager_addresses@.len() == 1,
            config.pool_manager_addresses@[0]@ == default_pool_manager(),
            config.single_slot_precompile@ == low_address(0x01, 0x00),
            config.consecutive_slots_precompile@ == low_address(0x01, 0x01),
            config.sparse_slots_precompile@ == low_address(0x01, 0x02),
    {
        proof {
            reveal_with_fuel(all_hex_digits, 41);
            reveal_with_fuel(hex_decode, 21);
            reveal_strlit("0x1f98400000000000000000000000000000000004");
            reveal_strlit("0x0000000000000000000000000000000000000100");
            reveal_strlit("0x0000000000000000000000000000000000000101");
            reveal_strlit("0x0000000000000000000000000000000000000102");
            assert(hex_decode("0x1f98400000000000000000000000000000000004"@.skip(2))
                =~= default_pool_manager());
            assert(hex_decode("0x0000000000000000000000000000000000000100"@.skip(2))
                =~= low_address(0x01, 0x00));
            assert(hex_decode("0x0000000000000000000000000000000000000101"@.skip(2))
                =~= low_address(0x01, 0x01));
            assert(hex_decode("0x0000000000000000000000000000000000000102"@.skip(2))
                =~= low_address(0x01, 0x02));
        }
        let mut pool_manager_addresses: Vec<[u8; 20]> = Vec::new();
        pool_manager_addresses.push(known_address("0x1f98400000000000000000000000000000000004"));
        ExtsloadConfig {
            pool_manager_addresses,
            single_slot_precompile: known_address("0x0000000000000000000000000000000000000100"),
            consecutive_slots_precompile: known_address(
                "0x0000000000000000000000000000000000000101",
            ),
            sparse_slots_precompile: known_address("0x0000000000000000000000000000000000000102"),
            enabled: true,
        }
    }
}

} // verus!
