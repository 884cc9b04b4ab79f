//! Verified decision and encoding logic for routing Uniswap v4 `extsload`
//! calls to batched storage-read precompiles.

pub mod address;
pub mod config;
pub mod interceptor;
pub mod words;
pub mod selectors;
pub mod precompiles;
pub mod laws;
