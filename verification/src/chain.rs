//! Chain identity.
//!
//! A chain is identified by its numeric chain id.  The crate knows the ids of
//! the chains it ships hardfork schedules for; every other id is an unknown
//! chain, for which activation queries yield absence rather than an error.

use vstd::prelude::*;

verus! {

/// Chain id of the Ethereum mainnet.
pub const MAINNET_CHAIN_ID: u64 = 1;

/// Chain id of the Sepolia testnet.
pub const SEPOLIA_CHAIN_ID: u64 = 11_155_111;

/// Chain id of the Holesky testnet.
pub const HOLESKY_CHAIN_ID: u64 = 17_000;

/// Chain id of the Hoodi testnet.
pub const HOODI_CHAIN_ID: u64 = 560_048;

/// Chain id of the Arbitrum One mainnet.
pub const ARBITRUM_ONE_CHAIN_ID: u64 = 42_161;

/// Chain id of the Arbitrum Sepolia testnet.
pub const ARBITRUM_SEPOLIA_CHAIN_ID: u64 = 421_614;

/// Chain id of the Optimism mainnet.
pub const OP_MAINNET_CHAIN_ID: u64 = 10;

/// Chain id of the Optimism Sepolia testnet.
pub const OP_SEPOLIA_CHAIN_ID: u64 = 11_155_420;

/// Chain id of the Base mainnet.
pub const BASE_MAINNET_CHAIN_ID: u64 = 8_453;

/// Chain id of the Base Sepolia testnet.
pub const BASE_SEPOLIA_CHAIN_ID: u64 = 84_532;

/// A chain identity: the numeric chain id, wrapped so that signatures tell a
/// chain apart from a plain number.
#[derive(Debug, Clone, Copy, PartialEq, Eq, Structural, Hash)]
pub struct Chain {
    /// The chain id.
    pub id: u64,
}

impl Chain {
    /// The chain with the given chain id.
    pub fn from_id(id: u64) -> (r: Chain)
        ensures
            r.id == id,
    {
        Chain { id }
    }

    /// The Ethereum mainnet.
    pub fn mainnet() -> (r: Chain)
        ensures
            r.id == MAINNET_CHAIN_ID,
    {
        Chain { id: MAINNET_CHAIN_ID }
    }

    /// The Sepolia testnet.
    pub fn sepolia() -> (r: Chain)
        ensures
            r.id == SEPOLIA_CHAIN_ID,
    {
        Chain { id: SEPOLIA_CHAIN_ID }
    }

    /// The Holesky testnet.
    pub fn holesky() -> (r: Chain)
        ensures
            r.id == HOLESKY_CHAIN_ID,
    {
        Chain { id: HOLESKY_CHAIN_ID }
    }

    /// The Hoodi testnet.
    pub fn hoodi() -> (r: Chain)
        ensures
            r.id == HOODI_CHAIN_ID,
    {
        Chain { id: HOODI_CHAIN_ID }
    }

    /// The Arbitrum One mainnet.
    pub fn arbitrum_mainnet() -> (r: Chain)
        ensures
            r.id == ARBITRUM_ONE_CHAIN_ID,
    {
        Chain { id: ARBITRUM_ONE_CHAIN_ID }
    }

    /// The Arbitrum Sepolia testnet.
    pub fn arbitrum_sepolia() -> (r: Chain)
        ensures
            r.id == ARBITRUM_SEPOLIA_CHAIN_ID,
    {
        Chain { id: ARBITRUM_SEPOLIA_CHAIN_ID }
    }

    /// The Optimism mainnet.
    pub fn optimism_mainnet() -> (r: Chain)
        ensures
            r.id == OP_MAINNET_CHAIN_ID,
    {
        Chain { id: OP_MAINNET_CHAIN_ID }
    }

    /// The Optimism Sepolia testnet.
    pub fn optimism_sepolia() -> (r: Chain)
        ensures
            r.id == OP_SEPOLIA_CHAIN_ID,
    {
        Chain { id: OP_SEPOLIA_CHAIN_ID }
    }

    /// The Base mainnet.
    pub fn base_mainnet() -> (r: Chain)
        ensures
            r.id == BASE_MAINNET_CHAIN_ID,
    {
        Chain { id: BASE_MAINNET_CHAIN_ID }
    }

    /// The Base Sepolia testnet.
    pub fn base_sepolia() -> (r: Chain)
        ensures
            r.id == BASE_SEPOLIA_CHAIN_ID,
    {
        Chain { id: BASE_SEPOLIA_CHAIN_ID }
    }
}

} // verus!
