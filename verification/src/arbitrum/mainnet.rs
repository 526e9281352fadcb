//! Arbitrum One hardfork starting points.

use vstd::prelude::*;

verus! {

/// Shanghai arbitrum hard fork activation block is 184097479.
pub const ARBITRUM_ONE_SHANGHAI_BLOCK: u64 = 184_097_479;

/// Cancun arbitrum hard fork activation block is 190301729.
pub const ARBITRUM_ONE_CANCUN_BLOCK: u64 = 190_301_729;

/// Prague arbitrum hard fork activation block is 340000000.
pub const ARBITRUM_ONE_PRAGUE_BLOCK: u64 = 340_000_000;

/// Paris arbitrum hard fork activation timestamp is 1622240000.
pub const ARBITRUM_ONE_PARIS_TIMESTAMP: u64 = 1_622_240_000;

/// Shanghai arbitrum hard fork activation timestamp is 1708804873.
pub const ARBITRUM_ONE_SHANGHAI_TIMESTAMP: u64 = 1_708_804_873;

/// Cancun arbitrum hard fork activation timestamp is 1710424089.
pub const ARBITRUM_ONE_CANCUN_TIMESTAMP: u64 = 1_710_424_089;

/// Prague arbitrum hard fork activation timestamp is 1746921600.
pub const ARBITRUM_ONE_PRAGUE_TIMESTAMP: u64 = 1_746_921_600;

} // verus!
