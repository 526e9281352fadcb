//! Arbitrum Sepolia hardfork starting points.

use vstd::prelude::*;

verus! {

/// Shanghai arbitrum sepolia hard fork activation block is 10653737.
pub const ARBITRUM_SEPOLIA_SHANGHAI_BLOCK: u64 = 10_653_737;

/// Cancun arbitrum sepolia hard fork activation block is 18683405.
pub const ARBITRUM_SEPOLIA_CANCUN_BLOCK: u64 = 18_683_405;

/// Prague arbitrum sepolia hard fork activation block is 120000000.
pub const ARBITRUM_SEPOLIA_PRAGUE_BLOCK: u64 = 120_000_000;

/// Paris arbitrum sepolia hard fork activation timestamp is 1692726996.
pub const ARBITRUM_SEPOLIA_PARIS_TIMESTAMP: u64 = 1_692_726_996;

/// Shanghai arbitrum sepolia hard fork activation timestamp is 1706634000.
pub const ARBITRUM_SEPOLIA_SHANGHAI_TIMESTAMP: u64 = 1_706_634_000;

/// Cancun arbitrum sepolia hard fork activation timestamp is 1709229600.
pub const ARBITRUM_SEPOLIA_CANCUN_TIMESTAMP: u64 = 1_709_229_600;

/// Prague arbitrum sepolia hard fork activation timestamp is 1741824000.
pub const ARBITRUM_SEPOLIA_PRAGUE_TIMESTAMP: u64 = 1_741_824_000;

} // verus!
