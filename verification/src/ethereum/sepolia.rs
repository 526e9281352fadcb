//! Sepolia hardfork starting points.

use vstd::prelude::*;

verus! {

/// Paris sepolia hard fork activation block is 1450409.
pub const SEPOLIA_PARIS_BLOCK: u64 = 1_450_409;

/// Paris sepolia hard fork activation terminal total difficulty is
/// 17000000000000000.
pub const SEPOLIA_PARIS_TTD: u128 = 17_000_000_000_000_000;

/// The final total difficulty of sepolia is 17000018015853232.
pub const SEPOLIA_PARIS_FINAL_TD: u128 = 17_000_018_015_853_232;

/// Paris sepolia fork block is 1735371, settled after the difficulty
/// transition.
pub const SEPOLIA_PARIS_FORK_BLOCK: u64 = 1_735_371;

/// Shanghai sepolia hard fork activation block is 2990908.
pub const SEPOLIA_SHANGHAI_BLOCK: u64 = 2_990_908;

/// Cancun sepolia hard fork activation block is 5187023.
pub const SEPOLIA_CANCUN_BLOCK: u64 = 5_187_023;

/// Prague sepolia hard fork activation block is 7836331.
pub const SEPOLIA_PRAGUE_BLOCK: u64 = 7_836_331;

/// Paris sepolia hard fork activation timestamp is 1633267481.
pub const SEPOLIA_PARIS_TIMESTAMP: u64 = 1_633_267_481;

/// Shanghai sepolia hard fork activation timestamp is 1677557088.
pub const SEPOLIA_SHANGHAI_TIMESTAMP: u64 = 1_677_557_088;

/// Cancun sepolia hard fork activation timestamp is 1706655072.
pub const SEPOLIA_CANCUN_TIMESTAMP: u64 = 1_706_655_072;

/// Prague sepolia hard fork activation timestamp is 1741159776.
pub const SEPOLIA_PRAGUE_TIMESTAMP: u64 = 1_741_159_776;

/// Osaka sepolia hard fork activation timestamp is 1760427360.
pub const SEPOLIA_OSAKA_TIMESTAMP: u64 = 1_760_427_360;

/// BPO 1 sepolia hard fork activation timestamp.
pub const SEPOLIA_BPO1_TIMESTAMP: u64 = 1_761_017_184;

/// BPO 2 sepolia hard fork activation timestamp.
pub const SEPOLIA_BPO2_TIMESTAMP: u64 = 1_761_607_008;

} // verus!
