//! Hoodi hardfork starting points.

use vstd::prelude::*;

verus! {

/// Prague hoodi hard fork activation block is 60412.
pub const HOODI_PRAGUE_BLOCK: u64 = 60_412;

/// Prague hoodi hard fork activation timestamp is 1742999832.
pub const HOODI_PRAGUE_TIMESTAMP: u64 = 1_742_999_832;

/// Osaka hoodi hard fork activation timestamp is 1761677592.
pub const HOODI_OSAKA_TIMESTAMP: u64 = 1_761_677_592;

/// BPO 1 hoodi hard fork activation timestamp.
pub const HOODI_BPO1_TIMESTAMP: u64 = 1_762_365_720;

/// BPO 2 hoodi hard fork activation timestamp.
pub const HOODI_BPO2_TIMESTAMP: u64 = 1_762_955_544;

} // verus!
