//! Holesky hardfork starting points.

use vstd::prelude::*;

verus! {

/// Shanghai holesky hard fork activation block is 6698.
pub const HOLESKY_SHANGHAI_BLOCK: u64 = 6_698;

/// Cancun holesky hard fork activation block is 894733.
pub const HOLESKY_CANCUN_BLOCK: u64 = 894_733;

/// Prague holesky hard fork activation block is 3419704.
pub const HOLESKY_PRAGUE_BLOCK: u64 = 3_419_704;

/// Paris holesky hard fork activation timestamp is 1695902100.
pub const HOLESKY_PARIS_TIMESTAMP: u64 = 1_695_902_100;

/// Shanghai holesky hard fork activation timestamp is 1696000704.
pub const HOLESKY_SHANGHAI_TIMESTAMP: u64 = 1_696_000_704;

/// Cancun holesky hard fork activation timestamp is 1707305664.
pub const HOLESKY_CANCUN_TIMESTAMP: u64 = 1_707_305_664;

/// Prague holesky hard fork activation timestamp is 1740434112.
pub const HOLESKY_PRAGUE_TIMESTAMP: u64 = 1_740_434_112;

/// Osaka holesky hard fork activation timestamp is 1759308480.
pub const HOLESKY_OSAKA_TIMESTAMP: u64 = 1_759_308_480;

/// BPO 1 holesky hard fork activation timestamp.
pub const HOLESKY_BPO1_TIMESTAMP: u64 = 1_759_898_304;

/// BPO 2 holesky hard fork activation timestamp.
pub const HOLESKY_BPO2_TIMESTAMP: u64 = 1_760_488_128;

} // verus!
