//! Base Sepolia hardfork starting points.

use vstd::prelude::*;

use crate::optimism::sepolia::OP_SEPOLIA_CANYON_TIMESTAMP;
use crate::optimism::sepolia::OP_SEPOLIA_ECOTONE_TIMESTAMP;
use crate::optimism::sepolia::OP_SEPOLIA_FJORD_TIMESTAMP;
use crate::optimism::sepolia::OP_SEPOLIA_GRANITE_TIMESTAMP;
use crate::optimism::sepolia::OP_SEPOLIA_HOLOCENE_TIMESTAMP;
use crate::optimism::sepolia::OP_SEPOLIA_ISTHMUS_TIMESTAMP;
use crate::optimism::sepolia::OP_SEPOLIA_REGOLITH_TIMESTAMP;

verus! {

/// Bedrock base sepolia hardfork activation block.
pub const BASE_SEPOLIA_BEDROCK_BLOCK: u64 = 0;

/// Regolith base sepolia hardfork activation timestamp.
pub const BASE_SEPOLIA_REGOLITH_TIMESTAMP: u64 = OP_SEPOLIA_REGOLITH_TIMESTAMP;

/// Canyon base sepolia hardfork activation timestamp.
pub const BASE_SEPOLIA_CANYON_TIMESTAMP: u64 = OP_SEPOLIA_CANYON_TIMESTAMP;

/// Ecotone base sepolia hardfork activation timestamp.
pub const BASE_SEPOLIA_ECOTONE_TIMESTAMP: u64 = OP_SEPOLIA_ECOTONE_TIMESTAMP;

/// Fjord base sepolia hardfork activation timestamp.
pub const BASE_SEPOLIA_FJORD_TIMESTAMP: u64 = OP_SEPOLIA_FJORD_TIMESTAMP;

/// Granite base sepolia hardfork activation timestamp.
pub const BASE_SEPOLIA_GRANITE_TIMESTAMP: u64 = OP_SEPOLIA_GRANITE_TIMESTAMP;

/// Holocene base sepolia hardfork activation timestamp.
pub const BASE_SEPOLIA_HOLOCENE_TIMESTAMP: u64 = OP_SEPOLIA_HOLOCENE_TIMESTAMP;

/// Isthmus base sepolia hardfork activation timestamp.
pub const BASE_SEPOLIA_ISTHMUS_TIMESTAMP: u64 = OP_SEPOLIA_ISTHMUS_TIMESTAMP;

} // verus!
