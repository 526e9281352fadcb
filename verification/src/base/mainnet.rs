//! Base Mainnet hardfork starting points.

use vstd::prelude::*;

use crate::optimism::mainnet::OP_MAINNET_CANYON_TIMESTAMP;
use crate::optimism::mainnet::OP_MAINNET_ECOTONE_TIMESTAMP;
use crate::optimism::mainnet::OP_MAINNET_FJORD_TIMESTAMP;
use crate::optimism::mainnet::OP_MAINNET_GRANITE_TIMESTAMP;
use crate::optimism::mainnet::OP_MAINNET_HOLOCENE_TIMESTAMP;
use crate::optimism::mainnet::OP_MAINNET_ISTHMUS_TIMESTAMP;
use crate::optimism::mainnet::OP_MAINNET_REGOLITH_TIMESTAMP;

verus! {

/// Bedrock base hardfork activation block.
pub const BASE_MAINNET_BEDROCK_BLOCK: u64 = 0;

/// Regolith base hardfork activation timestamp.
pub const BASE_MAINNET_REGOLITH_TIMESTAMP: u64 = OP_MAINNET_REGOLITH_TIMESTAMP;

/// Canyon base hardfork activation timestamp.
pub const BASE_MAINNET_CANYON_TIMESTAMP: u64 = OP_MAINNET_CANYON_TIMESTAMP;

/// Ecotone base hardfork activation timestamp.
pub const BASE_MAINNET_ECOTONE_TIMESTAMP: u64 = OP_MAINNET_ECOTONE_TIMESTAMP;

/// Fjord base hardfork activation timestamp.
pub const BASE_MAINNET_FJORD_TIMESTAMP: u64 = OP_MAINNET_FJORD_TIMESTAMP;

/// Granite base hardfork activation timestamp.
pub const BASE_MAINNET_GRANITE_TIMESTAMP: u64 = OP_MAINNET_GRANITE_TIMESTAMP;

/// Holocene base hardfork activation timestamp.
pub const BASE_MAINNET_HOLOCENE_TIMESTAMP: u64 = OP_MAINNET_HOLOCENE_TIMESTAMP;

/// Isthmus base hardfork activation timestamp.
pub const BASE_MAINNET_ISTHMUS_TIMESTAMP: u64 = OP_MAINNET_ISTHMUS_TIMESTAMP;

} // verus!
