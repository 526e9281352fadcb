//! Optimism Sepolia hardfork starting points.

use vstd::prelude::*;

verus! {

/// Bedrock sepolia hardfork activation block.
pub const OP_SEPOLIA_BEDROCK_BLOCK: u64 = 0;

/// Regolith sepolia hardfork activation timestamp.
pub const OP_SEPOLIA_REGOLITH_TIMESTAMP: u64 = 0;

/// Canyon sepolia hardfork activation timestamp.
pub const OP_SEPOLIA_CANYON_TIMESTAMP: u64 = 1_699_981_200;

/// Ecotone sepolia hardfork activation timestamp.
pub const OP_SEPOLIA_ECOTONE_TIMESTAMP: u64 = 1_708_534_800;

/// Fjord sepolia hardfork activation timestamp.
pub const OP_SEPOLIA_FJORD_TIMESTAMP: u64 = 1_716_998_400;

/// Granite sepolia hardfork activation timestamp.
pub const OP_SEPOLIA_GRANITE_TIMESTAMP: u64 = 1_723_478_400;

/// Holocene sepolia hardfork activation timestamp.
pub const OP_SEPOLIA_HOLOCENE_TIMESTAMP: u64 = 1_732_633_200;

/// Isthmus sepolia hardfork activation timestamp.
pub const OP_SEPOLIA_ISTHMUS_TIMESTAMP: u64 = 1_744_905_600;

} // verus!
