//! Optimism Mainnet hardfork starting points.

use vstd::prelude::*;

verus! {

/// Berlin hardfork activation block on the pre-Bedrock predecessor chain.
pub const OP_MAINNET_BERLIN_BLOCK: u64 = 3_950_000;

/// Bedrock hardfork activation block.
pub const OP_MAINNET_BEDROCK_BLOCK: u64 = 105_235_063;

/// Regolith hardfork activation timestamp.
pub const OP_MAINNET_REGOLITH_TIMESTAMP: u64 = 0;

/// Canyon hardfork activation timestamp.
pub const OP_MAINNET_CANYON_TIMESTAMP: u64 = 1_704_992_401;

/// Ecotone hardfork activation timestamp.
pub const OP_MAINNET_ECOTONE_TIMESTAMP: u64 = 1_710_374_401;

/// Fjord hardfork activation timestamp.
pub const OP_MAINNET_FJORD_TIMESTAMP: u64 = 1_720_627_201;

/// Granite hardfork activation timestamp.
pub const OP_MAINNET_GRANITE_TIMESTAMP: u64 = 1_726_070_401;

/// Holocene hardfork activation timestamp.
pub const OP_MAINNET_HOLOCENE_TIMESTAMP: u64 = 1_736_445_601;

/// Isthmus hardfork activation timestamp.
pub const OP_MAINNET_ISTHMUS_TIMESTAMP: u64 = 1_746_806_401;

} // verus!
