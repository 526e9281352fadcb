//! The Optimism-stack hardfork enumeration, its chain schedules, and the
//! projection of the Ethereum hardfork namespace onto a rollup's own table.

use vstd::prelude::*;
use vstd::string::StringExecFns;

use crate::base::mainnet::{
    BASE_MAINNET_BEDROCK_BLOCK, BASE_MAINNET_CANYON_TIMESTAMP, BASE_MAINNET_ECOTONE_TIMESTAMP,
    BASE_MAINNET_FJORD_TIMESTAMP, BASE_MAINNET_GRANITE_TIMESTAMP, BASE_MAINNET_HOLOCENE_TIMESTAMP,
    BASE_MAINNET_ISTHMUS_TIMESTAMP, BASE_MAINNET_REGOLITH_TIMESTAMP,
};
use crate::base::sepolia::{
    BASE_SEPOLIA_BEDROCK_BLOCK, BASE_SEPOLIA_CANYON_TIMESTAMP, BASE_SEPOLIA_ECOTONE_TIMESTAMP,
    BASE_SEPOLIA_FJORD_TIMESTAMP, BASE_SEPOLIA_GRANITE_TIMESTAMP, BASE_SEPOLIA_HOLOCENE_TIMESTAMP,
    BASE_SEPOLIA_ISTHMUS_TIMESTAMP, BASE_SEPOLIA_REGOLITH_TIMESTAMP,
};
use crate::chain::{
    BASE_MAINNET_CHAIN_ID, BASE_SEPOLIA_CHAIN_ID, Chain, OP_MAINNET_CHAIN_ID, OP_SEPOLIA_CHAIN_ID,
};
use crate::condition::{
    ForkCondition, spec_active_at_block, spec_active_at_timestamp, spec_block_point,
    spec_no_later_than,
};
use crate::error::ParseHardforkError;
use crate::hardfork::Hardfork;
use crate::hardfork::ethereum::{EthereumHardfork, EthereumHardforks};
use crate::names::eq_name_ci;
use crate::names::spec_str_eq_ci;
use crate::optimism::mainnet::{
    OP_MAINNET_BEDROCK_BLOCK, OP_MAINNET_BERLIN_BLOCK, OP_MAINNET_CANYON_TIMESTAMP,
    OP_MAINNET_ECOTONE_TIMESTAMP, OP_MAINNET_FJORD_TIMESTAMP, OP_MAINNET_GRANITE_TIMESTAMP,
    OP_MAINNET_HOLOCENE_TIMESTAMP, OP_MAINNET_ISTHMUS_TIMESTAMP, OP_MAINNET_REGOLITH_TIMESTAMP,
};
use crate::optimism::sepolia::{
    OP_SEPOLIA_BEDROCK_BLOCK, OP_SEPOLIA_CANYON_TIMESTAMP, OP_SEPOLIA_ECOTONE_TIMESTAMP,
    OP_SEPOLIA_FJORD_TIMESTAMP, OP_SEPOLIA_GRANITE_TIMESTAMP, OP_SEPOLIA_HOLOCENE_TIMESTAMP,
    OP_SEPOLIA_ISTHMUS_TIMESTAMP, OP_SEPOLIA_REGOLITH_TIMESTAMP,
};
use crate::table::{
    lemma_adjacent_sorted_is_sorted, lemma_sorted_bounded_is_prefix, sort_forks,
    spec_condition_of, spec_conditions_monotonic, spec_distinct_forks, spec_sorted_strict,
};

verus! {

/// The name of an Optimism-stack hardfork, in canonical historical order.
///
/// When building a list of hardforks for a rollup chain, the list is still
/// answered against [`EthereumHardfork`] queries by projection: the rollup
/// hard forks at least whenever the base chain does, so each base-chain
/// upgrade maps onto the rollup upgrade that adopted its changes.
#[derive(Debug, Copy, Clone, Eq, PartialEq, Structural, Hash, Default)]
pub enum OpHardfork {
    /// Bedrock.
    Bedrock,
    /// Regolith.
    Regolith,
    /// Canyon.
    Canyon,
    /// Ecotone.
    Ecotone,
    /// Fjord.
    Fjord,
    /// Granite.
    Granite,
    /// Holocene.
    Holocene,
    /// Isthmus.
    #[default]
    Isthmus,
    /// Interop.
    Interop,
}

impl Hardfork for OpHardfork {
    open spec fn spec_ordinal(&self) -> int {
        match self {
            OpHardfork::Bedrock => 0,
            OpHardfork::Regolith => 1,
            OpHardfork::Canyon => 2,
            OpHardfork::Ecotone => 3,
            OpHardfork::Fjord => 4,
            OpHardfork::Granite => 5,
            OpHardfork::Holocene => 6,
            OpHardfork::Isthmus => 7,
            OpHardfork::Interop => 8,
        }
    }

    open spec fn spec_name(&self) -> Seq<char> {
        match self {
            OpHardfork::Bedrock => "Bedrock"@,
            OpHardfork::Regolith => "Regolith"@,
            OpHardfork::Canyon => "Canyon"@,
            OpHardfork::Ecotone => "Ecotone"@,
            OpHardfork::Fjord => "Fjord"@,
            OpHardfork::Granite => "Granite"@,
            OpHardfork::Holocene => "Holocene"@,
            OpHardfork::Isthmus => "Isthmus"@,
            OpHardfork::Interop => "Interop"@,
        }
    }

    proof fn lemma_ordinal_injective(a: Self, b: Self) {
    }

    fn idx(&self) -> (r: usize) {
        match self {
            OpHardfork::Bedrock => 0,
            OpHardfork::Regolith => 1,
            OpHardfork::Canyon => 2,
            OpHardfork::Ecotone => 3,
            OpHardfork::Fjord => 4,
            OpHardfork::Granite => 5,
            OpHardfork::Holocene => 6,
            OpHardfork::Isthmus => 7,
            OpHardfork::Interop => 8,
        }
    }

    fn name(&self) -> (r: &'static str) {
        match self {
            OpHardfork::Bedrock => "Bedrock",
            OpHardfork::Regolith => "Regolith",
            OpHardfork::Canyon => "Canyon",
            OpHardfork::Ecotone => "Ecotone",
            OpHardfork::Fjord => "Fjord",
            OpHardfork::Granite => "Granite",
            OpHardfork::Holocene => "Holocene",
            OpHardfork::Isthmus => "Isthmus",
            OpHardfork::Interop => "Interop",
        }
    }
}

impl OpHardfork {
    /// Parses a hardfork name, matched against the known names with ASCII
    /// letter case ignored.  An unknown name is a recoverable error carrying
    /// the offending text.
    pub fn from_name(s: &str) -> (r: Result<OpHardfork, ParseHardforkError>)
        ensures
            match r {
                Ok(f) => spec_str_eq_ci(s@, f.spec_name()),
                Err(e) => (forall|f: OpHardfork| !spec_str_eq_ci(s@, f.spec_name()))
                    && e.spec_message() == "Unknown hardfork: "@ + s@,
            },
    {
        if eq_name_ci(s, "Bedrock") {
            Ok(OpHardfork::Bedrock)
        } else if eq_name_ci(s, "Regolith") {
            Ok(OpHardfork::Regolith)
        } else if eq_name_ci(s, "Canyon") {
            Ok(OpHardfork::Canyon)
        } else if eq_name_ci(s, "Ecotone") {
            Ok(OpHardfork::Ecotone)
        } else if eq_name_ci(s, "Fjord") {
            Ok(OpHardfork::Fjord)
        } else if eq_name_ci(s, "Granite") {
            Ok(OpHardfork::Granite)
        } else if eq_name_ci(s, "Holocene") {
            Ok(OpHardfork::Holocene)
        } else if eq_name_ci(s, "Isthmus") {
            Ok(OpHardfork::Isthmus)
        } else if eq_name_ci(s, "Interop") {
            Ok(OpHardfork::Interop)
        } else {
            let mut msg = String::from_str("Unknown hardfork: ");
            msg.append(s);
            Err(ParseHardforkError::new(msg))
        }
    }

    /// The hardfork active on the Optimism mainnet at the given timestamp.
    pub open spec fn spec_op_mainnet_fork_at_timestamp(timestamp: u64) -> OpHardfork {
        if timestamp < OP_MAINNET_CANYON_TIMESTAMP {
            OpHardfork::Regolith
        } else if timestamp < OP_MAINNET_ECOTONE_TIMESTAMP {
            OpHardfork::Canyon
        } else if timestamp < OP_MAINNET_FJORD_TIMESTAMP {
            OpHardfork::Ecotone
        } else if timestamp < OP_MAINNET_GRANITE_TIMESTAMP {
            OpHardfork::Fjord
        } else if timestamp < OP_MAINNET_HOLOCENE_TIMESTAMP {
            OpHardfork::Granite
        } else if timestamp < OP_MAINNET_ISTHMUS_TIMESTAMP {
            OpHardfork::Holocene
        } else {
            OpHardfork::Isthmus
        }
    }

    /// The hardfork active on the Optimism Sepolia testnet at the given
    /// timestamp.
    pub open spec fn spec_op_sepolia_fork_at_timestamp(timestamp: u64) -> OpHardfork {
        if timestamp < OP_SEPOLIA_CANYON_TIMESTAMP {
            OpHardfork::Regolith
        } else if timestamp < OP_SEPOLIA_ECOTONE_TIMESTAMP {
            OpHardfork::Canyon
        } else if timestamp < OP_SEPOLIA_FJORD_TIMESTAMP {
            OpHardfork::Ecotone
        } else if timestamp < OP_SEPOLIA_GRANITE_TIMESTAMP {
            OpHardfork::Fjord
        } else if timestamp < OP_SEPOLIA_HOLOCENE_TIMESTAMP {
            OpHardfork::Granite
        } else if timestamp < OP_SEPOLIA_ISTHMUS_TIMESTAMP {
            OpHardfork::Holocene
        } else {
            OpHardfork::Isthmus
        }
    }

    /// The hardfork active on the Base mainnet at the given timestamp.
    pub open spec fn spec_base_mainnet_fork_at_timestamp(timestamp: u64) -> OpHardfork {
        if timestamp < BASE_MAINNET_CANYON_TIMESTAMP {
            OpHardfork::Regolith
        } else if timestamp < BASE_MAINNET_ECOTONE_TIMESTAMP {
            OpHardfork::Canyon
        } else if timestamp < BASE_MAINNET_FJORD_TIMESTAMP {
            OpHardfork::Ecotone
        } else if timestamp < BASE_MAINNET_GRANITE_TIMESTAMP {
            OpHardfork::Fjord
        } else if timestamp < BASE_MAINNET_HOLOCENE_TIMESTAMP {
            OpHardfork::Granite
        } else if timestamp < BASE_MAINNET_ISTHMUS_TIMESTAMP {
            OpHardfork::Holocene
        } else {
            OpHardfork::Isthmus
        }
    }

    /// The hardfork active on the Base Sepolia testnet at the given
    /// timestamp.
    pub open spec fn spec_base_sepolia_fork_at_timestamp(timestamp: u64) -> OpHardfork {
        if timestamp < BASE_SEPOLIA_CANYON_TIMESTAMP {
            OpHardfork::Regolith
        } else if timestamp < BASE_SEPOLIA_ECOTONE_TIMESTAMP {
            OpHardfork::Canyon
        } else if timestamp < BASE_SEPOLIA_FJORD_TIMESTAMP {
            OpHardfork::Ecotone
        } else if timestamp < BASE_SEPOLIA_GRANITE_TIMESTAMP {
            OpHardfork::Fjord
        } else if timestamp < BASE_SEPOLIA_HOLOCENE_TIMESTAMP {
            OpHardfork::Granite
        } else if timestamp < BASE_SEPOLIA_ISTHMUS_TIMESTAMP {
            OpHardfork::Holocene
        } else {
            OpHardfork::Isthmus
        }
    }

    /// The hardfork active on the given rollup chain at the given
    /// timestamp: the one starting at the greatest boundary at or below the
    /// timestamp, and nothing on an unknown chain.  A boundary belongs to
    /// the fork it activates.
    pub open spec fn spec_from_chain_and_timestamp(chain: Chain, timestamp: u64) -> Option<
        OpHardfork,
    > {
        if chain.id == OP_MAINNET_CHAIN_ID {
            Some(OpHardfork::spec_op_mainnet_fork_at_timestamp(timestamp))
        } else if chain.id == OP_SEPOLIA_CHAIN_ID {
            Some(OpHardfork::spec_op_sepolia_fork_at_timestamp(timestamp))
        } else if chain.id == BASE_MAINNET_CHAIN_ID {
            Some(OpHardfork::spec_base_mainnet_fork_at_timestamp(timestamp))
        } else if chain.id == BASE_SEPOLIA_CHAIN_ID {
            Some(OpHardfork::spec_base_sepolia_fork_at_timestamp(timestamp))
        } else {
            None
        }
    }

    /// Reverse lookup: returns the hardfork active at the given timestamp
    /// on the given rollup chain, or `None` for an unknown chain.
    pub fn from_chain_and_timestamp(chain: Chain, timestamp: u64) -> (r: Option<OpHardfork>)
        ensures
            r == OpHardfork::spec_from_chain_and_timestamp(chain, timestamp),
    {
        if chain.id == OP_MAINNET_CHAIN_ID {
            Some(
                if timestamp < OP_MAINNET_CANYON_TIMESTAMP {
                    OpHardfork::Regolith
                } else if timestamp < OP_MAINNET_ECOTONE_TIMESTAMP {
                    OpHardfork::Canyon
                } else if timestamp < OP_MAINNET_FJORD_TIMESTAMP {
                    OpHardfork::Ecotone
                } else if timestamp < OP_MAINNET_GRANITE_TIMESTAMP {
                    OpHardfork::Fjord
                } else if timestamp < OP_MAINNET_HOLOCENE_TIMESTAMP {
                    OpHardfork::Granite
                } else if timestamp < OP_MAINNET_ISTHMUS_TIMESTAMP {
                    OpHardfork::Holocene
                } else {
                    OpHardfork::Isthmus
                },
            )
        } else if chain.id == OP_SEPOLIA_CHAIN_ID {
            Some(
                if timestamp < OP_SEPOLIA_CANYON_TIMESTAMP {
                    OpHardfork::Regolith
                } else if timestamp < OP_SEPOLIA_ECOTONE_TIMESTAMP {
                    OpHardfork::Canyon
                } else if timestamp < OP_SEPOLIA_FJORD_TIMESTAMP {
                    OpHardfork::Ecotone
                } else if timestamp < OP_SEPOLIA_GRANITE_TIMESTAMP {
                    OpHardfork::Fjord
                } else if timestamp < OP_SEPOLIA_HOLOCENE_TIMESTAMP {
                    OpHardfork::Granite
                } else if timestamp < OP_SEPOLIA_ISTHMUS_TIMESTAMP {
                    OpHardfork::Holocene
                } else {
                    OpHardfork::Isthmus
                },
            )
        } else if chain.id == BASE_MAINNET_CHAIN_ID {
            Some(
                if timestamp < BASE_MAINNET_CANYON_TIMESTAMP {
                    OpHardfork::Regolith
                } else if timestamp < BASE_MAINNET_ECOTONE_TIMESTAMP {
                    OpHardfork::Canyon
                } else if timestamp < BASE_MAINNET_FJORD_TIMESTAMP {
                    OpHardfork::Ecotone
                } else if timestamp < BASE_MAINNET_GRANITE_TIMESTAMP {
                    OpHardfork::Fjord
                } else if timestamp < BASE_MAINNET_HOLOCENE_TIMESTAMP {
                    OpHardfork::Granite
                } else if timestamp < BASE_MAINNET_ISTHMUS_TIMESTAMP {
                    OpHardfork::Holocene
                } else {
                    OpHardfork::Isthmus
                },
            )
        } else if chain.id == BASE_SEPOLIA_CHAIN_ID {
            Some(
                if timestamp < BASE_SEPOLIA_CANYON_TIMESTAMP {
                    OpHardfork::Regolith
                } else if timestamp < BASE_SEPOLIA_ECOTONE_TIMESTAMP {
                    OpHardfork::Canyon
                } else if timestamp < BASE_SEPOLIA_FJORD_TIMESTAMP {
                    OpHardfork::Ecotone
                } else if timestamp < BASE_SEPOLIA_GRANITE_TIMESTAMP {
                    OpHardfork::Fjord
                } else if timestamp < BASE_SEPOLIA_HOLOCENE_TIMESTAMP {
                    OpHardfork::Granite
                } else if timestamp < BASE_SEPOLIA_ISTHMUS_TIMESTAMP {
                    OpHardfork::Holocene
                } else {
                    OpHardfork::Isthmus
                },
            )
        } else {
            None
        }
    }

    /// The Optimism mainnet activation schedule, in canonical order.
    pub open spec fn spec_op_mainnet_forks() -> Seq<(OpHardfork, ForkCondition)> {
        seq![
            (OpHardfork::Bedrock, ForkCondition::Block(OP_MAINNET_BEDROCK_BLOCK)),
            (OpHardfork::Regolith, ForkCondition::Timestamp(OP_MAINNET_REGOLITH_TIMESTAMP)),
            (OpHardfork::Canyon, ForkCondition::Timestamp(OP_MAINNET_CANYON_TIMESTAMP)),
            (OpHardfork::Ecotone, ForkCondition::Timestamp(OP_MAINNET_ECOTONE_TIMESTAMP)),
            (OpHardfork::Fjord, ForkCondition::Timestamp(OP_MAINNET_FJORD_TIMESTAMP)),
            (OpHardfork::Granite, ForkCondition::Timestamp(OP_MAINNET_GRANITE_TIMESTAMP)),
            (OpHardfork::Holocene, ForkCondition::Timestamp(OP_MAINNET_HOLOCENE_TIMESTAMP)),
            (OpHardfork::Isthmus, ForkCondition::Timestamp(OP_MAINNET_ISTHMUS_TIMESTAMP)),
        ]
    }

    /// Optimism mainnet list of hardforks.
    pub fn op_mainnet() -> (r: Vec<(OpHardfork, ForkCondition)>)
        ensures
            r@ == OpHardfork::spec_op_mainnet_forks(),
    {
        let mut r: Vec<(OpHardfork, ForkCondition)> = Vec::new();
        r.push((OpHardfork::Bedrock, ForkCondition::Block(OP_MAINNET_BEDROCK_BLOCK)));
        r.push((OpHardfork::Regolith, ForkCondition::Timestamp(OP_MAINNET_REGOLITH_TIMESTAMP)));
        r.push((OpHardfork::Canyon, ForkCondition::Timestamp(OP_MAINNET_CANYON_TIMESTAMP)));
        r.push((OpHardfork::Ecotone, ForkCondition::Timestamp(OP_MAINNET_ECOTONE_TIMESTAMP)));
        r.push((OpHardfork::Fjord, ForkCondition::Timestamp(OP_MAINNET_FJORD_TIMESTAMP)));
        r.push((OpHardfork::Granite, ForkCondition::Timestamp(OP_MAINNET_GRANITE_TIMESTAMP)));
        r.push((OpHardfork::Holocene, ForkCondition::Timestamp(OP_MAINNET_HOLOCENE_TIMESTAMP)));
        r.push((OpHardfork::Isthmus, ForkCondition::Timestamp(OP_MAINNET_ISTHMUS_TIMESTAMP)));
        proof {
            assert(r@ =~= OpHardfork::spec_op_mainnet_forks());
        }
        r
    }

    /// The Optimism Sepolia activation schedule, in canonical order.
    pub open spec fn spec_op_sepolia_forks() -> Seq<(OpHardfork, ForkCondition)> {
        seq![
            (OpHardfork::Bedrock, ForkCondition::Block(OP_SEPOLIA_BEDROCK_BLOCK)),
            (OpHardfork::Regolith, ForkCondition::Timestamp(OP_SEPOLIA_REGOLITH_TIMESTAMP)),
            (OpHardfork::Canyon, ForkCondition::Timestamp(OP_SEPOLIA_CANYON_TIMESTAMP)),
            (OpHardfork::Ecotone, ForkCondition::Timestamp(OP_SEPOLIA_ECOTONE_TIMESTAMP)),
            (OpHardfork::Fjord, ForkCondition::Timestamp(OP_SEPOLIA_FJORD_TIMESTAMP)),
            (OpHardfork::Granite, ForkCondition::Timestamp(OP_SEPOLIA_GRANITE_TIMESTAMP)),
            (OpHardfork::Holocene, ForkCondition::Timestamp(OP_SEPOLIA_HOLOCENE_TIMESTAMP)),
            (OpHardfork::Isthmus, ForkCondition::Timestamp(OP_SEPOLIA_ISTHMUS_TIMESTAMP)),
        ]
    }

    /// Optimism Sepolia list of hardforks.
    pub fn op_sepolia() -> (r: Vec<(OpHardfork, ForkCondition)>)
        ensures
            r@ == OpHardfork::spec_op_sepolia_forks(),
    {
        let mut r: Vec<(OpHardfork, ForkCondition)> = Vec::new();
        r.push((OpHardfork::Bedrock, ForkCondition::Block(OP_SEPOLIA_BEDROCK_BLOCK)));
        r.push((OpHardfork::Regolith, ForkCondition::Timestamp(OP_SEPOLIA_REGOLITH_TIMESTAMP)));
        r.push((OpHardfork::Canyon, ForkCondition::Timestamp(OP_SEPOLIA_CANYON_TIMESTAMP)));
        r.push((OpHardfork::Ecotone, ForkCondition::Timestamp(OP_SEPOLIA_ECOTONE_TIMESTAMP)));
        r.push((OpHardfork::Fjord, ForkCondition::Timestamp(OP_SEPOLIA_FJORD_TIMESTAMP)));
        r.push((OpHardfork::Granite, ForkCondition::Timestamp(OP_SEPOLIA_GRANITE_TIMESTAMP)));
        r.push((OpHardfork::Holocene, ForkCondition::Timestamp(OP_SEPOLIA_HOLOCENE_TIMESTAMP)));
        r.push((OpHardfork::Isthmus, ForkCondition::Timestamp(OP_SEPOLIA_ISTHMUS_TIMESTAMP)));
        proof {
            assert(r@ =~= OpHardfork::spec_op_sepolia_forks());
        }
        r
    }

    /// The Base mainnet activation schedule, in canonical order.
    pub open spec fn spec_base_mainnet_forks() -> Seq<(OpHardfork, ForkCondition)> {
        seq![
            (OpHardfork::Bedrock, ForkCondition::Block(BASE_MAINNET_BEDROCK_BLOCK)),
            (OpHardfork::Regolith, ForkCondition::Timestamp(BASE_MAINNET_REGOLITH_TIMESTAMP)),
            (OpHardfork::Canyon, ForkCondition::Timestamp(BASE_MAINNET_CANYON_TIMESTAMP)),
            (OpHardfork::Ecotone, ForkCondition::Timestamp(BASE_MAINNET_ECOTONE_TIMESTAMP)),
            (OpHardfork::Fjord, ForkCondition::Timestamp(BASE_MAINNET_FJORD_TIMESTAMP)),
            (OpHardfork::Granite, ForkCondition::Timestamp(BASE_MAINNET_GRANITE_TIMESTAMP)),
            (OpHardfork::Holocene, ForkCondition::Timestamp(BASE_MAINNET_HOLOCENE_TIMESTAMP)),
            (OpHardfork::Isthmus, ForkCondition::Timestamp(BASE_MAINNET_ISTHMUS_TIMESTAMP)),
        ]
    }

    /// Base mainnet list of hardforks.
    pub fn base_mainnet() -> (r: Vec<(OpHardfork, ForkCondition)>)
        ensures
            r@ == OpHardfork::spec_base_mainnet_forks(),
    {
        let mut r: Vec<(OpHardfork, ForkCondition)> = Vec::new();
        r.push((OpHardfork::Bedrock, ForkCondition::Block(BASE_MAINNET_BEDROCK_BLOCK)));
        r.push((OpHardfork::Regolith, ForkCondition::Timestamp(BASE_MAINNET_REGOLITH_TIMESTAMP)));
        r.push((OpHardfork::Canyon, ForkCondition::Timestamp(BASE_MAINNET_CANYON_TIMESTAMP)));
        r.push((OpHardfork::Ecotone, ForkCondition::Timestamp(BASE_MAINNET_ECOTONE_TIMESTAMP)));
        r.push((OpHardfork::Fjord, ForkCondition::Timestamp(BASE_MAINNET_FJORD_TIMESTAMP)));
        r.push((OpHardfork::Granite, ForkCondition::Timestamp(BASE_MAINNET_GRANITE_TIMESTAMP)));
        r.push((OpHardfork::Holocene, ForkCondition::Timestamp(BASE_MAINNET_HOLOCENE_TIMESTAMP)));
        r.push((OpHardfork::Isthmus, ForkCondition::Timestamp(BASE_MAINNET_ISTHMUS_TIMESTAMP)));
        proof {
            assert(r@ =~= OpHardfork::spec_base_mainnet_forks());
        }
        r
    }

    /// The Base Sepolia activation schedule, in canonical order.
    pub open spec fn spec_base_sepolia_forks() -> Seq<(OpHardfork, ForkCondition)> {
        seq![
            (OpHardfork::Bedrock, ForkCondition::Block(BASE_SEPOLIA_BEDROCK_BLOCK)),
            (OpHardfork::Regolith, ForkCondition::Timestamp(BASE_SEPOLIA_REGOLITH_TIMESTAMP)),
            (OpHardfork::Canyon, ForkCondition::Timestamp(BASE_SEPOLIA_CANYON_TIMESTAMP)),
            (OpHardfork::Ecotone, ForkCondition::Timestamp(BASE_SEPOLIA_ECOTONE_TIMESTAMP)),
            (OpHardfork::Fjord, ForkCondition::Timestamp(BASE_SEPOLIA_FJORD_TIMESTAMP)),
            (OpHardfork::Granite, ForkCondition::Timestamp(BASE_SEPOLIA_GRANITE_TIMESTAMP)),
            (OpHardfork::Holocene, ForkCondition::Timestamp(BASE_SEPOLIA_HOLOCENE_TIMESTAMP)),
            (OpHardfork::Isthmus, ForkCondition::Timestamp(BASE_SEPOLIA_ISTHMUS_TIMESTAMP)),
        ]
    }

    /// Base Sepolia list of hardforks.
    pub fn base_sepolia() -> (r: Vec<(OpHardfork, ForkCondition)>)
        ensures
            r@ == OpHardfork::spec_base_sepolia_forks(),
    {
        let mut r: Vec<(OpHardfork, ForkCondition)> = Vec::new();
        r.push((OpHardfork::Bedrock, ForkCondition::Block(BASE_SEPOLIA_BEDROCK_BLOCK)));
        r.push((OpHardfork::Regolith, ForkCondition::Timestamp(BASE_SEPOLIA_REGOLITH_TIMESTAMP)));
        r.push((OpHardfork::Canyon, ForkCondition::Timestamp(BASE_SEPOLIA_CANYON_TIMESTAMP)));
        r.push((OpHardfork::Ecotone, ForkCondition::Timestamp(BASE_SEPOLIA_ECOTONE_TIMESTAMP)));
        r.push((OpHardfork::Fjord, ForkCondition::Timestamp(BASE_SEPOLIA_FJORD_TIMESTAMP)));
        r.push((OpHardfork::Granite, ForkCondition::Timestamp(BASE_SEPOLIA_GRANITE_TIMESTAMP)));
        r.push((OpHardfork::Holocene, ForkCondition::Timestamp(BASE_SEPOLIA_HOLOCENE_TIMESTAMP)));
        r.push((OpHardfork::Isthmus, ForkCondition::Timestamp(BASE_SEPOLIA_ISTHMUS_TIMESTAMP)));
        proof {
            assert(r@ =~= OpHardfork::spec_base_sepolia_forks());
        }
        r
    }
}

impl core::str::FromStr for OpHardfork {
    type Err = ParseHardforkError;

    /// Parses a hardfork name with ASCII letter case ignored.
    fn from_str(s: &str) -> Result<OpHardfork, ParseHardforkError> {
        OpHardfork::from_name(s)
    }
}

/// Activation is monotonic along the Optimism mainnet schedule: an earlier
/// fork activates no later than a later one, in whichever space both are
/// defined.
pub proof fn lemma_op_mainnet_schedule_monotonic()
    ensures
        spec_conditions_monotonic(OpHardfork::spec_op_mainnet_forks()),
{
}

/// Activation is monotonic along the Optimism Sepolia schedule.
pub proof fn lemma_op_sepolia_schedule_monotonic()
    ensures
        spec_conditions_monotonic(OpHardfork::spec_op_sepolia_forks()),
{
}

/// Activation is monotonic along the Base mainnet schedule.
pub proof fn lemma_base_mainnet_schedule_monotonic()
    ensures
        spec_conditions_monotonic(OpHardfork::spec_base_mainnet_forks()),
{
}

/// Activation is monotonic along the Base Sepolia schedule.
pub proof fn lemma_base_sepolia_schedule_monotonic()
    ensures
        spec_conditions_monotonic(OpHardfork::spec_base_sepolia_forks()),
{
}

/// Extends [`EthereumHardforks`] with Optimism-stack helper methods.
pub trait OpHardforks: EthereumHardforks {
    /// The condition this provider associates with an Optimism-stack
    /// hardfork.
    spec fn spec_op_fork_activation(&self, fork: OpHardfork) -> ForkCondition;

    /// Retrieves the activation condition for an [`OpHardfork`].  If `fork`
    /// is not present, returns [`ForkCondition::Never`].
    fn op_fork_activation(&self, fork: OpHardfork) -> (r: ForkCondition)
        ensures
            r == self.spec_op_fork_activation(fork),
    ;

    /// Convenience method to check if [`OpHardfork::Bedrock`] is active at
    /// a given block number.
    fn is_bedrock_active_at_block(&self, block_number: u64) -> (r: bool)
        ensures
            r == spec_active_at_block(
                self.spec_op_fork_activation(OpHardfork::Bedrock),
                block_number,
            ),
    {
        self.op_fork_activation(OpHardfork::Bedrock).active_at_block(block_number)
    }

    /// Returns `true` if [`OpHardfork::Regolith`] is active at the given
    /// block timestamp.
    fn is_regolith_active_at_timestamp(&self, timestamp: u64) -> (r: bool)
        ensures
            r == spec_active_at_timestamp(
                self.spec_op_fork_activation(OpHardfork::Regolith),
                timestamp,
            ),
    {
        self.op_fork_activation(OpHardfork::Regolith).active_at_timestamp(timestamp)
    }

    /// Returns `true` if [`OpHardfork::Canyon`] is active at the given
    /// block timestamp.
    fn is_canyon_active_at_timestamp(&self, timestamp: u64) -> (r: bool)
        ensures
            r == spec_active_at_timestamp(
                self.spec_op_fork_activation(OpHardfork::Canyon),
                timestamp,
            ),
    {
        self.op_fork_activation(OpHardfork::Canyon).active_at_timestamp(timestamp)
    }

    /// Returns `true` if [`OpHardfork::Ecotone`] is active at the given
    /// block timestamp.
    fn is_ecotone_active_at_timestamp(&self, timestamp: u64) -> (r: bool)
        ensures
            r == spec_active_at_timestamp(
                self.spec_op_fork_activation(OpHardfork::Ecotone),
                timestamp,
            ),
    {
        self.op_fork_activation(OpHardfork::Ecotone).active_at_timestamp(timestamp)
    }

    /// Returns `true` if [`OpHardfork::Fjord`] is active at the given block
    /// timestamp.
    fn is_fjord_active_at_timestamp(&self, timestamp: u64) -> (r: bool)
        ensures
            r == spec_active_at_timestamp(
                self.spec_op_fork_activation(OpHardfork::Fjord),
                timestamp,
            ),
    {
        self.op_fork_activation(OpHardfork::Fjord).active_at_timestamp(timestamp)
    }

    /// Returns `true` if [`OpHardfork::Granite`] is active at the given
    /// block timestamp.
    fn is_granite_active_at_timestamp(&self, timestamp: u64) -> (r: bool)
        ensures
            r == spec_active_at_timestamp(
                self.spec_op_fork_activation(OpHardfork::Granite),
                timestamp,
            ),
    {
        self.op_fork_activation(OpHardfork::Granite).active_at_timestamp(timestamp)
    }

    /// Returns `true` if [`OpHardfork::Holocene`] is active at the given
    /// block timestamp.
    fn is_holocene_active_at_timestamp(&self, timestamp: u64) -> (r: bool)
        ensures
            r == spec_active_at_timestamp(
                self.spec_op_fork_activation(OpHardfork::Holocene),
                timestamp,
            ),
    {
        self.op_fork_activation(OpHardfork::Holocene).active_at_timestamp(timestamp)
    }

    /// Returns `true` if [`OpHardfork::Isthmus`] is active at the given
    /// block timestamp.
    fn is_isthmus_active_at_timestamp(&self, timestamp: u64) -> (r: bool)
        ensures
            r == spec_active_at_timestamp(
                self.spec_op_fork_activation(OpHardfork::Isthmus),
                timestamp,
            ),
    {
        self.op_fork_activation(OpHardfork::Isthmus).active_at_timestamp(timestamp)
    }

    /// Returns `true` if [`OpHardfork::Interop`] is active at the given
    /// block timestamp.
    fn is_interop_active_at_timestamp(&self, timestamp: u64) -> (r: bool)
        ensures
            r == spec_active_at_timestamp(
                self.spec_op_fork_activation(OpHardfork::Interop),
                timestamp,
            ),
    {
        self.op_fork_activation(OpHardfork::Interop).active_at_timestamp(timestamp)
    }
}

/// The activation condition a rollup table derives for a base-chain
/// hardfork.
///
/// The range table is positional: every base-chain fork up to and including
/// Muir Glacier predates the rollup and is active from genesis; Berlin may
/// carry a legacy override block from the rollup's predecessor chain; the
/// London through Paris range maps to the rollup's bootstrap fork
/// ([`OpHardfork::Bedrock`], ordinal 0); Shanghai maps to
/// [`OpHardfork::Canyon`], Cancun to [`OpHardfork::Ecotone`], and Prague to
/// [`OpHardfork::Isthmus`].  A mapped ordinal the table has not reached
/// yields `Never`, as does every base-chain fork newer than the newest
/// boundary the range table defines — and every query on an empty table.
pub open spec fn spec_derived_eth_activation(
    s: Seq<(OpHardfork, ForkCondition)>,
    berlin_override: Option<u64>,
    fork: EthereumHardfork,
) -> ForkCondition {
    if s.len() == 0 {
        ForkCondition::Never
    } else if fork.spec_ordinal() < EthereumHardfork::Berlin.spec_ordinal() {
        ForkCondition::Block(0)
    } else if fork == EthereumHardfork::Berlin {
        match berlin_override {
            Some(b) => ForkCondition::Block(b),
            None => ForkCondition::Block(0),
        }
    } else if fork.spec_ordinal() <= EthereumHardfork::Paris.spec_ordinal() {
        s[OpHardfork::Bedrock.spec_ordinal()].1
    } else if fork == EthereumHardfork::Shanghai {
        if s.len() <= OpHardfork::Canyon.spec_ordinal() {
            ForkCondition::Never
        } else {
            s[OpHardfork::Canyon.spec_ordinal()].1
        }
    } else if fork == EthereumHardfork::Cancun {
        if s.len() <= OpHardfork::Ecotone.spec_ordinal() {
            ForkCondition::Never
        } else {
            s[OpHardfork::Ecotone.spec_ordinal()].1
        }
    } else if fork == EthereumHardfork::Prague {
        if s.len() <= OpHardfork::Isthmus.spec_ordinal() {
            ForkCondition::Never
        } else {
            s[OpHardfork::Isthmus.spec_ordinal()].1
        }
    } else {
        ForkCondition::Never
    }
}

/// The projection onto the base-chain namespace is monotonic: if base-chain
/// fork `a` precedes base-chain fork `b`, the condition derived for `a`
/// activates no later than the one derived for `b`, in whichever space both
/// are defined.
///
/// This holds whenever the rollup's own table is monotonic and any legacy
/// Berlin override lies at or before the bootstrap fork's activation block —
/// the override records an activation on the rollup's predecessor chain,
/// which by construction came first.
pub proof fn lemma_derived_activation_monotonic(
    s: Seq<(OpHardfork, ForkCondition)>,
    berlin_override: Option<u64>,
    a: EthereumHardfork,
    b: EthereumHardfork,
)
    requires
        spec_conditions_monotonic(s),
        a.spec_ordinal() <= b.spec_ordinal(),
        berlin_override is Some && s.len() > 0 ==> spec_block_point(s[0].1) is Some
            && berlin_override->0 <= spec_block_point(s[0].1)->0,
    ensures
        spec_no_later_than(
            spec_derived_eth_activation(s, berlin_override, a),
            spec_derived_eth_activation(s, berlin_override, b),
        ),
{
    if s.len() > 2 {
        assert(spec_no_later_than(s[0].1, s[2].1));
    }
    if s.len() > 3 {
        assert(spec_no_later_than(s[0].1, s[3].1));
        assert(spec_no_later_than(s[2].1, s[3].1));
    }
    if s.len() > 7 {
        assert(spec_no_later_than(s[0].1, s[7].1));
        assert(spec_no_later_than(s[2].1, s[7].1));
        assert(spec_no_later_than(s[3].1, s[7].1));
    }
}

/// On OP mainnet, the derived base-chain activations are monotonic in the
/// base chain's canonical order.
pub proof fn lemma_op_mainnet_projection_monotonic(a: EthereumHardfork, b: EthereumHardfork)
    requires
        a.spec_ordinal() <= b.spec_ordinal(),
    ensures
        spec_no_later_than(
            spec_derived_eth_activation(
                OpHardfork::spec_op_mainnet_forks(),
                Some(OP_MAINNET_BERLIN_BLOCK),
                a,
            ),
            spec_derived_eth_activation(
                OpHardfork::spec_op_mainnet_forks(),
                Some(OP_MAINNET_BERLIN_BLOCK),
                b,
            ),
        ),
{
    lemma_op_mainnet_schedule_monotonic();
    lemma_derived_activation_monotonic(
        OpHardfork::spec_op_mainnet_forks(),
        Some(OP_MAINNET_BERLIN_BLOCK),
        a,
        b,
    );
}

/// On OP Sepolia, the derived base-chain activations are monotonic in the
/// base chain's canonical order.
pub proof fn lemma_op_sepolia_projection_monotonic(a: EthereumHardfork, b: EthereumHardfork)
    requires
        a.spec_ordinal() <= b.spec_ordinal(),
    ensures
        spec_no_later_than(
            spec_derived_eth_activation(OpHardfork::spec_op_sepolia_forks(), None, a),
            spec_derived_eth_activation(OpHardfork::spec_op_sepolia_forks(), None, b),
        ),
{
    lemma_op_sepolia_schedule_monotonic();
    lemma_derived_activation_monotonic(OpHardfork::spec_op_sepolia_forks(), None, a, b);
}

/// On Base mainnet, the derived base-chain activations are monotonic in the
/// base chain's canonical order.
pub proof fn lemma_base_mainnet_projection_monotonic(a: EthereumHardfork, b: EthereumHardfork)
    requires
        a.spec_ordinal() <= b.spec_ordinal(),
    ensures
        spec_no_later_than(
            spec_derived_eth_activation(OpHardfork::spec_base_mainnet_forks(), None, a),
            spec_derived_eth_activation(OpHardfork::spec_base_mainnet_forks(), None, b),
        ),
{
    lemma_base_mainnet_schedule_monotonic();
    lemma_derived_activation_monotonic(OpHardfork::spec_base_mainnet_forks(), None, a, b);
}

/// On Base Sepolia, the derived base-chain activations are monotonic in the
/// base chain's canonical order.
pub proof fn lemma_base_sepolia_projection_monotonic(a: EthereumHardfork, b: EthereumHardfork)
    requires
        a.spec_ordinal() <= b.spec_ordinal(),
    ensures
        spec_no_later_than(
            spec_derived_eth_activation(OpHardfork::spec_base_sepolia_forks(), None, a),
            spec_derived_eth_activation(OpHardfork::spec_base_sepolia_forks(), None, b),
        ),
{
    lemma_base_sepolia_schedule_monotonic();
    lemma_derived_activation_monotonic(OpHardfork::spec_base_sepolia_forks(), None, a, b);
}

/// An Optimism-stack activation table, answering both rollup-native and
/// base-chain hardfork queries.
///
/// The table holds one entry per rollup hardfork the chain has adopted,
/// always a prefix of the canonical rollup ordering: the entry at position
/// `k` is the rollup hardfork with ordinal `k`.  Base-chain queries are
/// answered by projecting the base-chain name onto a rollup ordinal, see
/// [`spec_derived_eth_activation`].
#[derive(Debug)]
pub struct OpChainHardforks {
    /// Ordered list of OP hardfork activations.
    forks: Vec<(OpHardfork, ForkCondition)>,
    /// A legacy override: the block at which Berlin activated on the
    /// rollup's predecessor chain, where that differs from genesis.
    berlin_override: Option<u64>,
}

impl View for OpChainHardforks {
    type V = Seq<(OpHardfork, ForkCondition)>;

    closed spec fn view(&self) -> Seq<(OpHardfork, ForkCondition)> {
        self.forks@
    }
}

impl OpChainHardforks {
    /// The table is an ordinal prefix: position `k` holds the rollup
    /// hardfork with ordinal `k`.
    #[verifier::type_invariant]
    spec fn wf(self) -> bool {
        forall|k: int| 0 <= k < self.forks@.len() ==> #[trigger] self.forks@[k].0.spec_ordinal()
            == k
    }

    /// The legacy Berlin override block this table was built with.
    pub closed spec fn spec_berlin_override(&self) -> Option<u64> {
        self.berlin_override
    }

    /// Creates a new [`OpChainHardforks`] with the given list of forks,
    /// sorted into the canonical [`OpHardfork`] order, and an optional
    /// legacy Berlin override block.  The list must cover a prefix of the
    /// canonical ordering — the first `k` rollup upgrades, in any order —
    /// with no duplicates.
    pub fn new(forks: Vec<(OpHardfork, ForkCondition)>, berlin_override: Option<u64>) -> (r:
        OpChainHardforks)
        requires
            spec_distinct_forks(forks@),
            forall|k: int|
                0 <= k < forks@.len() ==> #[trigger] forks@[k].0.spec_ordinal() < forks@.len(),
        ensures
            r@.len() == forks@.len(),
            forall|q: (OpHardfork, ForkCondition)| r@.contains(q) <==> forks@.contains(q),
            forall|f: OpHardfork| spec_condition_of(r@, f) == spec_condition_of(forks@, f),
            forall|k: int| 0 <= k < r@.len() ==> #[trigger] r@[k].0.spec_ordinal() == k,
            spec_sorted_strict(forks@) ==> r@ == forks@,
            r.spec_berlin_override() == berlin_override,
    {
        let sorted = sort_forks(forks);
        proof {
            assert forall|k: int|
                0 <= k < sorted@.len() implies 0 <= #[trigger] sorted@[k].0.spec_ordinal()
                < sorted@.len() by {
                assert(sorted@.contains(sorted@[k]));
                let j = choose|j: int| 0 <= j < forks@.len() && forks@[j] == sorted@[k];
                assert(forks@[j].0.spec_ordinal() < forks@.len());
            }
            lemma_sorted_bounded_is_prefix(sorted@);
        }
        OpChainHardforks { forks: sorted, berlin_override }
    }

    /// Creates a new [`OpChainHardforks`] with OP mainnet configuration.
    /// OP mainnet carries the legacy Berlin block of its pre-Bedrock
    /// predecessor chain.
    pub fn op_mainnet() -> (r: OpChainHardforks)
        ensures
            r@ == OpHardfork::spec_op_mainnet_forks(),
            r.spec_berlin_override() == Some(OP_MAINNET_BERLIN_BLOCK),
    {
        proof {
            lemma_adjacent_sorted_is_sorted(OpHardfork::spec_op_mainnet_forks());
        }
        let forks = OpHardfork::op_mainnet();
        proof {
            assert(forks@ =~= OpHardfork::spec_op_mainnet_forks());
        }
        OpChainHardforks::new(forks, Some(OP_MAINNET_BERLIN_BLOCK))
    }

    /// Creates a new [`OpChainHardforks`] with OP Sepolia configuration.
    pub fn op_sepolia() -> (r: OpChainHardforks)
        ensures
            r@ == OpHardfork::spec_op_sepolia_forks(),
            r.spec_berlin_override() is None,
    {
        proof {
            lemma_adjacent_sorted_is_sorted(OpHardfork::spec_op_sepolia_forks());
        }
        OpChainHardforks::new(OpHardfork::op_sepolia(), None)
    }

    /// Creates a new [`OpChainHardforks`] with Base mainnet configuration.
    pub fn base_mainnet() -> (r: OpChainHardforks)
        ensures
            r@ == OpHardfork::spec_base_mainnet_forks(),
            r.spec_berlin_override() is None,
    {
        proof {
            lemma_adjacent_sorted_is_sorted(OpHardfork::spec_base_mainnet_forks());
        }
        OpChainHardforks::new(OpHardfork::base_mainnet(), None)
    }

    /// Creates a new [`OpChainHardforks`] with Base Sepolia configuration.
    pub fn base_sepolia() -> (r: OpChainHardforks)
        ensures
            r@ == OpHardfork::spec_base_sepolia_forks(),
            r.spec_berlin_override() is None,
    {
        proof {
            lemma_adjacent_sorted_is_sorted(OpHardfork::spec_base_sepolia_forks());
        }
        OpChainHardforks::new(OpHardfork::base_sepolia(), None)
    }

    /// Returns `true` if this is an OP mainnet instance, recognized by its
    /// Bedrock activation block.  The table must list at least its
    /// bootstrap fork.
    pub fn is_op_mainnet(&self) -> (r: bool)
        requires
            self@.len() >= 1,
        ensures
            r == (self@[0].1 == ForkCondition::Block(OP_MAINNET_BEDROCK_BLOCK)),
    {
        match self.index(OpHardfork::Bedrock) {
            ForkCondition::Block(b) => b == OP_MAINNET_BEDROCK_BLOCK,
            _ => false,
        }
    }

    /// Returns the condition stored at the ordinal position of a
    /// rollup-native hardfork.  Asking for an ordinal beyond the table is a
    /// programming error — callers check [`OpHardforks::op_fork_activation`]
    /// first — so the bound is demanded up front.
    pub fn index(&self, fork: OpHardfork) -> (r: ForkCondition)
        requires
            fork.spec_ordinal() < self@.len(),
        ensures
            r == self@[fork.spec_ordinal()].1,
    {
        proof {
            use_type_invariant(self);
        }
        self.forks[fork.idx()].1
    }
}

impl EthereumHardforks for OpChainHardforks {
    open spec fn spec_fork_activation(&self, fork: EthereumHardfork) -> ForkCondition {
        spec_derived_eth_activation(self@, self.spec_berlin_override(), fork)
    }

    fn ethereum_fork_activation(&self, fork: EthereumHardfork) -> (r: ForkCondition) {
        proof {
            use_type_invariant(self);
        }
        if self.forks.len() == 0 {
            return ForkCondition::Never;
        }
        match fork {
            EthereumHardfork::Frontier
            | EthereumHardfork::Homestead
            | EthereumHardfork::Dao
            | EthereumHardfork::Tangerine
            | EthereumHardfork::SpuriousDragon
            | EthereumHardfork::Byzantium
            | EthereumHardfork::Constantinople
            | EthereumHardfork::Petersburg
            | EthereumHardfork::Istanbul
            | EthereumHardfork::MuirGlacier => ForkCondition::Block(0),
            EthereumHardfork::Berlin => match self.berlin_override {
                Some(b) => ForkCondition::Block(b),
                None => ForkCondition::Block(0),
            },
            EthereumHardfork::London
            | EthereumHardfork::ArrowGlacier
            | EthereumHardfork::GrayGlacier
            | EthereumHardfork::Paris => self.index(OpHardfork::Bedrock),
            EthereumHardfork::Shanghai => {
                if self.forks.len() <= OpHardfork::Canyon.idx() {
                    ForkCondition::Never
                } else {
                    self.index(OpHardfork::Canyon)
                }
            },
            EthereumHardfork::Cancun => {
                if self.forks.len() <= OpHardfork::Ecotone.idx() {
                    ForkCondition::Never
                } else {
                    self.index(OpHardfork::Ecotone)
                }
            },
            EthereumHardfork::Prague => {
                if self.forks.len() <= OpHardfork::Isthmus.idx() {
                    ForkCondition::Never
                } else {
                    self.index(OpHardfork::Isthmus)
                }
            },
            _ => ForkCondition::Never,
        }
    }
}

impl OpHardforks for OpChainHardforks {
    open spec fn spec_op_fork_activation(&self, fork: OpHardfork) -> ForkCondition {
        if fork.spec_ordinal() < self@.len() {
            self@[fork.spec_ordinal()].1
        } else {
            ForkCondition::Never
        }
    }

    fn op_fork_activation(&self, fork: OpHardfork) -> (r: ForkCondition) {
        if self.forks.len() <= fork.idx() {
            return ForkCondition::Never;
        }
        self.index(fork)
    }
}

} // verus!
