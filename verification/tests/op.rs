//! Tests for the Optimism-stack hardforks and the derived-activation mapper.

use core::str::FromStr;

use hardforks::Chain;
use hardforks::EthereumHardfork;
use hardforks::EthereumHardforks;
use hardforks::ForkCondition;
use hardforks::Hardfork;
use hardforks::OpChainHardforks;
use hardforks::OpHardfork;
use hardforks::OpHardforks;
use hardforks::base::mainnet::{
    BASE_MAINNET_BEDROCK_BLOCK, BASE_MAINNET_CANYON_TIMESTAMP, BASE_MAINNET_ECOTONE_TIMESTAMP,
    BASE_MAINNET_FJORD_TIMESTAMP, BASE_MAINNET_GRANITE_TIMESTAMP, BASE_MAINNET_HOLOCENE_TIMESTAMP,
    BASE_MAINNET_ISTHMUS_TIMESTAMP, BASE_MAINNET_REGOLITH_TIMESTAMP,
};
use hardforks::base::sepolia::{
    BASE_SEPOLIA_BEDROCK_BLOCK, BASE_SEPOLIA_CANYON_TIMESTAMP, BASE_SEPOLIA_ECOTONE_TIMESTAMP,
    BASE_SEPOLIA_FJORD_TIMESTAMP, BASE_SEPOLIA_GRANITE_TIMESTAMP, BASE_SEPOLIA_HOLOCENE_TIMESTAMP,
    BASE_SEPOLIA_ISTHMUS_TIMESTAMP, BASE_SEPOLIA_REGOLITH_TIMESTAMP,
};
use hardforks::optimism::mainnet::{
    OP_MAINNET_BEDROCK_BLOCK, OP_MAINNET_BERLIN_BLOCK, OP_MAINNET_CANYON_TIMESTAMP,
    OP_MAINNET_ECOTONE_TIMESTAMP, OP_MAINNET_FJORD_TIMESTAMP, OP_MAINNET_GRANITE_TIMESTAMP,
    OP_MAINNET_HOLOCENE_TIMESTAMP, OP_MAINNET_ISTHMUS_TIMESTAMP, OP_MAINNET_REGOLITH_TIMESTAMP,
};
use hardforks::optimism::sepolia::{
    OP_SEPOLIA_BEDROCK_BLOCK, OP_SEPOLIA_CANYON_TIMESTAMP, OP_SEPOLIA_ECOTONE_TIMESTAMP,
    OP_SEPOLIA_FJORD_TIMESTAMP, OP_SEPOLIA_GRANITE_TIMESTAMP, OP_SEPOLIA_HOLOCENE_TIMESTAMP,
    OP_SEPOLIA_ISTHMUS_TIMESTAMP, OP_SEPOLIA_REGOLITH_TIMESTAMP,
};

#[test]
fn check_op_hardfork_from_str() {
    let hardfork_str = [
        "beDrOck", "rEgOlITH", "cAnYoN", "eCoToNe", "FJorD", "GRaNiTe", "hOlOcEnE", "isthMUS",
        "inTerOP",
    ];
    let expected_hardforks = [
        OpHardfork::Bedrock,
        OpHardfork::Regolith,
        OpHardfork::Canyon,
        OpHardfork::Ecotone,
        OpHardfork::Fjord,
        OpHardfork::Granite,
        OpHardfork::Holocene,
        OpHardfork::Isthmus,
        OpHardfork::Interop,
    ];

    let hardforks: Vec<OpHardfork> =
        hardfork_str.iter().map(|h| OpHardfork::from_str(h).unwrap()).collect();

    assert_eq!(hardforks, expected_hardforks);
}

#[test]
fn lib_check_nonexistent_hardfork_from_str() {
    assert!(OpHardfork::from_str("not a hardfork").is_err());
}

#[test]
fn op_mainnet_fork_conditions() {
    let op_mainnet_forks = OpChainHardforks::op_mainnet();
    assert_eq!(
        op_mainnet_forks.index(OpHardfork::Bedrock),
        ForkCondition::Block(OP_MAINNET_BEDROCK_BLOCK)
    );
    assert_eq!(
        op_mainnet_forks.index(OpHardfork::Regolith),
        ForkCondition::Timestamp(OP_MAINNET_REGOLITH_TIMESTAMP)
    );
    assert_eq!(
        op_mainnet_forks.index(OpHardfork::Canyon),
        ForkCondition::Timestamp(OP_MAINNET_CANYON_TIMESTAMP)
    );
    assert_eq!(
        op_mainnet_forks.index(OpHardfork::Ecotone),
        ForkCondition::Timestamp(OP_MAINNET_ECOTONE_TIMESTAMP)
    );
    assert_eq!(
        op_mainnet_forks.index(OpHardfork::Fjord),
        ForkCondition::Timestamp(OP_MAINNET_FJORD_TIMESTAMP)
    );
    assert_eq!(
        op_mainnet_forks.index(OpHardfork::Granite),
        ForkCondition::Timestamp(OP_MAINNET_GRANITE_TIMESTAMP)
    );
    assert_eq!(
        op_mainnet_forks.index(OpHardfork::Holocene),
        ForkCondition::Timestamp(OP_MAINNET_HOLOCENE_TIMESTAMP)
    );
    assert_eq!(
        op_mainnet_forks.index(OpHardfork::Isthmus),
        ForkCondition::Timestamp(OP_MAINNET_ISTHMUS_TIMESTAMP)
    );
    assert_eq!(op_mainnet_forks.op_fork_activation(OpHardfork::Interop), ForkCondition::Never);
}

#[test]
fn op_sepolia_fork_conditions() {
    let op_sepolia_forks = OpChainHardforks::op_sepolia();
    assert_eq!(
        op_sepolia_forks.index(OpHardfork::Bedrock),
        ForkCondition::Block(OP_SEPOLIA_BEDROCK_BLOCK)
    );
    assert_eq!(
        op_sepolia_forks.index(OpHardfork::Regolith),
        ForkCondition::Timestamp(OP_SEPOLIA_REGOLITH_TIMESTAMP)
    );
    assert_eq!(
        op_sepolia_forks.index(OpHardfork::Canyon),
        ForkCondition::Timestamp(OP_SEPOLIA_CANYON_TIMESTAMP)
    );
    assert_eq!(
        op_sepolia_forks.index(OpHardfork::Ecotone),
        ForkCondition::Timestamp(OP_SEPOLIA_ECOTONE_TIMESTAMP)
    );
    assert_eq!(
        op_sepolia_forks.index(OpHardfork::Fjord),
        ForkCondition::Timestamp(OP_SEPOLIA_FJORD_TIMESTAMP)
    );
    assert_eq!(
        op_sepolia_forks.index(OpHardfork::Granite),
        ForkCondition::Timestamp(OP_SEPOLIA_GRANITE_TIMESTAMP)
    );
    assert_eq!(
        op_sepolia_forks.index(OpHardfork::Holocene),
        ForkCondition::Timestamp(OP_SEPOLIA_HOLOCENE_TIMESTAMP)
    );
    assert_eq!(
        op_sepolia_forks.index(OpHardfork::Isthmus),
        ForkCondition::Timestamp(OP_SEPOLIA_ISTHMUS_TIMESTAMP)
    );
    assert_eq!(op_sepolia_forks.op_fork_activation(OpHardfork::Interop), ForkCondition::Never);
}

#[test]
fn base_mainnet_fork_conditions() {
    let base_mainnet_forks = OpChainHardforks::base_mainnet();
    assert_eq!(
        base_mainnet_forks.index(OpHardfork::Bedrock),
        ForkCondition::Block(BASE_MAINNET_BEDROCK_BLOCK)
    );
    assert_eq!(
        base_mainnet_forks.index(OpHardfork::Regolith),
        ForkCondition::Timestamp(BASE_MAINNET_REGOLITH_TIMESTAMP)
    );
    assert_eq!(
        base_mainnet_forks.index(OpHardfork::Canyon),
        ForkCondition::Timestamp(BASE_MAINNET_CANYON_TIMESTAMP)
    );
    assert_eq!(
        base_mainnet_forks.index(OpHardfork::Ecotone),
        ForkCondition::Timestamp(BASE_MAINNET_ECOTONE_TIMESTAMP)
    );
    assert_eq!(
        base_mainnet_forks.index(OpHardfork::Fjord),
        ForkCondition::Timestamp(BASE_MAINNET_FJORD_TIMESTAMP)
    );
    assert_eq!(
        base_mainnet_forks.index(OpHardfork::Granite),
        ForkCondition::Timestamp(BASE_MAINNET_GRANITE_TIMESTAMP)
    );
    assert_eq!(
        base_mainnet_forks.index(OpHardfork::Holocene),
        ForkCondition::Timestamp(BASE_MAINNET_HOLOCENE_TIMESTAMP)
    );
    assert_eq!(
        base_mainnet_forks.index(OpHardfork::Isthmus),
        ForkCondition::Timestamp(BASE_MAINNET_ISTHMUS_TIMESTAMP)
    );
    assert_eq!(base_mainnet_forks.op_fork_activation(OpHardfork::Interop), ForkCondition::Never);
}

#[test]
fn base_sepolia_fork_conditions() {
    let base_sepolia_forks = OpChainHardforks::base_sepolia();
    assert_eq!(
        base_sepolia_forks.index(OpHardfork::Bedrock),
        ForkCondition::Block(BASE_SEPOLIA_BEDROCK_BLOCK)
    );
    assert_eq!(
        base_sepolia_forks.index(OpHardfork::Regolith),
        ForkCondition::Timestamp(BASE_SEPOLIA_REGOLITH_TIMESTAMP)
    );
    assert_eq!(
        base_sepolia_forks.index(OpHardfork::Canyon),
        ForkCondition::Timestamp(BASE_SEPOLIA_CANYON_TIMESTAMP)
    );
    assert_eq!(
        base_sepolia_forks.index(OpHardfork::Ecotone),
        ForkCondition::Timestamp(BASE_SEPOLIA_ECOTONE_TIMESTAMP)
    );
    assert_eq!(
        base_sepolia_forks.index(OpHardfork::Fjord),
        ForkCondition::Timestamp(BASE_SEPOLIA_FJORD_TIMESTAMP)
    );
    assert_eq!(
        base_sepolia_forks.index(OpHardfork::Granite),
        ForkCondition::Timestamp(BASE_SEPOLIA_GRANITE_TIMESTAMP)
    );
    assert_eq!(
        base_sepolia_forks.index(OpHardfork::Holocene),
        ForkCondition::Timestamp(BASE_SEPOLIA_HOLOCENE_TIMESTAMP)
    );
    assert_eq!(
        base_sepolia_forks.index(OpHardfork::Isthmus),
        ForkCondition::Timestamp(BASE_SEPOLIA_ISTHMUS_TIMESTAMP)
    );
    assert_eq!(base_sepolia_forks.op_fork_activation(OpHardfork::Interop), ForkCondition::Never);
}

#[test]
fn test_reverse_lookup_op_chains() {
    // Test key hardforks across all OP stack chains
    let test_cases = [
        // (chain_id, timestamp, expected) - focusing on major transitions
        // OP Mainnet
        (Chain::optimism_mainnet(), OP_MAINNET_CANYON_TIMESTAMP, OpHardfork::Canyon),
        (Chain::optimism_mainnet(), OP_MAINNET_ECOTONE_TIMESTAMP, OpHardfork::Ecotone),
        (Chain::optimism_mainnet(), OP_MAINNET_GRANITE_TIMESTAMP, OpHardfork::Granite),
        (Chain::optimism_mainnet(), OP_MAINNET_CANYON_TIMESTAMP - 1, OpHardfork::Regolith),
        (Chain::optimism_mainnet(), OP_MAINNET_ISTHMUS_TIMESTAMP + 1000, OpHardfork::Isthmus),
        // OP Sepolia
        (Chain::optimism_sepolia(), OP_SEPOLIA_CANYON_TIMESTAMP, OpHardfork::Canyon),
        (Chain::optimism_sepolia(), OP_SEPOLIA_ECOTONE_TIMESTAMP, OpHardfork::Ecotone),
        (Chain::optimism_sepolia(), OP_SEPOLIA_CANYON_TIMESTAMP - 1, OpHardfork::Regolith),
        // Base Mainnet
        (Chain::base_mainnet(), BASE_MAINNET_CANYON_TIMESTAMP, OpHardfork::Canyon),
        (Chain::base_mainnet(), BASE_MAINNET_ECOTONE_TIMESTAMP, OpHardfork::Ecotone),
        // Base Sepolia
        (Chain::base_sepolia(), BASE_SEPOLIA_CANYON_TIMESTAMP, OpHardfork::Canyon),
        (Chain::base_sepolia(), BASE_SEPOLIA_ECOTONE_TIMESTAMP, OpHardfork::Ecotone),
    ];

    for (chain_id, timestamp, expected) in test_cases {
        assert_eq!(
            OpHardfork::from_chain_and_timestamp(chain_id, timestamp),
            Some(expected),
            "chain {chain_id:?} at timestamp {timestamp}"
        );
    }

    // Edge cases
    assert_eq!(OpHardfork::from_chain_and_timestamp(Chain::from_id(999999), 1000000), None);
}

#[test]
fn short_rollup_table_derives_never_past_its_entries() {
    // A rollup that has adopted only its first three upgrades.
    let table = OpChainHardforks::new(
        vec![
            (OpHardfork::Bedrock, ForkCondition::Block(11)),
            (OpHardfork::Regolith, ForkCondition::Timestamp(22)),
            (OpHardfork::Canyon, ForkCondition::Timestamp(33)),
        ],
        None,
    );
    // A base-chain fork mapping to an ordinal past the table is unadopted.
    assert_eq!(
        table.ethereum_fork_activation(EthereumHardfork::Cancun),
        ForkCondition::Never
    );
    assert_eq!(
        table.ethereum_fork_activation(EthereumHardfork::Prague),
        ForkCondition::Never
    );
    assert_eq!(table.op_fork_activation(OpHardfork::Granite), ForkCondition::Never);
    // One mapping to a held ordinal returns that entry's condition.
    assert_eq!(
        table.ethereum_fork_activation(EthereumHardfork::Shanghai),
        ForkCondition::Timestamp(33)
    );
    assert_eq!(table.op_fork_activation(OpHardfork::Regolith), ForkCondition::Timestamp(22));
    assert_eq!(
        table.ethereum_fork_activation(EthereumHardfork::London),
        ForkCondition::Block(11)
    );
}

#[test]
fn empty_rollup_table_derives_never_everywhere() {
    let table = OpChainHardforks::new(vec![], None);
    assert_eq!(
        table.ethereum_fork_activation(EthereumHardfork::Frontier),
        ForkCondition::Never
    );
    assert_eq!(
        table.ethereum_fork_activation(EthereumHardfork::Prague),
        ForkCondition::Never
    );
    assert_eq!(table.op_fork_activation(OpHardfork::Bedrock), ForkCondition::Never);
}

#[test]
fn op_mainnet_derives_base_chain_conditions() {
    let table = OpChainHardforks::op_mainnet();
    assert!(table.is_op_mainnet());
    // Pre-rollup base-chain forks are active from genesis.
    assert_eq!(
        table.ethereum_fork_activation(EthereumHardfork::Istanbul),
        ForkCondition::Block(0)
    );
    // Berlin carries the legacy override from the predecessor chain.
    assert_eq!(
        table.ethereum_fork_activation(EthereumHardfork::Berlin),
        ForkCondition::Block(OP_MAINNET_BERLIN_BLOCK)
    );
    // London through Paris map to the bootstrap fork.
    assert_eq!(
        table.ethereum_fork_activation(EthereumHardfork::London),
        ForkCondition::Block(OP_MAINNET_BEDROCK_BLOCK)
    );
    assert_eq!(
        table.ethereum_fork_activation(EthereumHardfork::Paris),
        ForkCondition::Block(OP_MAINNET_BEDROCK_BLOCK)
    );
    // Shanghai, Cancun and Prague map to their rollup equivalents.
    assert_eq!(
        table.ethereum_fork_activation(EthereumHardfork::Shanghai),
        ForkCondition::Timestamp(OP_MAINNET_CANYON_TIMESTAMP)
    );
    assert_eq!(
        table.ethereum_fork_activation(EthereumHardfork::Cancun),
        ForkCondition::Timestamp(OP_MAINNET_ECOTONE_TIMESTAMP)
    );
    assert_eq!(
        table.ethereum_fork_activation(EthereumHardfork::Prague),
        ForkCondition::Timestamp(OP_MAINNET_ISTHMUS_TIMESTAMP)
    );
    // Base-chain forks past the range table are unmodeled.
    assert_eq!(
        table.ethereum_fork_activation(EthereumHardfork::Osaka),
        ForkCondition::Never
    );
    assert_eq!(
        table.ethereum_fork_activation(EthereumHardfork::Bpo1),
        ForkCondition::Never
    );
}

#[test]
fn base_mainnet_has_no_berlin_override() {
    let table = OpChainHardforks::base_mainnet();
    assert!(!table.is_op_mainnet());
    assert_eq!(
        table.ethereum_fork_activation(EthereumHardfork::Berlin),
        ForkCondition::Block(0)
    );
}

#[test]
fn op_convenience_predicates_follow_conditions() {
    let table = OpChainHardforks::op_mainnet();
    assert!(table.is_bedrock_active_at_block(OP_MAINNET_BEDROCK_BLOCK));
    assert!(!table.is_bedrock_active_at_block(OP_MAINNET_BEDROCK_BLOCK - 1));
    assert!(table.is_canyon_active_at_timestamp(OP_MAINNET_CANYON_TIMESTAMP));
    assert!(!table.is_canyon_active_at_timestamp(OP_MAINNET_CANYON_TIMESTAMP - 1));
    assert!(table.is_isthmus_active_at_timestamp(OP_MAINNET_ISTHMUS_TIMESTAMP));
    assert!(!table.is_interop_active_at_timestamp(u64::MAX));
    assert!(table.is_shanghai_active_at_timestamp(OP_MAINNET_CANYON_TIMESTAMP));
}

#[test]
fn op_hardfork_ordinals_are_canonical() {
    assert_eq!(OpHardfork::Bedrock.idx(), 0);
    assert_eq!(OpHardfork::Canyon.idx(), 2);
    assert_eq!(OpHardfork::Interop.idx(), 8);
    assert_eq!(OpHardfork::Bedrock.name(), "Bedrock");
    assert_eq!(OpHardfork::Isthmus.name(), "Isthmus");
}
