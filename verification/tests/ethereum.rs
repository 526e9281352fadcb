//! Tests for the Ethereum hardfork enumeration and its schedules.

use core::str::FromStr;

use hardforks::Chain;
use hardforks::EthereumChainHardforks;
use hardforks::EthereumHardfork;
use hardforks::EthereumHardforks;
use hardforks::ForkCondition;
use hardforks::Hardfork;
use hardforks::arbitrum::mainnet::{
    ARBITRUM_ONE_CANCUN_TIMESTAMP, ARBITRUM_ONE_PARIS_TIMESTAMP, ARBITRUM_ONE_PRAGUE_TIMESTAMP,
    ARBITRUM_ONE_SHANGHAI_TIMESTAMP,
};
use hardforks::arbitrum::sepolia::{
    ARBITRUM_SEPOLIA_CANCUN_TIMESTAMP, ARBITRUM_SEPOLIA_PARIS_TIMESTAMP,
    ARBITRUM_SEPOLIA_PRAGUE_TIMESTAMP, ARBITRUM_SEPOLIA_SHANGHAI_TIMESTAMP,
};
use hardforks::ethereum::holesky::{
    HOLESKY_CANCUN_TIMESTAMP, HOLESKY_OSAKA_TIMESTAMP, HOLESKY_PARIS_TIMESTAMP,
    HOLESKY_PRAGUE_TIMESTAMP, HOLESKY_SHANGHAI_TIMESTAMP,
};
use hardforks::ethereum::hoodi::{HOODI_OSAKA_TIMESTAMP, HOODI_PRAGUE_TIMESTAMP};
use hardforks::ethereum::mainnet::{
    MAINNET_ARROW_GLACIER_TIMESTAMP, MAINNET_BERLIN_TIMESTAMP, MAINNET_BYZANTIUM_TIMESTAMP,
    MAINNET_CANCUN_BLOCK, MAINNET_CANCUN_TIMESTAMP, MAINNET_DAO_TIMESTAMP,
    MAINNET_FRONTIER_TIMESTAMP, MAINNET_GRAY_GLACIER_TIMESTAMP, MAINNET_HOMESTEAD_BLOCK,
    MAINNET_HOMESTEAD_TIMESTAMP, MAINNET_ISTANBUL_TIMESTAMP, MAINNET_LONDON_BLOCK,
    MAINNET_LONDON_TIMESTAMP, MAINNET_MUIR_GLACIER_TIMESTAMP, MAINNET_PARIS_BLOCK,
    MAINNET_PARIS_TIMESTAMP, MAINNET_PARIS_TTD, MAINNET_PETERSBURG_TIMESTAMP,
    MAINNET_PRAGUE_BLOCK, MAINNET_PRAGUE_TIMESTAMP, MAINNET_SHANGHAI_BLOCK,
    MAINNET_SHANGHAI_TIMESTAMP,
    MAINNET_SPURIOUS_DRAGON_TIMESTAMP, MAINNET_TANGERINE_TIMESTAMP,
};
use hardforks::ethereum::sepolia::{
    SEPOLIA_CANCUN_TIMESTAMP, SEPOLIA_OSAKA_TIMESTAMP, SEPOLIA_PARIS_TIMESTAMP,
    SEPOLIA_PRAGUE_TIMESTAMP, SEPOLIA_SHANGHAI_TIMESTAMP,
};

#[test]
fn check_hardfork_from_str() {
    let hardfork_str = [
        "frOntier",
        "homEstead",
        "dao",
        "tAngerIne",
        "spurIousdrAgon",
        "byzAntium",
        "constantinople",
        "petersburg",
        "istanbul",
        "muirglacier",
        "bErlin",
        "lonDon",
        "arrowglacier",
        "grayglacier",
        "PARIS",
        "ShAnGhAI",
        "CaNcUn",
        "PrAguE",
        "OsAkA",
        "Bpo1",
        "BPO2",
        "bpo3",
        "bPo4",
        "bpO5",
    ];
    let expected_hardforks = [
        EthereumHardfork::Frontier,
        EthereumHardfork::Homestead,
        EthereumHardfork::Dao,
        EthereumHardfork::Tangerine,
        EthereumHardfork::SpuriousDragon,
        EthereumHardfork::Byzantium,
        EthereumHardfork::Constantinople,
        EthereumHardfork::Petersburg,
        EthereumHardfork::Istanbul,
        EthereumHardfork::MuirGlacier,
        EthereumHardfork::Berlin,
        EthereumHardfork::London,
        EthereumHardfork::ArrowGlacier,
        EthereumHardfork::GrayGlacier,
        EthereumHardfork::Paris,
        EthereumHardfork::Shanghai,
        EthereumHardfork::Cancun,
        EthereumHardfork::Prague,
        EthereumHardfork::Osaka,
        EthereumHardfork::Bpo1,
        EthereumHardfork::Bpo2,
        EthereumHardfork::Bpo3,
        EthereumHardfork::Bpo4,
        EthereumHardfork::Bpo5,
    ];

    let hardforks: Vec<EthereumHardfork> =
        hardfork_str.iter().map(|h| EthereumHardfork::from_str(h).unwrap()).collect();

    assert_eq!(hardforks, expected_hardforks);
}

#[test]
fn ethereum_check_nonexistent_hardfork_from_str() {
    assert!(EthereumHardfork::from_str("not a hardfork").is_err());
}

#[test]
fn parse_error_carries_offending_text() {
    let err = EthereumHardfork::from_name("not a hardfork").unwrap_err();
    assert_eq!(err.message(), "Unknown hardfork: not a hardfork");
}

#[test]
fn hardfork_names_round_trip() {
    assert_eq!(EthereumHardfork::Frontier.name(), "Frontier");
    assert_eq!(EthereumHardfork::SpuriousDragon.name(), "SpuriousDragon");
    assert_eq!(EthereumHardfork::Amsterdam.name(), "Amsterdam");
    let parsed = EthereumHardfork::from_name(EthereumHardfork::GrayGlacier.name()).unwrap();
    assert_eq!(parsed, EthereumHardfork::GrayGlacier);
}

#[test]
fn test_reverse_lookup_by_chain_id() {
    // Test major hardforks across all supported Ethereum chains
    let test_cases = [
        // (chain_id, timestamp, expected) - Key transitions for each chain
        // Mainnet
        // At block 0: Frontier
        (Chain::mainnet(), MAINNET_FRONTIER_TIMESTAMP - 1, EthereumHardfork::Frontier),
        (Chain::mainnet(), MAINNET_FRONTIER_TIMESTAMP, EthereumHardfork::Frontier),
        (Chain::mainnet(), MAINNET_HOMESTEAD_TIMESTAMP, EthereumHardfork::Homestead),
        (Chain::mainnet(), MAINNET_DAO_TIMESTAMP, EthereumHardfork::Dao),
        (Chain::mainnet(), MAINNET_TANGERINE_TIMESTAMP, EthereumHardfork::Tangerine),
        (Chain::mainnet(), MAINNET_SPURIOUS_DRAGON_TIMESTAMP, EthereumHardfork::SpuriousDragon),
        (Chain::mainnet(), MAINNET_BYZANTIUM_TIMESTAMP, EthereumHardfork::Byzantium),
        (Chain::mainnet(), MAINNET_PETERSBURG_TIMESTAMP, EthereumHardfork::Petersburg),
        (Chain::mainnet(), MAINNET_ISTANBUL_TIMESTAMP, EthereumHardfork::Istanbul),
        (Chain::mainnet(), MAINNET_MUIR_GLACIER_TIMESTAMP, EthereumHardfork::MuirGlacier),
        (Chain::mainnet(), MAINNET_BERLIN_TIMESTAMP, EthereumHardfork::Berlin),
        (Chain::mainnet(), MAINNET_LONDON_TIMESTAMP, EthereumHardfork::London),
        (Chain::mainnet(), MAINNET_ARROW_GLACIER_TIMESTAMP, EthereumHardfork::ArrowGlacier),
        (Chain::mainnet(), MAINNET_GRAY_GLACIER_TIMESTAMP, EthereumHardfork::GrayGlacier),
        (Chain::mainnet(), MAINNET_PARIS_TIMESTAMP, EthereumHardfork::Paris),
        (Chain::mainnet(), MAINNET_SHANGHAI_TIMESTAMP, EthereumHardfork::Shanghai),
        (Chain::mainnet(), MAINNET_CANCUN_TIMESTAMP, EthereumHardfork::Cancun),
        (Chain::mainnet(), MAINNET_PRAGUE_TIMESTAMP, EthereumHardfork::Prague),
        // Sepolia
        // At block 0: London
        (Chain::sepolia(), SEPOLIA_PARIS_TIMESTAMP - 1, EthereumHardfork::London),
        (Chain::sepolia(), SEPOLIA_PARIS_TIMESTAMP, EthereumHardfork::Paris),
        (Chain::sepolia(), SEPOLIA_SHANGHAI_TIMESTAMP - 1, EthereumHardfork::Paris),
        (Chain::sepolia(), SEPOLIA_SHANGHAI_TIMESTAMP, EthereumHardfork::Shanghai),
        (Chain::sepolia(), SEPOLIA_CANCUN_TIMESTAMP, EthereumHardfork::Cancun),
        (Chain::sepolia(), SEPOLIA_PRAGUE_TIMESTAMP - 1, EthereumHardfork::Cancun),
        (Chain::sepolia(), SEPOLIA_PRAGUE_TIMESTAMP + 1, EthereumHardfork::Prague),
        (Chain::sepolia(), SEPOLIA_OSAKA_TIMESTAMP, EthereumHardfork::Osaka),
        // Holesky
        // At block 0: Paris
        (Chain::holesky(), HOLESKY_PARIS_TIMESTAMP - 1, EthereumHardfork::Paris),
        (Chain::holesky(), HOLESKY_PARIS_TIMESTAMP, EthereumHardfork::Paris),
        (Chain::holesky(), HOLESKY_SHANGHAI_TIMESTAMP - 1, EthereumHardfork::Paris),
        (Chain::holesky(), HOLESKY_SHANGHAI_TIMESTAMP, EthereumHardfork::Shanghai),
        (Chain::holesky(), HOLESKY_CANCUN_TIMESTAMP, EthereumHardfork::Cancun),
        (Chain::holesky(), HOLESKY_PRAGUE_TIMESTAMP - 1, EthereumHardfork::Cancun),
        (Chain::holesky(), HOLESKY_PRAGUE_TIMESTAMP + 1, EthereumHardfork::Prague),
        (Chain::holesky(), HOLESKY_OSAKA_TIMESTAMP, EthereumHardfork::Osaka),
        // Hoodi
        // At block 0: Cancun
        (Chain::hoodi(), HOODI_PRAGUE_TIMESTAMP - 1, EthereumHardfork::Cancun),
        (Chain::hoodi(), HOODI_PRAGUE_TIMESTAMP, EthereumHardfork::Prague),
        (Chain::hoodi(), HOODI_OSAKA_TIMESTAMP, EthereumHardfork::Osaka),
        // Arbitrum One
        // At block 0: Paris
        (Chain::arbitrum_mainnet(), ARBITRUM_ONE_PARIS_TIMESTAMP - 1, EthereumHardfork::Paris),
        (Chain::arbitrum_mainnet(), ARBITRUM_ONE_PARIS_TIMESTAMP, EthereumHardfork::Paris),
        (Chain::arbitrum_mainnet(), ARBITRUM_ONE_SHANGHAI_TIMESTAMP - 1, EthereumHardfork::Paris),
        (Chain::arbitrum_mainnet(), ARBITRUM_ONE_SHANGHAI_TIMESTAMP, EthereumHardfork::Shanghai),
        (Chain::arbitrum_mainnet(), ARBITRUM_ONE_CANCUN_TIMESTAMP, EthereumHardfork::Cancun),
        (Chain::arbitrum_mainnet(), ARBITRUM_ONE_PRAGUE_TIMESTAMP - 1, EthereumHardfork::Cancun),
        (Chain::arbitrum_mainnet(), ARBITRUM_ONE_PRAGUE_TIMESTAMP + 1, EthereumHardfork::Prague),
        // Arbitrum Sepolia
        // At block 0: Paris
        (
            Chain::arbitrum_sepolia(),
            ARBITRUM_SEPOLIA_PARIS_TIMESTAMP - 1,
            EthereumHardfork::Paris,
        ),
        (Chain::arbitrum_sepolia(), ARBITRUM_SEPOLIA_PARIS_TIMESTAMP, EthereumHardfork::Paris),
        (
            Chain::arbitrum_sepolia(),
            ARBITRUM_SEPOLIA_SHANGHAI_TIMESTAMP - 1,
            EthereumHardfork::Paris,
        ),
        (
            Chain::arbitrum_sepolia(),
            ARBITRUM_SEPOLIA_SHANGHAI_TIMESTAMP,
            EthereumHardfork::Shanghai,
        ),
        (Chain::arbitrum_sepolia(), ARBITRUM_SEPOLIA_CANCUN_TIMESTAMP, EthereumHardfork::Cancun),
        (
            Chain::arbitrum_sepolia(),
            ARBITRUM_SEPOLIA_PRAGUE_TIMESTAMP - 1,
            EthereumHardfork::Cancun,
        ),
        (
            Chain::arbitrum_sepolia(),
            ARBITRUM_SEPOLIA_PRAGUE_TIMESTAMP + 1,
            EthereumHardfork::Prague,
        ),
    ];

    for (chain_id, timestamp, expected) in test_cases {
        assert_eq!(
            EthereumHardfork::from_chain_and_timestamp(chain_id, timestamp),
            Some(expected),
            "chain {chain_id:?} at timestamp {timestamp}"
        );
    }

    // Edge cases
    assert_eq!(EthereumHardfork::from_chain_and_timestamp(Chain::from_id(99999), 1000000), None);
}

#[test]
fn test_timestamp_functions_consistency() {
    let test_cases = [
        (MAINNET_LONDON_TIMESTAMP, EthereumHardfork::London),
        (MAINNET_SHANGHAI_TIMESTAMP, EthereumHardfork::Shanghai),
        (MAINNET_CANCUN_TIMESTAMP, EthereumHardfork::Cancun),
    ];

    for (timestamp, fork) in test_cases {
        assert_eq!(
            EthereumHardfork::from_chain_and_timestamp(Chain::mainnet(), timestamp),
            Some(fork)
        );
        assert_eq!(fork.activation_timestamp(Chain::mainnet()), Some(timestamp));
    }
}

#[test]
fn far_future_timestamp_resolves_to_newest_fork() {
    assert_eq!(
        EthereumHardfork::from_chain_and_timestamp(Chain::mainnet(), u64::MAX),
        Some(EthereumHardfork::Prague)
    );
    assert_eq!(
        EthereumHardfork::from_chain_and_timestamp(Chain::sepolia(), u64::MAX),
        Some(EthereumHardfork::Osaka)
    );
    assert_eq!(
        EthereumHardfork::from_chain_and_timestamp(Chain::arbitrum_mainnet(), u64::MAX),
        Some(EthereumHardfork::Prague)
    );
}

#[test]
fn unknown_chain_yields_none_at_any_timestamp() {
    for timestamp in [0u64, 1, 1_600_000_000, u64::MAX] {
        assert_eq!(EthereumHardfork::from_chain_and_timestamp(Chain::from_id(2), timestamp), None);
        assert_eq!(
            EthereumHardfork::from_chain_and_timestamp(Chain::from_id(99999), timestamp),
            None
        );
    }
    assert_eq!(EthereumHardfork::Shanghai.activation_block(Chain::from_id(99999)), None);
    assert_eq!(EthereumHardfork::Shanghai.activation_timestamp(Chain::from_id(99999)), None);
}

#[test]
fn timestamp_boundary_is_inclusive_going_forward() {
    let t = 1_700_000_000u64;
    let cond = ForkCondition::Timestamp(t);
    assert!(cond.active_at_timestamp(t));
    assert!(!cond.active_at_timestamp(t - 1));
    assert!(cond.active_at_timestamp(t + 1));
}

#[test]
fn ttd_condition_falls_back_to_block_numbers() {
    let with_fork_block = ForkCondition::TTD {
        activation_block_number: 100,
        fork_block: Some(90),
        total_difficulty: 1_000_000,
    };
    assert!(with_fork_block.active_at_block(90));
    assert!(with_fork_block.active_at_block(91));
    assert!(!with_fork_block.active_at_block(89));

    let without_fork_block = ForkCondition::TTD {
        activation_block_number: 100,
        fork_block: None,
        total_difficulty: 1_000_000,
    };
    assert!(without_fork_block.active_at_block(100));
    assert!(!without_fork_block.active_at_block(99));
}

#[test]
fn timestamp_conditions_are_never_block_active_and_vice_versa() {
    assert!(!ForkCondition::Timestamp(0).active_at_block(u64::MAX));
    assert!(!ForkCondition::Block(0).active_at_timestamp(u64::MAX));
    assert!(!ForkCondition::Never.active_at_block(u64::MAX));
    assert!(!ForkCondition::Never.active_at_timestamp(u64::MAX));
    let ttd = ForkCondition::TTD {
        activation_block_number: 0,
        fork_block: None,
        total_difficulty: 0,
    };
    assert!(!ttd.active_at_timestamp(u64::MAX));
}

#[test]
fn table_round_trips_its_backing_list() {
    let list = vec![
        (EthereumHardfork::Cancun, ForkCondition::Timestamp(MAINNET_CANCUN_TIMESTAMP)),
        (EthereumHardfork::Frontier, ForkCondition::Block(0)),
        (EthereumHardfork::London, ForkCondition::Block(MAINNET_LONDON_BLOCK)),
    ];
    let table = EthereumChainHardforks::new(list.clone());
    for (fork, condition) in list {
        assert_eq!(table.ethereum_fork_activation(fork), condition);
    }
    // A hardfork absent from the backing list is never scheduled.
    assert_eq!(
        table.ethereum_fork_activation(EthereumHardfork::Berlin),
        ForkCondition::Never
    );
    assert_eq!(
        table.ethereum_fork_activation(EthereumHardfork::Osaka),
        ForkCondition::Never
    );
}

#[test]
fn mainnet_table_matches_getters() {
    let table = EthereumChainHardforks::mainnet();
    assert_eq!(
        table.ethereum_fork_activation(EthereumHardfork::Homestead),
        ForkCondition::Block(MAINNET_HOMESTEAD_BLOCK)
    );
    assert_eq!(
        table.ethereum_fork_activation(EthereumHardfork::Paris),
        ForkCondition::TTD {
            activation_block_number: MAINNET_PARIS_BLOCK,
            fork_block: None,
            total_difficulty: MAINNET_PARIS_TTD,
        }
    );
    assert_eq!(
        table.ethereum_fork_activation(EthereumHardfork::Shanghai),
        ForkCondition::Timestamp(MAINNET_SHANGHAI_TIMESTAMP)
    );
    assert_eq!(
        table.ethereum_fork_activation(EthereumHardfork::Bpo5),
        ForkCondition::Never
    );
    assert!(table.is_shanghai_active_at_timestamp(MAINNET_SHANGHAI_TIMESTAMP));
    assert!(!table.is_shanghai_active_at_timestamp(MAINNET_SHANGHAI_TIMESTAMP - 1));
    assert!(table.is_london_active_at_block(MAINNET_LONDON_BLOCK));
    assert!(!table.is_london_active_at_block(MAINNET_LONDON_BLOCK - 1));
    assert!(table.is_paris_active_at_block(MAINNET_PARIS_BLOCK));
}

#[test]
fn from_mainnet_block_number_picks_governing_fork() {
    assert_eq!(EthereumHardfork::from_mainnet_block_number(0), EthereumHardfork::Frontier);
    assert_eq!(
        EthereumHardfork::from_mainnet_block_number(MAINNET_HOMESTEAD_BLOCK),
        EthereumHardfork::Homestead
    );
    assert_eq!(
        EthereumHardfork::from_mainnet_block_number(MAINNET_HOMESTEAD_BLOCK - 1),
        EthereumHardfork::Frontier
    );
    assert_eq!(
        EthereumHardfork::from_mainnet_block_number(MAINNET_SHANGHAI_BLOCK),
        EthereumHardfork::Shanghai
    );
    assert_eq!(
        EthereumHardfork::from_mainnet_block_number(MAINNET_CANCUN_BLOCK - 1),
        EthereumHardfork::Shanghai
    );
    assert_eq!(
        EthereumHardfork::from_mainnet_block_number(MAINNET_PRAGUE_BLOCK),
        EthereumHardfork::Prague
    );
    assert_eq!(
        EthereumHardfork::from_mainnet_block_number(u64::MAX),
        EthereumHardfork::Prague
    );
}

#[test]
fn canonical_ordering_is_by_ordinal() {
    assert_eq!(EthereumHardfork::Frontier.idx(), 0);
    assert_eq!(EthereumHardfork::Paris.idx(), 14);
    assert_eq!(EthereumHardfork::Amsterdam.idx(), 24);
    assert!(EthereumHardfork::Berlin.idx() < EthereumHardfork::London.idx());
}
