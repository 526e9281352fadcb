//! The Ethereum hardfork enumeration and its per-chain activation schedules.

use vstd::prelude::*;
use vstd::string::StringExecFns;

use crate::arbitrum::mainnet::{
    ARBITRUM_ONE_CANCUN_BLOCK, ARBITRUM_ONE_CANCUN_TIMESTAMP, ARBITRUM_ONE_PARIS_TIMESTAMP,
    ARBITRUM_ONE_PRAGUE_BLOCK, ARBITRUM_ONE_PRAGUE_TIMESTAMP, ARBITRUM_ONE_SHANGHAI_BLOCK,
    ARBITRUM_ONE_SHANGHAI_TIMESTAMP,
};
use crate::arbitrum::sepolia::{
    ARBITRUM_SEPOLIA_CANCUN_BLOCK, ARBITRUM_SEPOLIA_CANCUN_TIMESTAMP,
    ARBITRUM_SEPOLIA_PARIS_TIMESTAMP, ARBITRUM_SEPOLIA_PRAGUE_BLOCK,
    ARBITRUM_SEPOLIA_PRAGUE_TIMESTAMP, ARBITRUM_SEPOLIA_SHANGHAI_BLOCK,
    ARBITRUM_SEPOLIA_SHANGHAI_TIMESTAMP,
};
use crate::chain::{
    ARBITRUM_ONE_CHAIN_ID, ARBITRUM_SEPOLIA_CHAIN_ID, Chain, HOLESKY_CHAIN_ID, HOODI_CHAIN_ID,
    MAINNET_CHAIN_ID, SEPOLIA_CHAIN_ID,
};
use crate::condition::{ForkCondition, spec_active_at_block, spec_active_at_timestamp};
use crate::error::ParseHardforkError;
use crate::table::{
    lemma_adjacent_sorted_is_sorted, lookup_condition, sort_forks, spec_condition_of,
    spec_conditions_monotonic, spec_distinct_forks, spec_sorted_strict,
};
use crate::ethereum::holesky::{
    HOLESKY_BPO1_TIMESTAMP, HOLESKY_BPO2_TIMESTAMP, HOLESKY_CANCUN_BLOCK,
    HOLESKY_CANCUN_TIMESTAMP, HOLESKY_OSAKA_TIMESTAMP, HOLESKY_PARIS_TIMESTAMP,
    HOLESKY_PRAGUE_BLOCK, HOLESKY_PRAGUE_TIMESTAMP, HOLESKY_SHANGHAI_BLOCK,
    HOLESKY_SHANGHAI_TIMESTAMP,
};
use crate::ethereum::hoodi::{
    HOODI_BPO1_TIMESTAMP, HOODI_BPO2_TIMESTAMP, HOODI_OSAKA_TIMESTAMP, HOODI_PRAGUE_BLOCK,
    HOODI_PRAGUE_TIMESTAMP,
};
use crate::ethereum::mainnet::{
    MAINNET_ARROW_GLACIER_BLOCK, MAINNET_ARROW_GLACIER_TIMESTAMP, MAINNET_BERLIN_BLOCK,
    MAINNET_BERLIN_TIMESTAMP, MAINNET_BYZANTIUM_BLOCK, MAINNET_BYZANTIUM_TIMESTAMP,
    MAINNET_CANCUN_BLOCK, MAINNET_CANCUN_TIMESTAMP, MAINNET_CONSTANTINOPLE_BLOCK,
    MAINNET_CONSTANTINOPLE_TIMESTAMP, MAINNET_DAO_BLOCK, MAINNET_DAO_TIMESTAMP,
    MAINNET_FRONTIER_BLOCK, MAINNET_FRONTIER_TIMESTAMP, MAINNET_GRAY_GLACIER_BLOCK,
    MAINNET_GRAY_GLACIER_TIMESTAMP, MAINNET_HOMESTEAD_BLOCK, MAINNET_HOMESTEAD_TIMESTAMP,
    MAINNET_ISTANBUL_BLOCK, MAINNET_ISTANBUL_TIMESTAMP, MAINNET_LONDON_BLOCK,
    MAINNET_LONDON_TIMESTAMP, MAINNET_MUIR_GLACIER_BLOCK, MAINNET_MUIR_GLACIER_TIMESTAMP,
    MAINNET_PARIS_BLOCK, MAINNET_PARIS_TIMESTAMP, MAINNET_PARIS_TTD, MAINNET_PETERSBURG_BLOCK,
    MAINNET_PETERSBURG_TIMESTAMP, MAINNET_PRAGUE_BLOCK, MAINNET_PRAGUE_TIMESTAMP,
    MAINNET_SHANGHAI_BLOCK, MAINNET_SHANGHAI_TIMESTAMP, MAINNET_SPURIOUS_DRAGON_BLOCK,
    MAINNET_SPURIOUS_DRAGON_TIMESTAMP, MAINNET_TANGERINE_BLOCK, MAINNET_TANGERINE_TIMESTAMP,
};
use crate::ethereum::sepolia::{
    SEPOLIA_BPO1_TIMESTAMP, SEPOLIA_BPO2_TIMESTAMP, SEPOLIA_CANCUN_BLOCK,
    SEPOLIA_CANCUN_TIMESTAMP, SEPOLIA_OSAKA_TIMESTAMP, SEPOLIA_PARIS_BLOCK,
    SEPOLIA_PARIS_FORK_BLOCK, SEPOLIA_PARIS_TIMESTAMP, SEPOLIA_PARIS_TTD, SEPOLIA_PRAGUE_BLOCK,
    SEPOLIA_PRAGUE_TIMESTAMP, SEPOLIA_SHANGHAI_BLOCK, SEPOLIA_SHANGHAI_TIMESTAMP,
};
use crate::hardfork::Hardfork;
use crate::names::eq_name_ci;
use crate::names::spec_str_eq_ci;

verus! {

/// The name of an Ethereum hardfork, in canonical historical order.
#[derive(Debug, Copy, Clone, Eq, PartialEq, Structural, Hash, Default)]
pub enum EthereumHardfork {
    /// Frontier.
    Frontier,
    /// Homestead.
    Homestead,
    /// The DAO fork.
    Dao,
    /// Tangerine.
    Tangerine,
    /// Spurious Dragon.
    SpuriousDragon,
    /// Byzantium.
    Byzantium,
    /// Constantinople.
    Constantinople,
    /// Petersburg.
    Petersburg,
    /// Istanbul.
    Istanbul,
    /// Muir Glacier.
    MuirGlacier,
    /// Berlin.
    Berlin,
    /// London.
    London,
    /// Arrow Glacier.
    ArrowGlacier,
    /// Gray Glacier.
    GrayGlacier,
    /// Paris.
    Paris,
    /// Shanghai.
    Shanghai,
    /// Cancun.
    Cancun,
    /// Prague.
    #[default]
    Prague,
    /// Osaka.
    Osaka,
    /// BPO 1.
    Bpo1,
    /// BPO 2.
    Bpo2,
    /// BPO 3.
    Bpo3,
    /// BPO 4.
    Bpo4,
    /// BPO 5.
    Bpo5,
    /// Amsterdam.
    Amsterdam,
}

impl Hardfork for EthereumHardfork {
    open spec fn spec_ordinal(&self) -> int {
        match self {
            EthereumHardfork::Frontier => 0,
            EthereumHardfork::Homestead => 1,
            EthereumHardfork::Dao => 2,
            EthereumHardfork::Tangerine => 3,
            EthereumHardfork::SpuriousDragon => 4,
            EthereumHardfork::Byzantium => 5,
            EthereumHardfork::Constantinople => 6,
            EthereumHardfork::Petersburg => 7,
            EthereumHardfork::Istanbul => 8,
            EthereumHardfork::MuirGlacier => 9,
            EthereumHardfork::Berlin => 10,
            EthereumHardfork::London => 11,
            EthereumHardfork::ArrowGlacier => 12,
            EthereumHardfork::GrayGlacier => 13,
            EthereumHardfork::Paris => 14,
            EthereumHardfork::Shanghai => 15,
            EthereumHardfork::Cancun => 16,
            EthereumHardfork::Prague => 17,
            EthereumHardfork::Osaka => 18,
            EthereumHardfork::Bpo1 => 19,
            EthereumHardfork::Bpo2 => 20,
            EthereumHardfork::Bpo3 => 21,
            EthereumHardfork::Bpo4 => 22,
            EthereumHardfork::Bpo5 => 23,
            EthereumHardfork::Amsterdam => 24,
        }
    }

    open spec fn spec_name(&self) -> Seq<char> {
        match self {
            EthereumHardfork::Frontier => "Frontier"@,
            EthereumHardfork::Homestead => "Homestead"@,
            EthereumHardfork::Dao => "Dao"@,
            EthereumHardfork::Tangerine => "Tangerine"@,
            EthereumHardfork::SpuriousDragon => "SpuriousDragon"@,
            EthereumHardfork::Byzantium => "Byzantium"@,
            EthereumHardfork::Constantinople => "Constantinople"@,
            EthereumHardfork::Petersburg => "Petersburg"@,
            EthereumHardfork::Istanbul => "Istanbul"@,
            EthereumHardfork::MuirGlacier => "MuirGlacier"@,
            EthereumHardfork::Berlin => "Berlin"@,
            EthereumHardfork::London => "London"@,
            EthereumHardfork::ArrowGlacier => "ArrowGlacier"@,
            EthereumHardfork::GrayGlacier => "GrayGlacier"@,
            EthereumHardfork::Paris => "Paris"@,
            EthereumHardfork::Shanghai => "Shanghai"@,
            EthereumHardfork::Cancun => "Cancun"@,
            EthereumHardfork::Prague => "Prague"@,
            EthereumHardfork::Osaka => "Osaka"@,
            EthereumHardfork::Bpo1 => "Bpo1"@,
            EthereumHardfork::Bpo2 => "Bpo2"@,
            EthereumHardfork::Bpo3 => "Bpo3"@,
            EthereumHardfork::Bpo4 => "Bpo4"@,
            EthereumHardfork::Bpo5 => "Bpo5"@,
            EthereumHardfork::Amsterdam => "Amsterdam"@,
        }
    }

    proof fn lemma_ordinal_injective(a: Self, b: Self) {
    }

    fn idx(&self) -> (r: usize) {
        match self {
            EthereumHardfork::Frontier => 0,
            EthereumHardfork::Homestead => 1,
            EthereumHardfork::Dao => 2,
            EthereumHardfork::Tangerine => 3,
            EthereumHardfork::SpuriousDragon => 4,
            EthereumHardfork::Byzantium => 5,
            EthereumHardfork::Constantinople => 6,
            EthereumHardfork::Petersburg => 7,
            EthereumHardfork::Istanbul => 8,
            EthereumHardfork::MuirGlacier => 9,
            EthereumHardfork::Berlin => 10,
            EthereumHardfork::London => 11,
            EthereumHardfork::ArrowGlacier => 12,
            EthereumHardfork::GrayGlacier => 13,
            EthereumHardfork::Paris => 14,
            EthereumHardfork::Shanghai => 15,
            EthereumHardfork::Cancun => 16,
            EthereumHardfork::Prague => 17,
            EthereumHardfork::Osaka => 18,
            EthereumHardfork::Bpo1 => 19,
            EthereumHardfork::Bpo2 => 20,
            EthereumHardfork::Bpo3 => 21,
            EthereumHardfork::Bpo4 => 22,
            EthereumHardfork::Bpo5 => 23,
            EthereumHardfork::Amsterdam => 24,
        }
    }

    fn name(&self) -> (r: &'static str) {
        match self {
            EthereumHardfork::Frontier => "Frontier",
            EthereumHardfork::Homestead => "Homestead",
            EthereumHardfork::Dao => "Dao",
            EthereumHardfork::Tangerine => "Tangerine",
            EthereumHardfork::SpuriousDragon => "SpuriousDragon",
            EthereumHardfork::Byzantium => "Byzantium",
            EthereumHardfork::Constantinople => "Constantinople",
            EthereumHardfork::Petersburg => "Petersburg",
            EthereumHardfork::Istanbul => "Istanbul",
            EthereumHardfork::MuirGlacier => "MuirGlacier",
            EthereumHardfork::Berlin => "Berlin",
            EthereumHardfork::London => "London",
            EthereumHardfork::ArrowGlacier => "ArrowGlacier",
            EthereumHardfork::GrayGlacier => "GrayGlacier",
            EthereumHardfork::Paris => "Paris",
            EthereumHardfork::Shanghai => "Shanghai",
            EthereumHardfork::Cancun => "Cancun",
            EthereumHardfork::Prague => "Prague",
            EthereumHardfork::Osaka => "Osaka",
            EthereumHardfork::Bpo1 => "Bpo1",
            EthereumHardfork::Bpo2 => "Bpo2",
            EthereumHardfork::Bpo3 => "Bpo3",
            EthereumHardfork::Bpo4 => "Bpo4",
            EthereumHardfork::Bpo5 => "Bpo5",
            EthereumHardfork::Amsterdam => "Amsterdam",
        }
    }
}

impl EthereumHardfork {
    /// Parses a hardfork name, matched against the known names with ASCII
    /// letter case ignored.  An unknown name is the one recoverable error of
    /// the crate; the error message carries the offending text.
    pub fn from_name(s: &str) -> (r: Result<EthereumHardfork, ParseHardforkError>)
        ensures
            match r {
                Ok(f) => spec_str_eq_ci(s@, f.spec_name()),
                Err(e) => (forall|f: EthereumHardfork| !spec_str_eq_ci(s@, f.spec_name()))
                    && e.spec_message() == "Unknown hardfork: "@ + s@,
            },
    {
        if eq_name_ci(s, "Frontier") {
            Ok(EthereumHardfork::Frontier)
        } else if eq_name_ci(s, "Homestead") {
            Ok(EthereumHardfork::Homestead)
        } else if eq_name_ci(s, "Dao") {
            Ok(EthereumHardfork::Dao)
        } else if eq_name_ci(s, "Tangerine") {
            Ok(EthereumHardfork::Tangerine)
        } else if eq_name_ci(s, "SpuriousDragon") {
            Ok(EthereumHardfork::SpuriousDragon)
        } else if eq_name_ci(s, "Byzantium") {
            Ok(EthereumHardfork::Byzantium)
        } else if eq_name_ci(s, "Constantinople") {
            Ok(EthereumHardfork::Constantinople)
        } else if eq_name_ci(s, "Petersburg") {
            Ok(EthereumHardfork::Petersburg)
        } else if eq_name_ci(s, "Istanbul") {
            Ok(EthereumHardfork::Istanbul)
        } else if eq_name_ci(s, "MuirGlacier") {
            Ok(EthereumHardfork::MuirGlacier)
        } else if eq_name_ci(s, "Berlin") {
            Ok(EthereumHardfork::Berlin)
        } else if eq_name_ci(s, "London") {
            Ok(EthereumHardfork::London)
        } else if eq_name_ci(s, "ArrowGlacier") {
            Ok(EthereumHardfork::ArrowGlacier)
        } else if eq_name_ci(s, "GrayGlacier") {
            Ok(EthereumHardfork::GrayGlacier)
        } else if eq_name_ci(s, "Paris") {
            Ok(EthereumHardfork::Paris)
        } else if eq_name_ci(s, "Shanghai") {
            Ok(EthereumHardfork::Shanghai)
        } else if eq_name_ci(s, "Cancun") {
            Ok(EthereumHardfork::Cancun)
        } else if eq_name_ci(s, "Prague") {
            Ok(EthereumHardfork::Prague)
        } else if eq_name_ci(s, "Osaka") {
            Ok(EthereumHardfork::Osaka)
        } else if eq_name_ci(s, "Bpo1") {
            Ok(EthereumHardfork::Bpo1)
        } else if eq_name_ci(s, "Bpo2") {
            Ok(EthereumHardfork::Bpo2)
        } else if eq_name_ci(s, "Bpo3") {
            Ok(EthereumHardfork::Bpo3)
        } else if eq_name_ci(s, "Bpo4") {
            Ok(EthereumHardfork::Bpo4)
        } else if eq_name_ci(s, "Bpo5") {
            Ok(EthereumHardfork::Bpo5)
        } else if eq_name_ci(s, "Amsterdam") {
            Ok(EthereumHardfork::Amsterdam)
        } else {
            let mut msg = String::from_str("Unknown hardfork: ");
            msg.append(s);
            Err(ParseHardforkError::new(msg))
        }
    }
}

impl EthereumHardfork {
    /// The activation block of the hardfork on the Ethereum mainnet, if it
    /// activated by block number there.
    pub open spec fn spec_mainnet_activation_block(self) -> Option<u64> {
        match self {
            EthereumHardfork::Frontier => Some(MAINNET_FRONTIER_BLOCK),
            EthereumHardfork::Homestead => Some(MAINNET_HOMESTEAD_BLOCK),
            EthereumHardfork::Dao => Some(MAINNET_DAO_BLOCK),
            EthereumHardfork::Tangerine => Some(MAINNET_TANGERINE_BLOCK),
            EthereumHardfork::SpuriousDragon => Some(MAINNET_SPURIOUS_DRAGON_BLOCK),
            EthereumHardfork::Byzantium => Some(MAINNET_BYZANTIUM_BLOCK),
            EthereumHardfork::Constantinople => Some(MAINNET_CONSTANTINOPLE_BLOCK),
            EthereumHardfork::Petersburg => Some(MAINNET_PETERSBURG_BLOCK),
            EthereumHardfork::Istanbul => Some(MAINNET_ISTANBUL_BLOCK),
            EthereumHardfork::MuirGlacier => Some(MAINNET_MUIR_GLACIER_BLOCK),
            EthereumHardfork::Berlin => Some(MAINNET_BERLIN_BLOCK),
            EthereumHardfork::London => Some(MAINNET_LONDON_BLOCK),
            EthereumHardfork::ArrowGlacier => Some(MAINNET_ARROW_GLACIER_BLOCK),
            EthereumHardfork::GrayGlacier => Some(MAINNET_GRAY_GLACIER_BLOCK),
            EthereumHardfork::Paris => Some(MAINNET_PARIS_BLOCK),
            EthereumHardfork::Shanghai => Some(MAINNET_SHANGHAI_BLOCK),
            EthereumHardfork::Cancun => Some(MAINNET_CANCUN_BLOCK),
            EthereumHardfork::Prague => Some(MAINNET_PRAGUE_BLOCK),
            _ => None,
        }
    }

    /// Retrieves the activation block for the specified hardfork on the
    /// Ethereum mainnet.
    pub fn mainnet_activation_block(&self) -> (r: Option<u64>)
        ensures
            r == self.spec_mainnet_activation_block(),
    {
        match self {
            EthereumHardfork::Frontier => Some(MAINNET_FRONTIER_BLOCK),
            EthereumHardfork::Homestead => Some(MAINNET_HOMESTEAD_BLOCK),
            EthereumHardfork::Dao => Some(MAINNET_DAO_BLOCK),
            EthereumHardfork::Tangerine => Some(MAINNET_TANGERINE_BLOCK),
            EthereumHardfork::SpuriousDragon => Some(MAINNET_SPURIOUS_DRAGON_BLOCK),
            EthereumHardfork::Byzantium => Some(MAINNET_BYZANTIUM_BLOCK),
            EthereumHardfork::Constantinople => Some(MAINNET_CONSTANTINOPLE_BLOCK),
            EthereumHardfork::Petersburg => Some(MAINNET_PETERSBURG_BLOCK),
            EthereumHardfork::Istanbul => Some(MAINNET_ISTANBUL_BLOCK),
            EthereumHardfork::MuirGlacier => Some(MAINNET_MUIR_GLACIER_BLOCK),
            EthereumHardfork::Berlin => Some(MAINNET_BERLIN_BLOCK),
            EthereumHardfork::London => Some(MAINNET_LONDON_BLOCK),
            EthereumHardfork::ArrowGlacier => Some(MAINNET_ARROW_GLACIER_BLOCK),
            EthereumHardfork::GrayGlacier => Some(MAINNET_GRAY_GLACIER_BLOCK),
            EthereumHardfork::Paris => Some(MAINNET_PARIS_BLOCK),
            EthereumHardfork::Shanghai => Some(MAINNET_SHANGHAI_BLOCK),
            EthereumHardfork::Cancun => Some(MAINNET_CANCUN_BLOCK),
            EthereumHardfork::Prague => Some(MAINNET_PRAGUE_BLOCK),
            _ => None,
        }
    }

    /// The activation block of the hardfork on the Sepolia testnet, if it
    /// activated by block number there.
    pub open spec fn spec_sepolia_activation_block(self) -> Option<u64> {
        if self.spec_ordinal() <= EthereumHardfork::GrayGlacier.spec_ordinal() {
            Some(0)
        } else {
            match self {
                EthereumHardfork::Paris => Some(SEPOLIA_PARIS_BLOCK),
                EthereumHardfork::Shanghai => Some(SEPOLIA_SHANGHAI_BLOCK),
                EthereumHardfork::Cancun => Some(SEPOLIA_CANCUN_BLOCK),
                EthereumHardfork::Prague => Some(SEPOLIA_PRAGUE_BLOCK),
                _ => None,
            }
        }
    }

    /// Retrieves the activation block for the specified hardfork on the
    /// Sepolia testnet.
    pub fn sepolia_activation_block(&self) -> (r: Option<u64>)
        ensures
            r == self.spec_sepolia_activation_block(),
    {
        match self {
            EthereumHardfork::Frontier
            | EthereumHardfork::Homestead
            | EthereumHardfork::Dao
            | EthereumHardfork::Tangerine
            | EthereumHardfork::SpuriousDragon
            | EthereumHardfork::Byzantium
            | EthereumHardfork::Constantinople
            | EthereumHardfork::Petersburg
            | EthereumHardfork::Istanbul
            | EthereumHardfork::MuirGlacier
            | EthereumHardfork::Berlin
            | EthereumHardfork::London
            | EthereumHardfork::ArrowGlacier
            | EthereumHardfork::GrayGlacier => Some(0),
            EthereumHardfork::Paris => Some(SEPOLIA_PARIS_BLOCK),
            EthereumHardfork::Shanghai => Some(SEPOLIA_SHANGHAI_BLOCK),
            EthereumHardfork::Cancun => Some(SEPOLIA_CANCUN_BLOCK),
            EthereumHardfork::Prague => Some(SEPOLIA_PRAGUE_BLOCK),
            _ => None,
        }
    }

    /// The activation block of the hardfork on the Holesky testnet, if it
    /// activated by block number there.
    pub open spec fn spec_holesky_activation_block(self) -> Option<u64> {
        if self.spec_ordinal() <= EthereumHardfork::Paris.spec_ordinal() {
            Some(0)
        } else {
            match self {
                EthereumHardfork::Shanghai => Some(HOLESKY_SHANGHAI_BLOCK),
                EthereumHardfork::Cancun => Some(HOLESKY_CANCUN_BLOCK),
                EthereumHardfork::Prague => Some(HOLESKY_PRAGUE_BLOCK),
                _ => None,
            }
        }
    }

    /// Retrieves the activation block for the specified hardfork on the
    /// Holesky testnet.
    pub fn holesky_activation_block(&self) -> (r: Option<u64>)
        ensures
            r == self.spec_holesky_activation_block(),
    {
        match self {
            EthereumHardfork::Frontier
            | EthereumHardfork::Homestead
            | EthereumHardfork::Dao
            | EthereumHardfork::Tangerine
            | EthereumHardfork::SpuriousDragon
            | EthereumHardfork::Byzantium
            | EthereumHardfork::Constantinople
            | EthereumHardfork::Petersburg
            | EthereumHardfork::Istanbul
            | EthereumHardfork::MuirGlacier
            | EthereumHardfork::Berlin
            | EthereumHardfork::London
            | EthereumHardfork::ArrowGlacier
            | EthereumHardfork::GrayGlacier
            | EthereumHardfork::Paris => Some(0),
            EthereumHardfork::Shanghai => Some(HOLESKY_SHANGHAI_BLOCK),
            EthereumHardfork::Cancun => Some(HOLESKY_CANCUN_BLOCK),
            EthereumHardfork::Prague => Some(HOLESKY_PRAGUE_BLOCK),
            _ => None,
        }
    }

    /// The activation block of the hardfork on the Hoodi testnet, if it
    /// activated by block number there.
    pub open spec fn spec_hoodi_activation_block(self) -> Option<u64> {
        if self.spec_ordinal() <= EthereumHardfork::Cancun.spec_ordinal() {
            Some(0)
        } else {
            match self {
                EthereumHardfork::Prague => Some(HOODI_PRAGUE_BLOCK),
                _ => None,
            }
        }
    }

    /// Retrieves the activation block for the specified hardfork on the
    /// Hoodi testnet.
    pub fn hoodi_activation_block(&self) -> (r: Option<u64>)
        ensures
            r == self.spec_hoodi_activation_block(),
    {
        match self {
            EthereumHardfork::Frontier
            | EthereumHardfork::Homestead
            | EthereumHardfork::Dao
            | EthereumHardfork::Tangerine
            | EthereumHardfork::SpuriousDragon
            | EthereumHardfork::Byzantium
            | EthereumHardfork::Constantinople
            | EthereumHardfork::Petersburg
            | EthereumHardfork::Istanbul
            | EthereumHardfork::MuirGlacier
            | EthereumHardfork::Berlin
            | EthereumHardfork::London
            | EthereumHardfork::ArrowGlacier
            | EthereumHardfork::GrayGlacier
            | EthereumHardfork::Paris
            | EthereumHardfork::Shanghai
            | EthereumHardfork::Cancun => Some(0),
            EthereumHardfork::Prague => Some(HOODI_PRAGUE_BLOCK),
            _ => None,
        }
    }

    /// The activation block of the hardfork on the Arbitrum Sepolia testnet,
    /// if it activated by block number there.
    pub open spec fn spec_arbitrum_sepolia_activation_block(self) -> Option<u64> {
        if self.spec_ordinal() <= EthereumHardfork::Paris.spec_ordinal() {
            Some(0)
        } else {
            match self {
                EthereumHardfork::Shanghai => Some(ARBITRUM_SEPOLIA_SHANGHAI_BLOCK),
                EthereumHardfork::Cancun => Some(ARBITRUM_SEPOLIA_CANCUN_BLOCK),
                EthereumHardfork::Prague => Some(ARBITRUM_SEPOLIA_PRAGUE_BLOCK),
                _ => None,
            }
        }
    }

    /// Retrieves the activation block for the specified hardfork on the
    /// Arbitrum Sepolia testnet.
    pub fn arbitrum_sepolia_activation_block(&self) -> (r: Option<u64>)
        ensures
            r == self.spec_arbitrum_sepolia_activation_block(),
    {
        match self {
            EthereumHardfork::Frontier
            | EthereumHardfork::Homestead
            | EthereumHardfork::Dao
            | EthereumHardfork::Tangerine
            | EthereumHardfork::SpuriousDragon
            | EthereumHardfork::Byzantium
            | EthereumHardfork::Constantinople
            | EthereumHardfork::Petersburg
            | EthereumHardfork::Istanbul
            | EthereumHardfork::MuirGlacier
            | EthereumHardfork::Berlin
            | EthereumHardfork::London
            | EthereumHardfork::ArrowGlacier
            | EthereumHardfork::GrayGlacier
            | EthereumHardfork::Paris => Some(0),
            EthereumHardfork::Shanghai => Some(ARBITRUM_SEPOLIA_SHANGHAI_BLOCK),
            EthereumHardfork::Cancun => Some(ARBITRUM_SEPOLIA_CANCUN_BLOCK),
            EthereumHardfork::Prague => Some(ARBITRUM_SEPOLIA_PRAGUE_BLOCK),
            _ => None,
        }
    }

    /// The activation block of the hardfork on the Arbitrum One mainnet, if
    /// it activated by block number there.
    pub open spec fn spec_arbitrum_activation_block(self) -> Option<u64> {
        if self.spec_ordinal() <= EthereumHardfork::Paris.spec_ordinal() {
            Some(0)
        } else {
            match self {
                EthereumHardfork::Shanghai => Some(ARBITRUM_ONE_SHANGHAI_BLOCK),
                EthereumHardfork::Cancun => Some(ARBITRUM_ONE_CANCUN_BLOCK),
                EthereumHardfork::Prague => Some(ARBITRUM_ONE_PRAGUE_BLOCK),
                _ => None,
            }
        }
    }

    /// Retrieves the activation block for the specified hardfork on the
    /// Arbitrum One mainnet.
    pub fn arbitrum_activation_block(&self) -> (r: Option<u64>)
        ensures
            r == self.spec_arbitrum_activation_block(),
    {
        match self {
            EthereumHardfork::Frontier
            | EthereumHardfork::Homestead
            | EthereumHardfork::Dao
            | EthereumHardfork::Tangerine
            | EthereumHardfork::SpuriousDragon
            | EthereumHardfork::Byzantium
            | EthereumHardfork::Constantinople
            | EthereumHardfork::Petersburg
            | EthereumHardfork::Istanbul
            | EthereumHardfork::MuirGlacier
            | EthereumHardfork::Berlin
            | EthereumHardfork::London
            | EthereumHardfork::ArrowGlacier
            | EthereumHardfork::GrayGlacier
            | EthereumHardfork::Paris => Some(0),
            EthereumHardfork::Shanghai => Some(ARBITRUM_ONE_SHANGHAI_BLOCK),
            EthereumHardfork::Cancun => Some(ARBITRUM_ONE_CANCUN_BLOCK),
            EthereumHardfork::Prague => Some(ARBITRUM_ONE_PRAGUE_BLOCK),
            _ => None,
        }
    }

    /// The activation block of the hardfork on the given chain, if the chain
    /// is known and the hardfork activated by block number there.
    pub open spec fn spec_activation_block(self, chain: Chain) -> Option<u64> {
        if chain.id == MAINNET_CHAIN_ID {
            self.spec_mainnet_activation_block()
        } else if chain.id == SEPOLIA_CHAIN_ID {
            self.spec_sepolia_activation_block()
        } else if chain.id == HOLESKY_CHAIN_ID {
            self.spec_holesky_activation_block()
        } else if chain.id == HOODI_CHAIN_ID {
            self.spec_hoodi_activation_block()
        } else {
            None
        }
    }

    /// Retrieves the activation block for the specified hardfork on the
    /// given chain; an unknown chain yields `None`.
    pub fn activation_block(&self, chain: Chain) -> (r: Option<u64>)
        ensures
            r == self.spec_activation_block(chain),
    {
        if chain.id == MAINNET_CHAIN_ID {
            return self.mainnet_activation_block();
        }
        if chain.id == SEPOLIA_CHAIN_ID {
            return self.sepolia_activation_block();
        }
        if chain.id == HOLESKY_CHAIN_ID {
            return self.holesky_activation_block();
        }
        if chain.id == HOODI_CHAIN_ID {
            return self.hoodi_activation_block();
        }
        None
    }
}

impl EthereumHardfork {
    /// The activation timestamp of the hardfork on the Ethereum mainnet, if
    /// it is scheduled there.
    pub open spec fn spec_mainnet_activation_timestamp(self) -> Option<u64> {
        match self {
            EthereumHardfork::Frontier => Some(MAINNET_FRONTIER_TIMESTAMP),
            EthereumHardfork::Homestead => Some(MAINNET_HOMESTEAD_TIMESTAMP),
            EthereumHardfork::Dao => Some(MAINNET_DAO_TIMESTAMP),
            EthereumHardfork::Tangerine => Some(MAINNET_TANGERINE_TIMESTAMP),
            EthereumHardfork::SpuriousDragon => Some(MAINNET_SPURIOUS_DRAGON_TIMESTAMP),
            EthereumHardfork::Byzantium => Some(MAINNET_BYZANTIUM_TIMESTAMP),
            EthereumHardfork::Constantinople => Some(MAINNET_CONSTANTINOPLE_TIMESTAMP),
            EthereumHardfork::Petersburg => Some(MAINNET_PETERSBURG_TIMESTAMP),
            EthereumHardfork::Istanbul => Some(MAINNET_ISTANBUL_TIMESTAMP),
            EthereumHardfork::MuirGlacier => Some(MAINNET_MUIR_GLACIER_TIMESTAMP),
            EthereumHardfork::Berlin => Some(MAINNET_BERLIN_TIMESTAMP),
            EthereumHardfork::London => Some(MAINNET_LONDON_TIMESTAMP),
            EthereumHardfork::ArrowGlacier => Some(MAINNET_ARROW_GLACIER_TIMESTAMP),
            EthereumHardfork::GrayGlacier => Some(MAINNET_GRAY_GLACIER_TIMESTAMP),
            EthereumHardfork::Paris => Some(MAINNET_PARIS_TIMESTAMP),
            EthereumHardfork::Shanghai => Some(MAINNET_SHANGHAI_TIMESTAMP),
            EthereumHardfork::Cancun => Some(MAINNET_CANCUN_TIMESTAMP),
            EthereumHardfork::Prague => Some(MAINNET_PRAGUE_TIMESTAMP),
            _ => None,
        }
    }

    /// Retrieves the activation timestamp for the specified hardfork on the
    /// Ethereum mainnet.
    pub fn mainnet_activation_timestamp(&self) -> (r: Option<u64>)
        ensures
            r == self.spec_mainnet_activation_timestamp(),
    {
        match self {
            EthereumHardfork::Frontier => Some(MAINNET_FRONTIER_TIMESTAMP),
            EthereumHardfork::Homestead => Some(MAINNET_HOMESTEAD_TIMESTAMP),
            EthereumHardfork::Dao => Some(MAINNET_DAO_TIMESTAMP),
            EthereumHardfork::Tangerine => Some(MAINNET_TANGERINE_TIMESTAMP),
            EthereumHardfork::SpuriousDragon => Some(MAINNET_SPURIOUS_DRAGON_TIMESTAMP),
            EthereumHardfork::Byzantium => Some(MAINNET_BYZANTIUM_TIMESTAMP),
            EthereumHardfork::Constantinople => Some(MAINNET_CONSTANTINOPLE_TIMESTAMP),
            EthereumHardfork::Petersburg => Some(MAINNET_PETERSBURG_TIMESTAMP),
            EthereumHardfork::Istanbul => Some(MAINNET_ISTANBUL_TIMESTAMP),
            EthereumHardfork::MuirGlacier => Some(MAINNET_MUIR_GLACIER_TIMESTAMP),
            EthereumHardfork::Berlin => Some(MAINNET_BERLIN_TIMESTAMP),
            EthereumHardfork::London => Some(MAINNET_LONDON_TIMESTAMP),
            EthereumHardfork::ArrowGlacier => Some(MAINNET_ARROW_GLACIER_TIMESTAMP),
            EthereumHardfork::GrayGlacier => Some(MAINNET_GRAY_GLACIER_TIMESTAMP),
            EthereumHardfork::Paris => Some(MAINNET_PARIS_TIMESTAMP),
            EthereumHardfork::Shanghai => Some(MAINNET_SHANGHAI_TIMESTAMP),
            EthereumHardfork::Cancun => Some(MAINNET_CANCUN_TIMESTAMP),
            EthereumHardfork::Prague => Some(MAINNET_PRAGUE_TIMESTAMP),
            _ => None,
        }
    }

    /// The activation timestamp of the hardfork on the Sepolia testnet, if
    /// it is scheduled there.
    pub open spec fn spec_sepolia_activation_timestamp(self) -> Option<u64> {
        if self.spec_ordinal() <= EthereumHardfork::Paris.spec_ordinal() {
            Some(SEPOLIA_PARIS_TIMESTAMP)
        } else {
            match self {
                EthereumHardfork::Shanghai => Some(SEPOLIA_SHANGHAI_TIMESTAMP),
                EthereumHardfork::Cancun => Some(SEPOLIA_CANCUN_TIMESTAMP),
                EthereumHardfork::Prague => Some(SEPOLIA_PRAGUE_TIMESTAMP),
                EthereumHardfork::Osaka => Some(SEPOLIA_OSAKA_TIMESTAMP),
                EthereumHardfork::Bpo1 => Some(SEPOLIA_BPO1_TIMESTAMP),
                EthereumHardfork::Bpo2 => Some(SEPOLIA_BPO2_TIMESTAMP),
                _ => None,
            }
        }
    }

    /// Retrieves the activation timestamp for the specified hardfork on the
    /// Sepolia testnet.
    pub fn sepolia_activation_timestamp(&self) -> (r: Option<u64>)
        ensures
            r == self.spec_sepolia_activation_timestamp(),
    {
        match self {
            EthereumHardfork::Frontier
            | EthereumHardfork::Homestead
            | EthereumHardfork::Dao
            | EthereumHardfork::Tangerine
            | EthereumHardfork::SpuriousDragon
            | EthereumHardfork::Byzantium
            | EthereumHardfork::Constantinople
            | EthereumHardfork::Petersburg
            | EthereumHardfork::Istanbul
            | EthereumHardfork::MuirGlacier
            | EthereumHardfork::Berlin
            | EthereumHardfork::London
            | EthereumHardfork::ArrowGlacier
            | EthereumHardfork::GrayGlacier
            | EthereumHardfork::Paris => Some(SEPOLIA_PARIS_TIMESTAMP),
            EthereumHardfork::Shanghai => Some(SEPOLIA_SHANGHAI_TIMESTAMP),
            EthereumHardfork::Cancun => Some(SEPOLIA_CANCUN_TIMESTAMP),
            EthereumHardfork::Prague => Some(SEPOLIA_PRAGUE_TIMESTAMP),
            EthereumHardfork::Osaka => Some(SEPOLIA_OSAKA_TIMESTAMP),
            EthereumHardfork::Bpo1 => Some(SEPOLIA_BPO1_TIMESTAMP),
            EthereumHardfork::Bpo2 => Some(SEPOLIA_BPO2_TIMESTAMP),
            _ => None,
        }
    }

    /// The activation timestamp of the hardfork on the Holesky testnet, if
    /// it is scheduled there.
    pub open spec fn spec_holesky_activation_timestamp(self) -> Option<u64> {
        if self.spec_ordinal() <= EthereumHardfork::Paris.spec_ordinal() {
            Some(HOLESKY_PARIS_TIMESTAMP)
        } else {
            match self {
                EthereumHardfork::Shanghai => Some(HOLESKY_SHANGHAI_TIMESTAMP),
                EthereumHardfork::Cancun => Some(HOLESKY_CANCUN_TIMESTAMP),
                EthereumHardfork::Prague => Some(HOLESKY_PRAGUE_TIMESTAMP),
                EthereumHardfork::Osaka => Some(HOLESKY_OSAKA_TIMESTAMP),
                EthereumHardfork::Bpo1 => Some(HOLESKY_BPO1_TIMESTAMP),
                EthereumHardfork::Bpo2 => Some(HOLESKY_BPO2_TIMESTAMP),
                _ => None,
            }
        }
    }

    /// Retrieves the activation timestamp for the specified hardfork on the
    /// Holesky testnet.
    pub fn holesky_activation_timestamp(&self) -> (r: Option<u64>)
        ensures
            r == self.spec_holesky_activation_timestamp(),
    {
        match self {
            EthereumHardfork::Frontier
            | EthereumHardfork::Homestead
            | EthereumHardfork::Dao
            | EthereumHardfork::Tangerine
            | EthereumHardfork::SpuriousDragon
            | EthereumHardfork::Byzantium
            | EthereumHardfork::Constantinople
            | EthereumHardfork::Petersburg
            | EthereumHardfork::Istanbul
            | EthereumHardfork::MuirGlacier
            | EthereumHardfork::Berlin
            | EthereumHardfork::London
            | EthereumHardfork::ArrowGlacier
            | EthereumHardfork::GrayGlacier
            | EthereumHardfork::Paris => Some(HOLESKY_PARIS_TIMESTAMP),
            EthereumHardfork::Shanghai => Some(HOLESKY_SHANGHAI_TIMESTAMP),
            EthereumHardfork::Cancun => Some(HOLESKY_CANCUN_TIMESTAMP),
            EthereumHardfork::Prague => Some(HOLESKY_PRAGUE_TIMESTAMP),
            EthereumHardfork::Osaka => Some(HOLESKY_OSAKA_TIMESTAMP),
            EthereumHardfork::Bpo1 => Some(HOLESKY_BPO1_TIMESTAMP),
            EthereumHardfork::Bpo2 => Some(HOLESKY_BPO2_TIMESTAMP),
            _ => None,
        }
    }

    /// The activation timestamp of the hardfork on the Hoodi testnet, if it
    /// is scheduled there.
    pub open spec fn spec_hoodi_activation_timestamp(self) -> Option<u64> {
        if self.spec_ordinal() <= EthereumHardfork::Cancun.spec_ordinal() {
            Some(0)
        } else {
            match self {
                EthereumHardfork::Prague => Some(HOODI_PRAGUE_TIMESTAMP),
                EthereumHardfork::Osaka => Some(HOODI_OSAKA_TIMESTAMP),
                EthereumHardfork::Bpo1 => Some(HOODI_BPO1_TIMESTAMP),
                EthereumHardfork::Bpo2 => Some(HOODI_BPO2_TIMESTAMP),
                _ => None,
            }
        }
    }

    /// Retrieves the activation timestamp for the specified hardfork on the
    /// Hoodi testnet.
    pub fn hoodi_activation_timestamp(&self) -> (r: Option<u64>)
        ensures
            r == self.spec_hoodi_activation_timestamp(),
    {
        match self {
            EthereumHardfork::Frontier
            | EthereumHardfork::Homestead
            | EthereumHardfork::Dao
            | EthereumHardfork::Tangerine
            | EthereumHardfork::SpuriousDragon
            | EthereumHardfork::Byzantium
            | EthereumHardfork::Constantinople
            | EthereumHardfork::Petersburg
            | EthereumHardfork::Istanbul
            | EthereumHardfork::MuirGlacier
            | EthereumHardfork::Berlin
            | EthereumHardfork::London
            | EthereumHardfork::ArrowGlacier
            | EthereumHardfork::GrayGlacier
            | EthereumHardfork::Paris
            | EthereumHardfork::Shanghai
            | EthereumHardfork::Cancun => Some(0),
            EthereumHardfork::Prague => Some(HOODI_PRAGUE_TIMESTAMP),
            EthereumHardfork::Osaka => Some(HOODI_OSAKA_TIMESTAMP),
            EthereumHardfork::Bpo1 => Some(HOODI_BPO1_TIMESTAMP),
            EthereumHardfork::Bpo2 => Some(HOODI_BPO2_TIMESTAMP),
            _ => None,
        }
    }

    /// The activation timestamp of the hardfork on the Arbitrum Sepolia
    /// testnet, if it is scheduled there.
    pub open spec fn spec_arbitrum_sepolia_activation_timestamp(self) -> Option<u64> {
        if self.spec_ordinal() <= EthereumHardfork::Paris.spec_ordinal() {
            Some(ARBITRUM_SEPOLIA_PARIS_TIMESTAMP)
        } else {
            match self {
                EthereumHardfork::Shanghai => Some(ARBITRUM_SEPOLIA_SHANGHAI_TIMESTAMP),
                EthereumHardfork::Cancun => Some(ARBITRUM_SEPOLIA_CANCUN_TIMESTAMP),
                EthereumHardfork::Prague => Some(ARBITRUM_SEPOLIA_PRAGUE_TIMESTAMP),
                _ => None,
            }
        }
    }

    /// Retrieves the activation timestamp for the specified hardfork on the
    /// Arbitrum Sepolia testnet.
    pub fn arbitrum_sepolia_activation_timestamp(&self) -> (r: Option<u64>)
        ensures
            r == self.spec_arbitrum_sepolia_activation_timestamp(),
    {
        match self {
            EthereumHardfork::Frontier
            | EthereumHardfork::Homestead
            | EthereumHardfork::Dao
            | EthereumHardfork::Tangerine
            | EthereumHardfork::SpuriousDragon
            | EthereumHardfork::Byzantium
            | EthereumHardfork::Constantinople
            | EthereumHardfork::Petersburg
            | EthereumHardfork::Istanbul
            | EthereumHardfork::MuirGlacier
            | EthereumHardfork::Berlin
            | EthereumHardfork::London
            | EthereumHardfork::ArrowGlacier
            | EthereumHardfork::GrayGlacier
            | EthereumHardfork::Paris => Some(ARBITRUM_SEPOLIA_PARIS_TIMESTAMP),
            EthereumHardfork::Shanghai => Some(ARBITRUM_SEPOLIA_SHANGHAI_TIMESTAMP),
            EthereumHardfork::Cancun => Some(ARBITRUM_SEPOLIA_CANCUN_TIMESTAMP),
            EthereumHardfork::Prague => Some(ARBITRUM_SEPOLIA_PRAGUE_TIMESTAMP),
            _ => None,
        }
    }

    /// The activation timestamp of the hardfork on the Arbitrum One mainnet,
    /// if it is scheduled there.
    pub open spec fn spec_arbitrum_activation_timestamp(self) -> Option<u64> {
        if self.spec_ordinal() <= EthereumHardfork::Paris.spec_ordinal() {
            Some(ARBITRUM_ONE_PARIS_TIMESTAMP)
        } else {
            match self {
                EthereumHardfork::Shanghai => Some(ARBITRUM_ONE_SHANGHAI_TIMESTAMP),
                EthereumHardfork::Cancun => Some(ARBITRUM_ONE_CANCUN_TIMESTAMP),
                EthereumHardfork::Prague => Some(ARBITRUM_ONE_PRAGUE_TIMESTAMP),
                _ => None,
            }
        }
    }

    /// Retrieves the activation timestamp for the specified hardfork on the
    /// Arbitrum One mainnet.
    pub fn arbitrum_activation_timestamp(&self) -> (r: Option<u64>)
        ensures
            r == self.spec_arbitrum_activation_timestamp(),
    {
        match self {
            EthereumHardfork::Frontier
            | EthereumHardfork::Homestead
            | EthereumHardfork::Dao
            | EthereumHardfork::Tangerine
            | EthereumHardfork::SpuriousDragon
            | EthereumHardfork::Byzantium
            | EthereumHardfork::Constantinople
            | EthereumHardfork::Petersburg
            | EthereumHardfork::Istanbul
            | EthereumHardfork::MuirGlacier
            | EthereumHardfork::Berlin
            | EthereumHardfork::London
            | EthereumHardfork::ArrowGlacier
            | EthereumHardfork::GrayGlacier
            | EthereumHardfork::Paris => Some(ARBITRUM_ONE_PARIS_TIMESTAMP),
            EthereumHardfork::Shanghai => Some(ARBITRUM_ONE_SHANGHAI_TIMESTAMP),
            EthereumHardfork::Cancun => Some(ARBITRUM_ONE_CANCUN_TIMESTAMP),
            EthereumHardfork::Prague => Some(ARBITRUM_ONE_PRAGUE_TIMESTAMP),
            _ => None,
        }
    }

    /// The activation timestamp of the hardfork on the given chain, if the
    /// chain is known and the hardfork is scheduled there.
    pub open spec fn spec_activation_timestamp(self, chain: Chain) -> Option<u64> {
        if chain.id == MAINNET_CHAIN_ID {
            self.spec_mainnet_activation_timestamp()
        } else if chain.id == SEPOLIA_CHAIN_ID {
            self.spec_sepolia_activation_timestamp()
        } else if chain.id == HOLESKY_CHAIN_ID {
            self.spec_holesky_activation_timestamp()
        } else if chain.id == HOODI_CHAIN_ID {
            self.spec_hoodi_activation_timestamp()
        } else {
            None
        }
    }

    /// Retrieves the activation timestamp for the specified hardfork on the
    /// given chain; an unknown chain yields `None`.
    pub fn activation_timestamp(&self, chain: Chain) -> (r: Option<u64>)
        ensures
            r == self.spec_activation_timestamp(chain),
    {
        if chain.id == MAINNET_CHAIN_ID {
            return self.mainnet_activation_timestamp();
        }
        if chain.id == SEPOLIA_CHAIN_ID {
            return self.sepolia_activation_timestamp();
        }
        if chain.id == HOLESKY_CHAIN_ID {
            return self.holesky_activation_timestamp();
        }
        if chain.id == HOODI_CHAIN_ID {
            return self.hoodi_activation_timestamp();
        }
        None
    }
}

impl EthereumHardfork {
    /// The Ethereum mainnet activation schedule, in canonical order.
    pub open spec fn spec_mainnet_forks() -> Seq<(EthereumHardfork, ForkCondition)> {
        seq![
            (EthereumHardfork::Frontier, ForkCondition::Block(MAINNET_FRONTIER_BLOCK)),
            (EthereumHardfork::Homestead, ForkCondition::Block(MAINNET_HOMESTEAD_BLOCK)),
            (EthereumHardfork::Dao, ForkCondition::Block(MAINNET_DAO_BLOCK)),
            (EthereumHardfork::Tangerine, ForkCondition::Block(MAINNET_TANGERINE_BLOCK)),
            (EthereumHardfork::SpuriousDragon, ForkCondition::Block(MAINNET_SPURIOUS_DRAGON_BLOCK)),
            (EthereumHardfork::Byzantium, ForkCondition::Block(MAINNET_BYZANTIUM_BLOCK)),
            (EthereumHardfork::Constantinople, ForkCondition::Block(MAINNET_CONSTANTINOPLE_BLOCK)),
            (EthereumHardfork::Petersburg, ForkCondition::Block(MAINNET_PETERSBURG_BLOCK)),
            (EthereumHardfork::Istanbul, ForkCondition::Block(MAINNET_ISTANBUL_BLOCK)),
            (EthereumHardfork::MuirGlacier, ForkCondition::Block(MAINNET_MUIR_GLACIER_BLOCK)),
            (EthereumHardfork::Berlin, ForkCondition::Block(MAINNET_BERLIN_BLOCK)),
            (EthereumHardfork::London, ForkCondition::Block(MAINNET_LONDON_BLOCK)),
            (EthereumHardfork::ArrowGlacier, ForkCondition::Block(MAINNET_ARROW_GLACIER_BLOCK)),
            (EthereumHardfork::GrayGlacier, ForkCondition::Block(MAINNET_GRAY_GLACIER_BLOCK)),
            (
                EthereumHardfork::Paris,
                (ForkCondition::TTD {
                    activation_block_number: MAINNET_PARIS_BLOCK,
                    fork_block: None,
                    total_difficulty: MAINNET_PARIS_TTD,
                }),
            ),
            (EthereumHardfork::Shanghai, ForkCondition::Timestamp(MAINNET_SHANGHAI_TIMESTAMP)),
            (EthereumHardfork::Cancun, ForkCondition::Timestamp(MAINNET_CANCUN_TIMESTAMP)),
            (EthereumHardfork::Prague, ForkCondition::Timestamp(MAINNET_PRAGUE_TIMESTAMP)),
        ]
    }

    /// Ethereum mainnet list of hardforks.
    pub fn mainnet() -> (r: Vec<(EthereumHardfork, ForkCondition)>)
        ensures
            r@ == EthereumHardfork::spec_mainnet_forks(),
    {
        let mut r: Vec<(EthereumHardfork, ForkCondition)> = Vec::new();
        r.push((EthereumHardfork::Frontier, ForkCondition::Block(MAINNET_FRONTIER_BLOCK)));
        r.push((EthereumHardfork::Homestead, ForkCondition::Block(MAINNET_HOMESTEAD_BLOCK)));
        r.push((EthereumHardfork::Dao, ForkCondition::Block(MAINNET_DAO_BLOCK)));
        r.push((EthereumHardfork::Tangerine, ForkCondition::Block(MAINNET_TANGERINE_BLOCK)));
        r.push(
            (EthereumHardfork::SpuriousDragon, ForkCondition::Block(MAINNET_SPURIOUS_DRAGON_BLOCK)),
        );
        r.push((EthereumHardfork::Byzantium, ForkCondition::Block(MAINNET_BYZANTIUM_BLOCK)));
        r.push(
            (EthereumHardfork::Constantinople, ForkCondition::Block(MAINNET_CONSTANTINOPLE_BLOCK)),
        );
        r.push((EthereumHardfork::Petersburg, ForkCondition::Block(MAINNET_PETERSBURG_BLOCK)));
        r.push((EthereumHardfork::Istanbul, ForkCondition::Block(MAINNET_ISTANBUL_BLOCK)));
        r.push((EthereumHardfork::MuirGlacier, ForkCondition::Block(MAINNET_MUIR_GLACIER_BLOCK)));
        r.push((EthereumHardfork::Berlin, ForkCondition::Block(MAINNET_BERLIN_BLOCK)));
        r.push((EthereumHardfork::London, ForkCondition::Block(MAINNET_LONDON_BLOCK)));
        r.push((EthereumHardfork::ArrowGlacier, ForkCondition::Block(MAINNET_ARROW_GLACIER_BLOCK)));
        r.push((EthereumHardfork::GrayGlacier, ForkCondition::Block(MAINNET_GRAY_GLACIER_BLOCK)));
        r.push(
            (
                EthereumHardfork::Paris,
                ForkCondition::TTD {
                    activation_block_number: MAINNET_PARIS_BLOCK,
                    fork_block: None,
                    total_difficulty: MAINNET_PARIS_TTD,
                },
            ),
        );
        r.push((EthereumHardfork::Shanghai, ForkCondition::Timestamp(MAINNET_SHANGHAI_TIMESTAMP)));
        r.push((EthereumHardfork::Cancun, ForkCondition::Timestamp(MAINNET_CANCUN_TIMESTAMP)));
        r.push((EthereumHardfork::Prague, ForkCondition::Timestamp(MAINNET_PRAGUE_TIMESTAMP)));
        proof {
            assert(r@ =~= EthereumHardfork::spec_mainnet_forks());
        }
        r
    }

    /// The Sepolia activation schedule, in canonical order.
    pub open spec fn spec_sepolia_forks() -> Seq<(EthereumHardfork, ForkCondition)> {
        seq![
            (EthereumHardfork::Frontier, ForkCondition::Block(0)),
            (EthereumHardfork::Homestead, ForkCondition::Block(0)),
            (EthereumHardfork::Dao, ForkCondition::Block(0)),
            (EthereumHardfork::Tangerine, ForkCondition::Block(0)),
            (EthereumHardfork::SpuriousDragon, ForkCondition::Block(0)),
            (EthereumHardfork::Byzantium, ForkCondition::Block(0)),
            (EthereumHardfork::Constantinople, ForkCondition::Block(0)),
            (EthereumHardfork::Petersburg, ForkCondition::Block(0)),
            (EthereumHardfork::Istanbul, ForkCondition::Block(0)),
            (EthereumHardfork::MuirGlacier, ForkCondition::Block(0)),
            (EthereumHardfork::Berlin, ForkCondition::Block(0)),
            (EthereumHardfork::London, ForkCondition::Block(0)),
            (
                EthereumHardfork::Paris,
                (ForkCondition::TTD {
                    activation_block_number: SEPOLIA_PARIS_BLOCK,
                    fork_block: Some(SEPOLIA_PARIS_FORK_BLOCK),
                    total_difficulty: SEPOLIA_PARIS_TTD,
                }),
            ),
            (EthereumHardfork::Shanghai, ForkCondition::Timestamp(SEPOLIA_SHANGHAI_TIMESTAMP)),
            (EthereumHardfork::Cancun, ForkCondition::Timestamp(SEPOLIA_CANCUN_TIMESTAMP)),
            (EthereumHardfork::Prague, ForkCondition::Timestamp(SEPOLIA_PRAGUE_TIMESTAMP)),
            (EthereumHardfork::Osaka, ForkCondition::Timestamp(SEPOLIA_OSAKA_TIMESTAMP)),
            (EthereumHardfork::Bpo1, ForkCondition::Timestamp(SEPOLIA_BPO1_TIMESTAMP)),
            (EthereumHardfork::Bpo2, ForkCondition::Timestamp(SEPOLIA_BPO2_TIMESTAMP)),
        ]
    }

    /// Ethereum sepolia list of hardforks.
    pub fn sepolia() -> (r: Vec<(EthereumHardfork, ForkCondition)>)
        ensures
            r@ == EthereumHardfork::spec_sepolia_forks(),
    {
        let mut r: Vec<(EthereumHardfork, ForkCondition)> = Vec::new();
        r.push((EthereumHardfork::Frontier, ForkCondition::Block(0)));
        r.push((EthereumHardfork::Homestead, ForkCondition::Block(0)));
        r.push((EthereumHardfork::Dao, ForkCondition::Block(0)));
        r.push((EthereumHardfork::Tangerine, ForkCondition::Block(0)));
        r.push((EthereumHardfork::SpuriousDragon, ForkCondition::Block(0)));
        r.push((EthereumHardfork::Byzantium, ForkCondition::Block(0)));
        r.push((EthereumHardfork::Constantinople, ForkCondition::Block(0)));
        r.push((EthereumHardfork::Petersburg, ForkCondition::Block(0)));
        r.push((EthereumHardfork::Istanbul, ForkCondition::Block(0)));
        r.push((EthereumHardfork::MuirGlacier, ForkCondition::Block(0)));
        r.push((EthereumHardfork::Berlin, ForkCondition::Block(0)));
        r.push((EthereumHardfork::London, ForkCondition::Block(0)));
        r.push(
            (
                EthereumHardfork::Paris,
                ForkCondition::TTD {
                    activation_block_number: SEPOLIA_PARIS_BLOCK,
                    fork_block: Some(SEPOLIA_PARIS_FORK_BLOCK),
                    total_difficulty: SEPOLIA_PARIS_TTD,
                },
            ),
        );
        r.push((EthereumHardfork::Shanghai, ForkCondition::Timestamp(SEPOLIA_SHANGHAI_TIMESTAMP)));
        r.push((EthereumHardfork::Cancun, ForkCondition::Timestamp(SEPOLIA_CANCUN_TIMESTAMP)));
        r.push((EthereumHardfork::Prague, ForkCondition::Timestamp(SEPOLIA_PRAGUE_TIMESTAMP)));
        r.push((EthereumHardfork::Osaka, ForkCondition::Timestamp(SEPOLIA_OSAKA_TIMESTAMP)));
        r.push((EthereumHardfork::Bpo1, ForkCondition::Timestamp(SEPOLIA_BPO1_TIMESTAMP)));
        r.push((EthereumHardfork::Bpo2, ForkCondition::Timestamp(SEPOLIA_BPO2_TIMESTAMP)));
        proof {
            assert(r@ =~= EthereumHardfork::spec_sepolia_forks());
        }
        r
    }

    /// The Holesky activation schedule, in canonical order.
    pub open spec fn spec_holesky_forks() -> Seq<(EthereumHardfork, ForkCondition)> {
        seq![
            (EthereumHardfork::Frontier, ForkCondition::Block(0)),
            (EthereumHardfork::Homestead, ForkCondition::Block(0)),
            (EthereumHardfork::Dao, ForkCondition::Block(0)),
            (EthereumHardfork::Tangerine, ForkCondition::Block(0)),
            (EthereumHardfork::SpuriousDragon, ForkCondition::Block(0)),
            (EthereumHardfork::Byzantium, ForkCondition::Block(0)),
            (EthereumHardfork::Constantinople, ForkCondition::Block(0)),
            (EthereumHardfork::Petersburg, ForkCondition::Block(0)),
            (EthereumHardfork::Istanbul, ForkCondition::Block(0)),
            (EthereumHardfork::MuirGlacier, ForkCondition::Block(0)),
            (EthereumHardfork::Berlin, ForkCondition::Block(0)),
            (EthereumHardfork::London, ForkCondition::Block(0)),
            (
                EthereumHardfork::Paris,
                (ForkCondition::TTD {
                    activation_block_number: 0,
                    fork_block: Some(0),
                    total_difficulty: 0,
                }),
            ),
            (EthereumHardfork::Shanghai, ForkCondition::Timestamp(HOLESKY_SHANGHAI_TIMESTAMP)),
            (EthereumHardfork::Cancun, ForkCondition::Timestamp(HOLESKY_CANCUN_TIMESTAMP)),
            (EthereumHardfork::Prague, ForkCondition::Timestamp(HOLESKY_PRAGUE_TIMESTAMP)),
            (EthereumHardfork::Osaka, ForkCondition::Timestamp(HOLESKY_OSAKA_TIMESTAMP)),
            (EthereumHardfork::Bpo1, ForkCondition::Timestamp(HOLESKY_BPO1_TIMESTAMP)),
            (EthereumHardfork::Bpo2, ForkCondition::Timestamp(HOLESKY_BPO2_TIMESTAMP)),
        ]
    }

    /// Ethereum holesky list of hardforks.
    pub fn holesky() -> (r: Vec<(EthereumHardfork, ForkCondition)>)
        ensures
            r@ == EthereumHardfork::spec_holesky_forks(),
    {
        let mut r: Vec<(EthereumHardfork, ForkCondition)> = Vec::new();
        r.push((EthereumHardfork::Frontier, ForkCondition::Block(0)));
        r.push((EthereumHardfork::Homestead, ForkCondition::Block(0)));
        r.push((EthereumHardfork::Dao, ForkCondition::Block(0)));
        r.push((EthereumHardfork::Tangerine, ForkCondition::Block(0)));
        r.push((EthereumHardfork::SpuriousDragon, ForkCondition::Block(0)));
        r.push((EthereumHardfork::Byzantium, ForkCondition::Block(0)));
        r.push((EthereumHardfork::Constantinople, ForkCondition::Block(0)));
        r.push((EthereumHardfork::Petersburg, ForkCondition::Block(0)));
        r.push((EthereumHardfork::Istanbul, ForkCondition::Block(0)));
        r.push((EthereumHardfork::MuirGlacier, ForkCondition::Block(0)));
        r.push((EthereumHardfork::Berlin, ForkCondition::Block(0)));
        r.push((EthereumHardfork::London, ForkCondition::Block(0)));
        r.push(
            (
                EthereumHardfork::Paris,
                ForkCondition::TTD {
                    activation_block_number: 0,
                    fork_block: Some(0),
                    total_difficulty: 0,
                },
            ),
        );
        r.push((EthereumHardfork::Shanghai, ForkCondition::Timestamp(HOLESKY_SHANGHAI_TIMESTAMP)));
        r.push((EthereumHardfork::Cancun, ForkCondition::Timestamp(HOLESKY_CANCUN_TIMESTAMP)));
        r.push((EthereumHardfork::Prague, ForkCondition::Timestamp(HOLESKY_PRAGUE_TIMESTAMP)));
        r.push((EthereumHardfork::Osaka, ForkCondition::Timestamp(HOLESKY_OSAKA_TIMESTAMP)));
        r.push((EthereumHardfork::Bpo1, ForkCondition::Timestamp(HOLESKY_BPO1_TIMESTAMP)));
        r.push((EthereumHardfork::Bpo2, ForkCondition::Timestamp(HOLESKY_BPO2_TIMESTAMP)));
        proof {
            assert(r@ =~= EthereumHardfork::spec_holesky_forks());
        }
        r
    }

    /// The Hoodi activation schedule, in canonical order.
    pub open spec fn spec_hoodi_forks() -> Seq<(EthereumHardfork, ForkCondition)> {
        seq![
            (EthereumHardfork::Frontier, ForkCondition::Block(0)),
            (EthereumHardfork::Homestead, ForkCondition::Block(0)),
            (EthereumHardfork::Dao, ForkCondition::Block(0)),
            (EthereumHardfork::Tangerine, ForkCondition::Block(0)),
            (EthereumHardfork::SpuriousDragon, ForkCondition::Block(0)),
            (EthereumHardfork::Byzantium, ForkCondition::Block(0)),
            (EthereumHardfork::Constantinople, ForkCondition::Block(0)),
            (EthereumHardfork::Petersburg, ForkCondition::Block(0)),
            (EthereumHardfork::Istanbul, ForkCondition::Block(0)),
            (EthereumHardfork::MuirGlacier, ForkCondition::Block(0)),
            (EthereumHardfork::Berlin, ForkCondition::Block(0)),
            (EthereumHardfork::London, ForkCondition::Block(0)),
            (
                EthereumHardfork::Paris,
                (ForkCondition::TTD {
                    activation_block_number: 0,
                    fork_block: Some(0),
                    total_difficulty: 0,
                }),
            ),
            (EthereumHardfork::Shanghai, ForkCondition::Timestamp(0)),
            (EthereumHardfork::Cancun, ForkCondition::Timestamp(0)),
            (EthereumHardfork::Prague, ForkCondition::Timestamp(HOODI_PRAGUE_TIMESTAMP)),
            (EthereumHardfork::Osaka, ForkCondition::Timestamp(HOODI_OSAKA_TIMESTAMP)),
            (EthereumHardfork::Bpo1, ForkCondition::Timestamp(HOODI_BPO1_TIMESTAMP)),
            (EthereumHardfork::Bpo2, ForkCondition::Timestamp(HOODI_BPO2_TIMESTAMP)),
        ]
    }

    /// Ethereum Hoodi list of hardforks.
    pub fn hoodi() -> (r: Vec<(EthereumHardfork, ForkCondition)>)
        ensures
            r@ == EthereumHardfork::spec_hoodi_forks(),
    {
        let mut r: Vec<(EthereumHardfork, ForkCondition)> = Vec::new();
        r.push((EthereumHardfork::Frontier, ForkCondition::Block(0)));
        r.push((EthereumHardfork::Homestead, ForkCondition::Block(0)));
        r.push((EthereumHardfork::Dao, ForkCondition::Block(0)));
        r.push((EthereumHardfork::Tangerine, ForkCondition::Block(0)));
        r.push((EthereumHardfork::SpuriousDragon, ForkCondition::Block(0)));
        r.push((EthereumHardfork::Byzantium, ForkCondition::Block(0)));
        r.push((EthereumHardfork::Constantinople, ForkCondition::Block(0)));
        r.push((EthereumHardfork::Petersburg, ForkCondition::Block(0)));
        r.push((EthereumHardfork::Istanbul, ForkCondition::Block(0)));
        r.push((EthereumHardfork::MuirGlacier, ForkCondition::Block(0)));
        r.push((EthereumHardfork::Berlin, ForkCondition::Block(0)));
        r.push((EthereumHardfork::London, ForkCondition::Block(0)));
        r.push(
            (
                EthereumHardfork::Paris,
                ForkCondition::TTD {
                    activation_block_number: 0,
                    fork_block: Some(0),
                    total_difficulty: 0,
                },
            ),
        );
        r.push((EthereumHardfork::Shanghai, ForkCondition::Timestamp(0)));
        r.push((EthereumHardfork::Cancun, ForkCondition::Timestamp(0)));
        r.push((EthereumHardfork::Prague, ForkCondition::Timestamp(HOODI_PRAGUE_TIMESTAMP)));
        r.push((EthereumHardfork::Osaka, ForkCondition::Timestamp(HOODI_OSAKA_TIMESTAMP)));
        r.push((EthereumHardfork::Bpo1, ForkCondition::Timestamp(HOODI_BPO1_TIMESTAMP)));
        r.push((EthereumHardfork::Bpo2, ForkCondition::Timestamp(HOODI_BPO2_TIMESTAMP)));
        proof {
            assert(r@ =~= EthereumHardfork::spec_hoodi_forks());
        }
        r
    }

    /// The development-network activation schedule: every fork active from
    /// genesis.
    pub open spec fn spec_devnet_forks() -> Seq<(EthereumHardfork, ForkCondition)> {
        seq![
            (EthereumHardfork::Frontier, ForkCondition::Block(0)),
            (EthereumHardfork::Homestead, ForkCondition::Block(0)),
            (EthereumHardfork::Dao, ForkCondition::Block(0)),
            (EthereumHardfork::Tangerine, ForkCondition::Block(0)),
            (EthereumHardfork::SpuriousDragon, ForkCondition::Block(0)),
            (EthereumHardfork::Byzantium, ForkCondition::Block(0)),
            (EthereumHardfork::Constantinople, ForkCondition::Block(0)),
            (EthereumHardfork::Petersburg, ForkCondition::Block(0)),
            (EthereumHardfork::Istanbul, ForkCondition::Block(0)),
            (EthereumHardfork::MuirGlacier, ForkCondition::Block(0)),
            (EthereumHardfork::Berlin, ForkCondition::Block(0)),
            (EthereumHardfork::London, ForkCondition::Block(0)),
            (
                EthereumHardfork::Paris,
                (ForkCondition::TTD {
                    activation_block_number: 0,
                    fork_block: None,
                    total_difficulty: 0,
                }),
            ),
            (EthereumHardfork::Shanghai, ForkCondition::Timestamp(0)),
            (EthereumHardfork::Cancun, ForkCondition::Timestamp(0)),
            (EthereumHardfork::Prague, ForkCondition::Timestamp(0)),
            (EthereumHardfork::Osaka, ForkCondition::Timestamp(0)),
            (EthereumHardfork::Bpo1, ForkCondition::Timestamp(0)),
            (EthereumHardfork::Bpo2, ForkCondition::Timestamp(0)),
        ]
    }

    /// Ethereum development-network list of hardforks.
    pub fn devnet() -> (r: Vec<(EthereumHardfork, ForkCondition)>)
        ensures
            r@ == EthereumHardfork::spec_devnet_forks(),
    {
        let mut r: Vec<(EthereumHardfork, ForkCondition)> = Vec::new();
        r.push((EthereumHardfork::Frontier, ForkCondition::Block(0)));
        r.push((EthereumHardfork::Homestead, ForkCondition::Block(0)));
        r.push((EthereumHardfork::Dao, ForkCondition::Block(0)));
        r.push((EthereumHardfork::Tangerine, ForkCondition::Block(0)));
        r.push((EthereumHardfork::SpuriousDragon, ForkCondition::Block(0)));
        r.push((EthereumHardfork::Byzantium, ForkCondition::Block(0)));
        r.push((EthereumHardfork::Constantinople, ForkCondition::Block(0)));
        r.push((EthereumHardfork::Petersburg, ForkCondition::Block(0)));
        r.push((EthereumHardfork::Istanbul, ForkCondition::Block(0)));
        r.push((EthereumHardfork::MuirGlacier, ForkCondition::Block(0)));
        r.push((EthereumHardfork::Berlin, ForkCondition::Block(0)));
        r.push((EthereumHardfork::London, ForkCondition::Block(0)));
        r.push(
            (
                EthereumHardfork::Paris,
                ForkCondition::TTD {
                    activation_block_number: 0,
                    fork_block: None,
                    total_difficulty: 0,
                },
            ),
        );
        r.push((EthereumHardfork::Shanghai, ForkCondition::Timestamp(0)));
        r.push((EthereumHardfork::Cancun, ForkCondition::Timestamp(0)));
        r.push((EthereumHardfork::Prague, ForkCondition::Timestamp(0)));
        r.push((EthereumHardfork::Osaka, ForkCondition::Timestamp(0)));
        r.push((EthereumHardfork::Bpo1, ForkCondition::Timestamp(0)));
        r.push((EthereumHardfork::Bpo2, ForkCondition::Timestamp(0)));
        proof {
            assert(r@ =~= EthereumHardfork::spec_devnet_forks());
        }
        r
    }
}

impl EthereumHardfork {
    /// The hardfork governing the given Ethereum mainnet block number.
    pub open spec fn spec_from_mainnet_block_number(num: u64) -> EthereumHardfork {
        if num < MAINNET_HOMESTEAD_BLOCK {
            EthereumHardfork::Frontier
        } else if num < MAINNET_DAO_BLOCK {
            EthereumHardfork::Homestead
        } else if num < MAINNET_TANGERINE_BLOCK {
            EthereumHardfork::Dao
        } else if num < MAINNET_SPURIOUS_DRAGON_BLOCK {
            EthereumHardfork::Tangerine
        } else if num < MAINNET_BYZANTIUM_BLOCK {
            EthereumHardfork::SpuriousDragon
        } else if num < MAINNET_CONSTANTINOPLE_BLOCK {
            EthereumHardfork::Byzantium
        } else if num < MAINNET_ISTANBUL_BLOCK {
            EthereumHardfork::Constantinople
        } else if num < MAINNET_MUIR_GLACIER_BLOCK {
            EthereumHardfork::Istanbul
        } else if num < MAINNET_BERLIN_BLOCK {
            EthereumHardfork::MuirGlacier
        } else if num < MAINNET_LONDON_BLOCK {
            EthereumHardfork::Berlin
        } else if num < MAINNET_ARROW_GLACIER_BLOCK {
            EthereumHardfork::London
        } else if num < MAINNET_PARIS_BLOCK {
            EthereumHardfork::ArrowGlacier
        } else if num < MAINNET_SHANGHAI_BLOCK {
            EthereumHardfork::Paris
        } else if num < MAINNET_CANCUN_BLOCK {
            EthereumHardfork::Shanghai
        } else if num < MAINNET_PRAGUE_BLOCK {
            EthereumHardfork::Cancun
        } else {
            EthereumHardfork::Prague
        }
    }

    /// Returns the hardfork governing the given Ethereum mainnet block
    /// number: the latest block-scheduled fork whose activation block is at
    /// or below it.
    pub fn from_mainnet_block_number(num: u64) -> (r: EthereumHardfork)
        ensures
            r == EthereumHardfork::spec_from_mainnet_block_number(num),
    {
        if num < MAINNET_HOMESTEAD_BLOCK {
            EthereumHardfork::Frontier
        } else if num < MAINNET_DAO_BLOCK {
            EthereumHardfork::Homestead
        } else if num < MAINNET_TANGERINE_BLOCK {
            EthereumHardfork::Dao
        } else if num < MAINNET_SPURIOUS_DRAGON_BLOCK {
            EthereumHardfork::Tangerine
        } else if num < MAINNET_BYZANTIUM_BLOCK {
            EthereumHardfork::SpuriousDragon
        } else if num < MAINNET_CONSTANTINOPLE_BLOCK {
            EthereumHardfork::Byzantium
        } else if num < MAINNET_ISTANBUL_BLOCK {
            EthereumHardfork::Constantinople
        } else if num < MAINNET_MUIR_GLACIER_BLOCK {
            EthereumHardfork::Istanbul
        } else if num < MAINNET_BERLIN_BLOCK {
            EthereumHardfork::MuirGlacier
        } else if num < MAINNET_LONDON_BLOCK {
            EthereumHardfork::Berlin
        } else if num < MAINNET_ARROW_GLACIER_BLOCK {
            EthereumHardfork::London
        } else if num < MAINNET_PARIS_BLOCK {
            EthereumHardfork::ArrowGlacier
        } else if num < MAINNET_SHANGHAI_BLOCK {
            EthereumHardfork::Paris
        } else if num < MAINNET_CANCUN_BLOCK {
            EthereumHardfork::Shanghai
        } else if num < MAINNET_PRAGUE_BLOCK {
            EthereumHardfork::Cancun
        } else {
            EthereumHardfork::Prague
        }
    }

    /// The hardfork active on the Ethereum mainnet at the given timestamp.
    pub open spec fn spec_mainnet_fork_at_timestamp(timestamp: u64) -> EthereumHardfork {
        if timestamp < MAINNET_HOMESTEAD_TIMESTAMP {
            EthereumHardfork::Frontier
        } else if timestamp < MAINNET_DAO_TIMESTAMP {
            EthereumHardfork::Homestead
        } else if timestamp < MAINNET_TANGERINE_TIMESTAMP {
            EthereumHardfork::Dao
        } else if timestamp < MAINNET_SPURIOUS_DRAGON_TIMESTAMP {
            EthereumHardfork::Tangerine
        } else if timestamp < MAINNET_BYZANTIUM_TIMESTAMP {
            EthereumHardfork::SpuriousDragon
        } else if timestamp < MAINNET_PETERSBURG_TIMESTAMP {
            EthereumHardfork::Byzantium
        } else if timestamp < MAINNET_ISTANBUL_TIMESTAMP {
            EthereumHardfork::Petersburg
        } else if timestamp < MAINNET_MUIR_GLACIER_TIMESTAMP {
            EthereumHardfork::Istanbul
        } else if timestamp < MAINNET_BERLIN_TIMESTAMP {
            EthereumHardfork::MuirGlacier
        } else if timestamp < MAINNET_LONDON_TIMESTAMP {
            EthereumHardfork::Berlin
        } else if timestamp < MAINNET_ARROW_GLACIER_TIMESTAMP {
            EthereumHardfork::London
        } else if timestamp < MAINNET_GRAY_GLACIER_TIMESTAMP {
            EthereumHardfork::ArrowGlacier
        } else if timestamp < MAINNET_PARIS_TIMESTAMP {
            EthereumHardfork::GrayGlacier
        } else if timestamp < MAINNET_SHANGHAI_TIMESTAMP {
            EthereumHardfork::Paris
        } else if timestamp < MAINNET_CANCUN_TIMESTAMP {
            EthereumHardfork::Shanghai
        } else if timestamp < MAINNET_PRAGUE_TIMESTAMP {
            EthereumHardfork::Cancun
        } else {
            EthereumHardfork::Prague
        }
    }

    /// The hardfork active on the Sepolia testnet at the given timestamp.
    pub open spec fn spec_sepolia_fork_at_timestamp(timestamp: u64) -> EthereumHardfork {
        if timestamp < SEPOLIA_PARIS_TIMESTAMP {
            EthereumHardfork::London
        } else if timestamp < SEPOLIA_SHANGHAI_TIMESTAMP {
            EthereumHardfork::Paris
        } else if timestamp < SEPOLIA_CANCUN_TIMESTAMP {
            EthereumHardfork::Shanghai
        } else if timestamp < SEPOLIA_PRAGUE_TIMESTAMP {
            EthereumHardfork::Cancun
        } else if timestamp < SEPOLIA_OSAKA_TIMESTAMP {
            EthereumHardfork::Prague
        } else {
            EthereumHardfork::Osaka
        }
    }

    /// The hardfork active on the Holesky testnet at the given timestamp.
    pub open spec fn spec_holesky_fork_at_timestamp(timestamp: u64) -> EthereumHardfork {
        if timestamp < HOLESKY_SHANGHAI_TIMESTAMP {
            EthereumHardfork::Paris
        } else if timestamp < HOLESKY_CANCUN_TIMESTAMP {
            EthereumHardfork::Shanghai
        } else if timestamp < HOLESKY_PRAGUE_TIMESTAMP {
            EthereumHardfork::Cancun
        } else if timestamp < HOLESKY_OSAKA_TIMESTAMP {
            EthereumHardfork::Prague
        } else {
            EthereumHardfork::Osaka
        }
    }

    /// The hardfork active on the Hoodi testnet at the given timestamp.
    pub open spec fn spec_hoodi_fork_at_timestamp(timestamp: u64) -> EthereumHardfork {
        if timestamp < HOODI_PRAGUE_TIMESTAMP {
            EthereumHardfork::Cancun
        } else if timestamp < HOODI_OSAKA_TIMESTAMP {
            EthereumHardfork::Prague
        } else {
            EthereumHardfork::Osaka
        }
    }

    /// The hardfork active on the Arbitrum One mainnet at the given
    /// timestamp.
    pub open spec fn spec_arbitrum_fork_at_timestamp(timestamp: u64) -> EthereumHardfork {
        if timestamp < ARBITRUM_ONE_SHANGHAI_TIMESTAMP {
            EthereumHardfork::Paris
        } else if timestamp < ARBITRUM_ONE_CANCUN_TIMESTAMP {
            EthereumHardfork::Shanghai
        } else if timestamp < ARBITRUM_ONE_PRAGUE_TIMESTAMP {
            EthereumHardfork::Cancun
        } else {
            EthereumHardfork::Prague
        }
    }

    /// The hardfork active on the Arbitrum Sepolia testnet at the given
    /// timestamp.
    pub open spec fn spec_arbitrum_sepolia_fork_at_timestamp(timestamp: u64) -> EthereumHardfork {
        if timestamp < ARBITRUM_SEPOLIA_SHANGHAI_TIMESTAMP {
            EthereumHardfork::Paris
        } else if timestamp < ARBITRUM_SEPOLIA_CANCUN_TIMESTAMP {
            EthereumHardfork::Shanghai
        } else if timestamp < ARBITRUM_SEPOLIA_PRAGUE_TIMESTAMP {
            EthereumHardfork::Cancun
        } else {
            EthereumHardfork::Prague
        }
    }

    /// The hardfork active on the given chain at the given timestamp: the
    /// one starting at the greatest boundary at or below the timestamp, the
    /// chain's earliest fork before every boundary, and nothing on an
    /// unknown chain.  A boundary belongs to the fork it activates.
    pub open spec fn spec_from_chain_and_timestamp(chain: Chain, timestamp: u64) -> Option<
        EthereumHardfork,
    > {
        if chain.id == MAINNET_CHAIN_ID {
            Some(EthereumHardfork::spec_mainnet_fork_at_timestamp(timestamp))
        } else if chain.id == SEPOLIA_CHAIN_ID {
            Some(EthereumHardfork::spec_sepolia_fork_at_timestamp(timestamp))
        } else if chain.id == HOLESKY_CHAIN_ID {
            Some(EthereumHardfork::spec_holesky_fork_at_timestamp(timestamp))
        } else if chain.id == HOODI_CHAIN_ID {
            Some(EthereumHardfork::spec_hoodi_fork_at_timestamp(timestamp))
        } else if chain.id == ARBITRUM_ONE_CHAIN_ID {
            Some(EthereumHardfork::spec_arbitrum_fork_at_timestamp(timestamp))
        } else if chain.id == ARBITRUM_SEPOLIA_CHAIN_ID {
            Some(EthereumHardfork::spec_arbitrum_sepolia_fork_at_timestamp(timestamp))
        } else {
            None
        }
    }

    /// Reverse lookup: returns the hardfork active at the given timestamp on
    /// the given chain, or `None` for an unknown chain.  On a known chain
    /// some hardfork is always active, a boundary timestamp already belongs
    /// to the fork it activates, and every timestamp past the last boundary
    /// resolves to the newest known fork.
    pub fn from_chain_and_timestamp(chain: Chain, timestamp: u64) -> (r: Option<EthereumHardfork>)
        ensures
            r == EthereumHardfork::spec_from_chain_and_timestamp(chain, timestamp),
    {
        if chain.id == MAINNET_CHAIN_ID {
            Some(
                if timestamp < MAINNET_HOMESTEAD_TIMESTAMP {
                    EthereumHardfork::Frontier
                } else if timestamp < MAINNET_DAO_TIMESTAMP {
                    EthereumHardfork::Homestead
                } else if timestamp < MAINNET_TANGERINE_TIMESTAMP {
                    EthereumHardfork::Dao
                } else if timestamp < MAINNET_SPURIOUS_DRAGON_TIMESTAMP {
                    EthereumHardfork::Tangerine
                } else if timestamp < MAINNET_BYZANTIUM_TIMESTAMP {
                    EthereumHardfork::SpuriousDragon
                } else if timestamp < MAINNET_PETERSBURG_TIMESTAMP {
                    EthereumHardfork::Byzantium
                } else if timestamp < MAINNET_ISTANBUL_TIMESTAMP {
                    EthereumHardfork::Petersburg
                } else if timestamp < MAINNET_MUIR_GLACIER_TIMESTAMP {
                    EthereumHardfork::Istanbul
                } else if timestamp < MAINNET_BERLIN_TIMESTAMP {
                    EthereumHardfork::MuirGlacier
                } else if timestamp < MAINNET_LONDON_TIMESTAMP {
                    EthereumHardfork::Berlin
                } else if timestamp < MAINNET_ARROW_GLACIER_TIMESTAMP {
                    EthereumHardfork::London
                } else if timestamp < MAINNET_GRAY_GLACIER_TIMESTAMP {
                    EthereumHardfork::ArrowGlacier
                } else if timestamp < MAINNET_PARIS_TIMESTAMP {
                    EthereumHardfork::GrayGlacier
                } else if timestamp < MAINNET_SHANGHAI_TIMESTAMP {
                    EthereumHardfork::Paris
                } else if timestamp < MAINNET_CANCUN_TIMESTAMP {
                    EthereumHardfork::Shanghai
                } else if timestamp < MAINNET_PRAGUE_TIMESTAMP {
                    EthereumHardfork::Cancun
                } else {
                    EthereumHardfork::Prague
                },
            )
        } else if chain.id == SEPOLIA_CHAIN_ID {
            Some(
                if timestamp < SEPOLIA_PARIS_TIMESTAMP {
                    EthereumHardfork::London
                } else if timestamp < SEPOLIA_SHANGHAI_TIMESTAMP {
                    EthereumHardfork::Paris
                } else if timestamp < SEPOLIA_CANCUN_TIMESTAMP {
                    EthereumHardfork::Shanghai
                } else if timestamp < SEPOLIA_PRAGUE_TIMESTAMP {
                    EthereumHardfork::Cancun
                } else if timestamp < SEPOLIA_OSAKA_TIMESTAMP {
                    EthereumHardfork::Prague
                } else {
                    EthereumHardfork::Osaka
                },
            )
        } else if chain.id == HOLESKY_CHAIN_ID {
            Some(
                if timestamp < HOLESKY_SHANGHAI_TIMESTAMP {
                    EthereumHardfork::Paris
                } else if timestamp < HOLESKY_CANCUN_TIMESTAMP {
                    EthereumHardfork::Shanghai
                } else if timestamp < HOLESKY_PRAGUE_TIMESTAMP {
                    EthereumHardfork::Cancun
                } else if timestamp < HOLESKY_OSAKA_TIMESTAMP {
                    EthereumHardfork::Prague
                } else {
                    EthereumHardfork::Osaka
                },
            )
        } else if chain.id == HOODI_CHAIN_ID {
            Some(
                if timestamp < HOODI_PRAGUE_TIMESTAMP {
                    EthereumHardfork::Cancun
                } else if timestamp < HOODI_OSAKA_TIMESTAMP {
                    EthereumHardfork::Prague
                } else {
                    EthereumHardfork::Osaka
                },
            )
        } else if chain.id == ARBITRUM_ONE_CHAIN_ID {
            Some(
                if timestamp < ARBITRUM_ONE_SHANGHAI_TIMESTAMP {
                    EthereumHardfork::Paris
                } else if timestamp < ARBITRUM_ONE_CANCUN_TIMESTAMP {
                    EthereumHardfork::Shanghai
                } else if timestamp < ARBITRUM_ONE_PRAGUE_TIMESTAMP {
                    EthereumHardfork::Cancun
                } else {
                    EthereumHardfork::Prague
                },
            )
        } else if chain.id == ARBITRUM_SEPOLIA_CHAIN_ID {
            Some(
                if timestamp < ARBITRUM_SEPOLIA_SHANGHAI_TIMESTAMP {
                    EthereumHardfork::Paris
                } else if timestamp < ARBITRUM_SEPOLIA_CANCUN_TIMESTAMP {
                    EthereumHardfork::Shanghai
                } else if timestamp < ARBITRUM_SEPOLIA_PRAGUE_TIMESTAMP {
                    EthereumHardfork::Cancun
                } else {
                    EthereumHardfork::Prague
                },
            )
        } else {
            None
        }
    }
}

impl core::str::FromStr for EthereumHardfork {
    type Err = ParseHardforkError;

    /// Parses a hardfork name with ASCII letter case ignored.
    fn from_str(s: &str) -> Result<EthereumHardfork, ParseHardforkError> {
        EthereumHardfork::from_name(s)
    }
}

/// Activation is monotonic along the Ethereum mainnet schedule: an earlier
/// fork activates no later than a later one, in whichever space both are
/// defined.
pub proof fn lemma_mainnet_schedule_monotonic()
    ensures
        spec_conditions_monotonic(EthereumHardfork::spec_mainnet_forks()),
{
}

/// Activation is monotonic along the Sepolia schedule.
pub proof fn lemma_sepolia_schedule_monotonic()
    ensures
        spec_conditions_monotonic(EthereumHardfork::spec_sepolia_forks()),
{
}

/// Activation is monotonic along the Holesky schedule.
pub proof fn lemma_holesky_schedule_monotonic()
    ensures
        spec_conditions_monotonic(EthereumHardfork::spec_holesky_forks()),
{
}

/// Activation is monotonic along the Hoodi schedule.
pub proof fn lemma_hoodi_schedule_monotonic()
    ensures
        spec_conditions_monotonic(EthereumHardfork::spec_hoodi_forks()),
{
}

/// Activation is monotonic along the development-network schedule.
pub proof fn lemma_devnet_schedule_monotonic()
    ensures
        spec_conditions_monotonic(EthereumHardfork::spec_devnet_forks()),
{
}

/// Activation blocks are monotonic in the canonical order on every chain
/// the per-chain block getters know: where two forks both have one, the
/// earlier fork's block is at or below the later fork's.
pub proof fn lemma_activation_block_monotonic(chain: Chain, a: EthereumHardfork, b: EthereumHardfork)
    requires
        a.spec_ordinal() <= b.spec_ordinal(),
        a.spec_activation_block(chain) is Some,
        b.spec_activation_block(chain) is Some,
    ensures
        a.spec_activation_block(chain)->0 <= b.spec_activation_block(chain)->0,
{
}

/// Activation timestamps are monotonic in the canonical order on every
/// chain the per-chain timestamp getters know.
pub proof fn lemma_activation_timestamp_monotonic(
    chain: Chain,
    a: EthereumHardfork,
    b: EthereumHardfork,
)
    requires
        a.spec_ordinal() <= b.spec_ordinal(),
        a.spec_activation_timestamp(chain) is Some,
        b.spec_activation_timestamp(chain) is Some,
    ensures
        a.spec_activation_timestamp(chain)->0 <= b.spec_activation_timestamp(chain)->0,
{
}

/// Activation blocks and timestamps are monotonic in the canonical order on
/// the Arbitrum chains as well.
pub proof fn lemma_arbitrum_activation_monotonic(a: EthereumHardfork, b: EthereumHardfork)
    requires
        a.spec_ordinal() <= b.spec_ordinal(),
    ensures
        a.spec_arbitrum_activation_block() is Some && b.spec_arbitrum_activation_block() is Some
            ==> a.spec_arbitrum_activation_block()->0 <= b.spec_arbitrum_activation_block()->0,
        a.spec_arbitrum_activation_timestamp() is Some && b.spec_arbitrum_activation_timestamp()
            is Some ==> a.spec_arbitrum_activation_timestamp()->0
            <= b.spec_arbitrum_activation_timestamp()->0,
        a.spec_arbitrum_sepolia_activation_block() is Some
            && b.spec_arbitrum_sepolia_activation_block() is Some
            ==> a.spec_arbitrum_sepolia_activation_block()->0
            <= b.spec_arbitrum_sepolia_activation_block()->0,
        a.spec_arbitrum_sepolia_activation_timestamp() is Some
            && b.spec_arbitrum_sepolia_activation_timestamp() is Some
            ==> a.spec_arbitrum_sepolia_activation_timestamp()->0
            <= b.spec_arbitrum_sepolia_activation_timestamp()->0,
{
}

/// Helper methods for Ethereum forks, provided by anything that can map an
/// Ethereum hardfork to its activation condition.
pub trait EthereumHardforks {
    /// The condition this provider associates with an Ethereum hardfork.
    spec fn spec_fork_activation(&self, fork: EthereumHardfork) -> ForkCondition;

    /// Retrieves the activation condition for an [`EthereumHardfork`].  If
    /// `fork` is not present, returns [`ForkCondition::Never`].
    fn ethereum_fork_activation(&self, fork: EthereumHardfork) -> (r: ForkCondition)
        ensures
            r == self.spec_fork_activation(fork),
    ;

    /// Convenience method to check if an [`EthereumHardfork`] is active at a
    /// given timestamp.
    fn is_ethereum_fork_active_at_timestamp(&self, fork: EthereumHardfork, timestamp: u64) -> (r:
        bool)
        ensures
            r == spec_active_at_timestamp(self.spec_fork_activation(fork), timestamp),
    {
        self.ethereum_fork_activation(fork).active_at_timestamp(timestamp)
    }

    /// Convenience method to check if an [`EthereumHardfork`] is active at a
    /// given block number.
    fn is_ethereum_fork_active_at_block(&self, fork: EthereumHardfork, block_number: u64) -> (r:
        bool)
        ensures
            r == spec_active_at_block(self.spec_fork_activation(fork), block_number),
    {
        self.ethereum_fork_activation(fork).active_at_block(block_number)
    }

    /// Convenience method to check if [`EthereumHardfork::Homestead`] is
    /// active at a given block number.
    fn is_homestead_active_at_block(&self, block_number: u64) -> (r: bool)
        ensures
            r == spec_active_at_block(
                self.spec_fork_activation(EthereumHardfork::Homestead),
                block_number,
            ),
    {
        self.is_ethereum_fork_active_at_block(EthereumHardfork::Homestead, block_number)
    }

    /// Convenience method to check if [`EthereumHardfork::Tangerine`] is
    /// active at a given block number.
    fn is_tangerine_whistle_active_at_block(&self, block_number: u64) -> (r: bool)
        ensures
            r == spec_active_at_block(
                self.spec_fork_activation(EthereumHardfork::Tangerine),
                block_number,
            ),
    {
        self.is_ethereum_fork_active_at_block(EthereumHardfork::Tangerine, block_number)
    }

    /// Convenience method to check if [`EthereumHardfork::SpuriousDragon`]
    /// is active at a given block number.
    fn is_spurious_dragon_active_at_block(&self, block_number: u64) -> (r: bool)
        ensures
            r == spec_active_at_block(
                self.spec_fork_activation(EthereumHardfork::SpuriousDragon),
                block_number,
            ),
    {
        self.is_ethereum_fork_active_at_block(EthereumHardfork::SpuriousDragon, block_number)
    }

    /// Convenience method to check if [`EthereumHardfork::Byzantium`] is
    /// active at a given block number.
    fn is_byzantium_active_at_block(&self, block_number: u64) -> (r: bool)
        ensures
            r == spec_active_at_block(
                self.spec_fork_activation(EthereumHardfork::Byzantium),
                block_number,
            ),
    {
        self.is_ethereum_fork_active_at_block(EthereumHardfork::Byzantium, block_number)
    }

    /// Convenience method to check if [`EthereumHardfork::Constantinople`]
    /// is active at a given block number.
    fn is_constantinople_active_at_block(&self, block_number: u64) -> (r: bool)
        ensures
            r == spec_active_at_block(
                self.spec_fork_activation(EthereumHardfork::Constantinople),
                block_number,
            ),
    {
        self.is_ethereum_fork_active_at_block(EthereumHardfork::Constantinople, block_number)
    }

    /// Convenience method to check if [`EthereumHardfork::Petersburg`] is
    /// active at a given block number.
    fn is_petersburg_active_at_block(&self, block_number: u64) -> (r: bool)
        ensures
            r == spec_active_at_block(
                self.spec_fork_activation(EthereumHardfork::Petersburg),
                block_number,
            ),
    {
        self.is_ethereum_fork_active_at_block(EthereumHardfork::Petersburg, block_number)
    }

    /// Convenience method to check if [`EthereumHardfork::Istanbul`] is
    /// active at a given block number.
    fn is_istanbul_active_at_block(&self, block_number: u64) -> (r: bool)
        ensures
            r == spec_active_at_block(
                self.spec_fork_activation(EthereumHardfork::Istanbul),
                block_number,
            ),
    {
        self.is_ethereum_fork_active_at_block(EthereumHardfork::Istanbul, block_number)
    }

    /// Convenience method to check if [`EthereumHardfork::Berlin`] is
    /// active at a given block number.
    fn is_berlin_active_at_block(&self, block_number: u64) -> (r: bool)
        ensures
            r == spec_active_at_block(
                self.spec_fork_activation(EthereumHardfork::Berlin),
                block_number,
            ),
    {
        self.is_ethereum_fork_active_at_block(EthereumHardfork::Berlin, block_number)
    }

    /// Convenience method to check if [`EthereumHardfork::London`] is
    /// active at a given block number.
    fn is_london_active_at_block(&self, block_number: u64) -> (r: bool)
        ensures
            r == spec_active_at_block(
                self.spec_fork_activation(EthereumHardfork::London),
                block_number,
            ),
    {
        self.is_ethereum_fork_active_at_block(EthereumHardfork::London, block_number)
    }

    /// Convenience method to check if [`EthereumHardfork::Paris`] is active
    /// at a given block number.
    fn is_paris_active_at_block(&self, block_number: u64) -> (r: bool)
        ensures
            r == spec_active_at_block(
                self.spec_fork_activation(EthereumHardfork::Paris),
                block_number,
            ),
    {
        self.is_ethereum_fork_active_at_block(EthereumHardfork::Paris, block_number)
    }

    /// Convenience method to check if [`EthereumHardfork::Shanghai`] is
    /// active at a given timestamp.
    fn is_shanghai_active_at_timestamp(&self, timestamp: u64) -> (r: bool)
        ensures
            r == spec_active_at_timestamp(
                self.spec_fork_activation(EthereumHardfork::Shanghai),
                timestamp,
            ),
    {
        self.is_ethereum_fork_active_at_timestamp(EthereumHardfork::Shanghai, timestamp)
    }

    /// Convenience method to check if [`EthereumHardfork::Cancun`] is
    /// active at a given timestamp.
    fn is_cancun_active_at_timestamp(&self, timestamp: u64) -> (r: bool)
        ensures
            r == spec_active_at_timestamp(
                self.spec_fork_activation(EthereumHardfork::Cancun),
                timestamp,
            ),
    {
        self.is_ethereum_fork_active_at_timestamp(EthereumHardfork::Cancun, timestamp)
    }

    /// Convenience method to check if [`EthereumHardfork::Prague`] is
    /// active at a given timestamp.
    fn is_prague_active_at_timestamp(&self, timestamp: u64) -> (r: bool)
        ensures
            r == spec_active_at_timestamp(
                self.spec_fork_activation(EthereumHardfork::Prague),
                timestamp,
            ),
    {
        self.is_ethereum_fork_active_at_timestamp(EthereumHardfork::Prague, timestamp)
    }

    /// Convenience method to check if [`EthereumHardfork::Osaka`] is active
    /// at a given timestamp.
    fn is_osaka_active_at_timestamp(&self, timestamp: u64) -> (r: bool)
        ensures
            r == spec_active_at_timestamp(
                self.spec_fork_activation(EthereumHardfork::Osaka),
                timestamp,
            ),
    {
        self.is_ethereum_fork_active_at_timestamp(EthereumHardfork::Osaka, timestamp)
    }

    /// Convenience method to check if [`EthereumHardfork::Amsterdam`] is
    /// active at a given timestamp.
    fn is_amsterdam_active_at_timestamp(&self, timestamp: u64) -> (r: bool)
        ensures
            r == spec_active_at_timestamp(
                self.spec_fork_activation(EthereumHardfork::Amsterdam),
                timestamp,
            ),
    {
        self.is_ethereum_fork_active_at_timestamp(EthereumHardfork::Amsterdam, timestamp)
    }

    /// Convenience method to check if [`EthereumHardfork::Bpo1`] is active
    /// at a given timestamp.
    fn is_bpo1_active_at_timestamp(&self, timestamp: u64) -> (r: bool)
        ensures
            r == spec_active_at_timestamp(
                self.spec_fork_activation(EthereumHardfork::Bpo1),
                timestamp,
            ),
    {
        self.is_ethereum_fork_active_at_timestamp(EthereumHardfork::Bpo1, timestamp)
    }

    /// Convenience method to check if [`EthereumHardfork::Bpo2`] is active
    /// at a given timestamp.
    fn is_bpo2_active_at_timestamp(&self, timestamp: u64) -> (r: bool)
        ensures
            r == spec_active_at_timestamp(
                self.spec_fork_activation(EthereumHardfork::Bpo2),
                timestamp,
            ),
    {
        self.is_ethereum_fork_active_at_timestamp(EthereumHardfork::Bpo2, timestamp)
    }

    /// Convenience method to check if [`EthereumHardfork::Bpo3`] is active
    /// at a given timestamp.
    fn is_bpo3_active_at_timestamp(&self, timestamp: u64) -> (r: bool)
        ensures
            r == spec_active_at_timestamp(
                self.spec_fork_activation(EthereumHardfork::Bpo3),
                timestamp,
            ),
    {
        self.is_ethereum_fork_active_at_timestamp(EthereumHardfork::Bpo3, timestamp)
    }

    /// Convenience method to check if [`EthereumHardfork::Bpo4`] is active
    /// at a given timestamp.
    fn is_bpo4_active_at_timestamp(&self, timestamp: u64) -> (r: bool)
        ensures
            r == spec_active_at_timestamp(
                self.spec_fork_activation(EthereumHardfork::Bpo4),
                timestamp,
            ),
    {
        self.is_ethereum_fork_active_at_timestamp(EthereumHardfork::Bpo4, timestamp)
    }

    /// Convenience method to check if [`EthereumHardfork::Bpo5`] is active
    /// at a given timestamp.
    fn is_bpo5_active_at_timestamp(&self, timestamp: u64) -> (r: bool)
        ensures
            r == spec_active_at_timestamp(
                self.spec_fork_activation(EthereumHardfork::Bpo5),
                timestamp,
            ),
    {
        self.is_ethereum_fork_active_at_timestamp(EthereumHardfork::Bpo5, timestamp)
    }
}

/// An activation table: the [`ForkCondition`] for each [`EthereumHardfork`]
/// scheduled on one concrete chain, kept sorted in canonical order.
#[derive(Debug)]
pub struct EthereumChainHardforks {
    forks: Vec<(EthereumHardfork, ForkCondition)>,
}

impl View for EthereumChainHardforks {
    type V = Seq<(EthereumHardfork, ForkCondition)>;

    closed spec fn view(&self) -> Seq<(EthereumHardfork, ForkCondition)> {
        self.forks@
    }
}

impl EthereumChainHardforks {
    /// The table is kept in strictly increasing canonical order.
    #[verifier::type_invariant]
    spec fn wf(self) -> bool {
        spec_sorted_strict(self.forks@)
    }

    /// Creates a new [`EthereumChainHardforks`] with the given list of
    /// forks, sorted into canonical order.  Duplicate entries for one
    /// hardfork are a configuration defect and are rejected up front.
    pub fn new(forks: Vec<(EthereumHardfork, ForkCondition)>) -> (r: EthereumChainHardforks)
        requires
            spec_distinct_forks(forks@),
        ensures
            spec_sorted_strict(r@),
            r@.len() == forks@.len(),
            forall|q: (EthereumHardfork, ForkCondition)| r@.contains(q) <==> forks@.contains(q),
            forall|f: EthereumHardfork|
                spec_condition_of(r@, f) == spec_condition_of(forks@, f),
            spec_sorted_strict(forks@) ==> r@ == forks@,
    {
        let sorted = sort_forks(forks);
        EthereumChainHardforks { forks: sorted }
    }

    /// Creates a new [`EthereumChainHardforks`] with Mainnet configuration.
    pub fn mainnet() -> (r: EthereumChainHardforks)
        ensures
            r@ == EthereumHardfork::spec_mainnet_forks(),
    {
        proof {
            lemma_adjacent_sorted_is_sorted(EthereumHardfork::spec_mainnet_forks());
        }
        EthereumChainHardforks::new(EthereumHardfork::mainnet())
    }

    /// Creates a new [`EthereumChainHardforks`] with Sepolia configuration.
    pub fn sepolia() -> (r: EthereumChainHardforks)
        ensures
            r@ == EthereumHardfork::spec_sepolia_forks(),
    {
        proof {
            lemma_adjacent_sorted_is_sorted(EthereumHardfork::spec_sepolia_forks());
        }
        EthereumChainHardforks::new(EthereumHardfork::sepolia())
    }

    /// Creates a new [`EthereumChainHardforks`] with Holesky configuration.
    pub fn holesky() -> (r: EthereumChainHardforks)
        ensures
            r@ == EthereumHardfork::spec_holesky_forks(),
    {
        proof {
            lemma_adjacent_sorted_is_sorted(EthereumHardfork::spec_holesky_forks());
        }
        EthereumChainHardforks::new(EthereumHardfork::holesky())
    }

    /// Creates a new [`EthereumChainHardforks`] with Hoodi configuration.
    pub fn hoodi() -> (r: EthereumChainHardforks)
        ensures
            r@ == EthereumHardfork::spec_hoodi_forks(),
    {
        proof {
            lemma_adjacent_sorted_is_sorted(EthereumHardfork::spec_hoodi_forks());
        }
        EthereumChainHardforks::new(EthereumHardfork::hoodi())
    }

    /// Creates a new [`EthereumChainHardforks`] with development-network
    /// configuration.
    pub fn devnet() -> (r: EthereumChainHardforks)
        ensures
            r@ == EthereumHardfork::spec_devnet_forks(),
    {
        proof {
            lemma_adjacent_sorted_is_sorted(EthereumHardfork::spec_devnet_forks());
        }
        EthereumChainHardforks::new(EthereumHardfork::devnet())
    }
}

impl EthereumHardforks for EthereumChainHardforks {
    open spec fn spec_fork_activation(&self, fork: EthereumHardfork) -> ForkCondition {
        spec_condition_of(self@, fork)
    }

    fn ethereum_fork_activation(&self, fork: EthereumHardfork) -> (r: ForkCondition) {
        proof {
            use_type_invariant(self);
        }
        lookup_condition(&self.forks, fork)
    }
}

} // verus!
