//! Hardfork activation resolution for Ethereum-style chains.
//!
//! The crate answers one question: given a chain and a point in its history
//! (a block number, a timestamp, or an accumulated proof-of-work difficulty),
//! which protocol rule-set is active?  Activation rules are described by
//! [`ForkCondition`] values, collected per chain into ordered tables, and for
//! rollup chains projected back onto the base chain's hardfork namespace.

pub mod arbitrum;
pub mod base;
pub mod chain;
pub mod condition;
pub mod error;
pub mod ethereum;
pub mod hardfork;
pub mod names;
pub mod op;
pub mod optimism;
pub mod table;

pub use chain::Chain;
pub use condition::ForkCondition;
pub use error::ParseHardforkError;
pub use hardfork::Hardfork;
pub use hardfork::ethereum::{EthereumChainHardforks, EthereumHardfork, EthereumHardforks};
pub use op::{OpChainHardforks, OpHardfork, OpHardforks};
