//! Ethereum chain hardfork starting points.

pub mod holesky;
pub mod hoodi;
pub mod mainnet;
pub mod sepolia;
