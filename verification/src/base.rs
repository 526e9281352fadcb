//! Base chain hardfork starting points.

pub mod mainnet;
pub mod sepolia;
