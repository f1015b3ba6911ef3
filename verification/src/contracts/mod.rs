//! The WORM contracts: where they live on each network and the calls made to them.
pub mod beth;
pub mod beth_to_eth;
pub mod network;
