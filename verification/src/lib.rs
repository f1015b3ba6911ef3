//! Verified core of the WORM miner: amounts and addresses, the WORM contracts'
//! addresses and call data, burn and mint bookkeeping, and the proving server's
//! job registry and request checks.
pub mod abi;
pub mod address;
pub mod burn_output;
pub mod cli_args;
pub mod contracts;
pub mod ether_text_laws;
pub mod keyed_list;
pub mod mint;
pub mod participate;
pub mod multi_network_provider;
pub mod server;
pub mod text;
pub mod u256;
pub mod units;
