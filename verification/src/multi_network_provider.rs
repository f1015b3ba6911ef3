//! One connection (or any other value) for each network.
use crate::contracts::network::Network;
use vstd::prelude::*;

verus! {

/// One provider per network, such as a signing connection to each network's RPC endpoint.
#[derive(Clone, Debug)]
pub struct MultiNetworkProvider<T> {
    anvil: T,
    sepolia: T,
    mainnet: T,
}

impl<T> MultiNetworkProvider<T> {
    /// The value kept for a network.
    pub closed spec fn spec_get(&self, network: Network) -> T {
        match network {
            Network::Anvil => self.anvil,
            Network::Sepolia => self.sepolia,
            Network::Mainnet => self.mainnet,
        }
    }

    pub fn new(anvil: T, sepolia: T, mainnet: T) -> (r: MultiNetworkProvider<T>)
        ensures
            r.spec_get(Network::Anvil) == anvil,
            r.spec_get(Network::Sepolia) == sepolia,
            r.spec_get(Network::Mainnet) == mainnet,
    {
        MultiNetworkProvider { anvil, sepolia, mainnet }
    }

    /// The value kept for `network`.
    pub fn get_provider(&self, network: Network) -> (r: &T)
        ensures
            *r == self.spec_get(network),
    {
        match network {
            Network::Anvil => &self.anvil,
            Network::Sepolia => &self.sepolia,
            Network::Mainnet => &self.mainnet,
        }
    }
}

} // verus!
