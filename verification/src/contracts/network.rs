//! The Ethereum networks WORM runs on, their RPC endpoints and the
//! addresses of the WORM contracts deployed on each.
use crate::address::{decode_hex_address, hex_address_error_text, parse_hex_address, Address};
use crate::text::{text_eq, text_to_owned};
use vstd::prelude::*;

verus! {

/// A network the miner can talk to.
#[derive(Clone, Copy, Debug, PartialEq, Eq, Structural, Hash)]
pub enum Network {
    Anvil,
    Sepolia,
    Mainnet,
}

/// The WORM contracts whose address depends on the network.
#[derive(Clone, Copy, Debug, PartialEq, Eq, Structural)]
pub enum WormContractKind {
    Beth,
    Worm,
    Staking,
    BethToEth,
}

/// Errors about networks and their contract addresses.
#[derive(Debug)]
pub enum NetworkError {
    /// The text names no network.
    InvalidNetwork(String),
    /// The address configured for a contract is not a valid hex address.
    /// `message` is the hex decoder's account of what is wrong.
    InvalidContractAddress { contract: &'static str, address: String, message: String },
}

/// The lowercase name of a network, as written on the command line and in JSON.
pub open spec fn network_name(n: Network) -> Seq<char> {
    match n {
        Network::Anvil => "anvil"@,
        Network::Sepolia => "sepolia"@,
        Network::Mainnet => "mainnet"@,
    }
}

/// The network a name stands for, if any.
pub open spec fn network_from_name(s: Seq<char>) -> Option<Network> {
    if s == "anvil"@ {
        Some(Network::Anvil)
    } else if s == "sepolia"@ {
        Some(Network::Sepolia)
    } else if s == "mainnet"@ {
        Some(Network::Mainnet)
    } else {
        None
    }
}

/// The JSON-RPC endpoint of a network.
pub open spec fn network_url(n: Network) -> Seq<char> {
    match n {
        Network::Anvil => "http://127.0.0.1:8545"@,
        Network::Sepolia => "https://sepolia.drpc.org"@,
        Network::Mainnet => "https://eth.drpc.org"@,
    }
}

/// The address text recorded for a contract on a public network; on Anvil
/// the address comes from the environment instead.
pub open spec fn deployed_address_text(n: Network, c: WormContractKind) -> Seq<char> {
    match (n, c) {
        (Network::Sepolia, WormContractKind::Beth) => "0x98B9b8879EC255dfcfA55dF19d9FFc0987d68064"@,
        (Network::Mainnet, WormContractKind::Beth) => "0x5624344235607940d4d4EE76Bf8817d403EB9Cf8"@,
        (Network::Sepolia, WormContractKind::Worm) => "0x0eD61b3696F0dafFaE01E7EEA22711E7860b1118"@,
        (Network::Mainnet, WormContractKind::Worm) => "todo"@,
        (Network::Sepolia, WormContractKind::Staking) => "0x0116E4bDc0282419e58Af45dB79233Fb7cF02663"@,
        (Network::Mainnet, WormContractKind::Staking) => "todo"@,
        (Network::Sepolia, WormContractKind::BethToEth) => "0xB41bD692C004672aCaDbD7162c84b4381A58cFeC"@,
        (Network::Mainnet, WormContractKind::BethToEth) => "0xbA5A285806c343AaD955a40FE4b6e5e607B752b6"@,
        _ => Seq::empty(),
    }
}

/// The name a contract goes by in error messages.
pub open spec fn contract_label(c: WormContractKind) -> Seq<char> {
    match c {
        WormContractKind::Beth => "beth"@,
        WormContractKind::Worm => "worm"@,
        WormContractKind::Staking => "staking"@,
        WormContractKind::BethToEth => "BETHToETH"@,
    }
}

/// The address text a lookup parses: the Anvil value on Anvil, the recorded one elsewhere.
pub open spec fn address_text(n: Network, c: WormContractKind, anvil_address: Option<Seq<char>>) -> Seq<char> {
    if n is Anvil {
        anvil_address.unwrap()
    } else {
        deployed_address_text(n, c)
    }
}

/// What looking up a contract's address yields: the decoded address, or an
/// error naming the contract and the text that did not parse.
pub open spec fn contract_address_result(
    n: Network,
    c: WormContractKind,
    anvil_address: Option<Seq<char>>,
    r: Result<Address, NetworkError>,
) -> bool {
    let text = address_text(n, c, anvil_address);
    match decode_hex_address(text) {
        Some(b) => r matches Ok(a) && a@ == b,
        None => r matches Err(NetworkError::InvalidContractAddress { contract, address, message })
            && contract@ == contract_label(c) && address@ == text && message@ == hex_address_error_text(text),
    }
}

impl Default for Network {
    fn default() -> (r: Network)
        ensures
            r == Network::Mainnet,
    {
        Network::Mainnet
    }
}

impl Network {
    /// The lowercase name of the network.
    pub fn name(&self) -> (r: &'static str)
        ensures
            r@ == network_name(*self),
    {
        match self {
            Network::Anvil => "anvil",
            Network::Sepolia => "sepolia",
            Network::Mainnet => "mainnet",
        }
    }

    /// Parses a network name; only the three lowercase names are accepted.
    pub fn try_from_name(value: &str) -> (r: Result<Network, NetworkError>)
        ensures
            match network_from_name(value@) {
                Some(n) => r == Ok::<Network, NetworkError>(n),
                None => r matches Err(NetworkError::InvalidNetwork(v)) && v@ == value@,
            },
    {
        if text_eq(value, "anvil") {
            Ok(Network::Anvil)
        } else if text_eq(value, "sepolia") {
            Ok(Network::Sepolia)
        } else if text_eq(value, "mainnet") {
            Ok(Network::Mainnet)
        } else {
            Err(NetworkError::InvalidNetwork(text_to_owned(value)))
        }
    }

    /// The JSON-RPC endpoint of the network.
    pub fn url(&self) -> (r: &'static str)
        ensures
            r@ == network_url(*self),
    {
        match self {
            Network::Anvil => "http://127.0.0.1:8545",
            Network::Sepolia => "https://sepolia.drpc.org",
            Network::Mainnet => "https://eth.drpc.org",
        }
    }

    /// The environment variable that holds a contract's address on Anvil.
    pub fn anvil_env_var(contract: WormContractKind) -> (r: &'static str)
        ensures
            r@ == match contract {
                WormContractKind::Beth => "ANVIL_BETH_ADDRESS"@,
                WormContractKind::Worm => "ANVIL_WORM_ADDRESS"@,
                WormContractKind::Staking => "ANVIL_STAKING_ADDRESS"@,
                WormContractKind::BethToEth => "ANVIL_BETH_TO_ETH_ADDRESS"@,
            },
    {
        match contract {
            WormContractKind::Beth => "ANVIL_BETH_ADDRESS",
            WormContractKind::Worm => "ANVIL_WORM_ADDRESS",
            WormContractKind::Staking => "ANVIL_STAKING_ADDRESS",
            WormContractKind::BethToEth => "ANVIL_BETH_TO_ETH_ADDRESS",
        }
    }

    /// The address of a WORM contract on this network. On Anvil the address is
    /// the value of the contract's environment variable, which the caller reads
    /// and hands over as `anvil_address`; it must be there.
    pub fn contract_address(&self, contract: WormContractKind, anvil_address: Option<&str>) -> (r:
        Result<Address, NetworkError>)
        requires
            *self is Anvil ==> anvil_address is Some,
        ensures
            contract_address_result(*self, contract, opt_view(anvil_address), r),
    {
        let text: &str = match self {
            Network::Anvil => anvil_address.unwrap(),
            Network::Sepolia => match contract {
                WormContractKind::Beth => "0x98B9b8879EC255dfcfA55dF19d9FFc0987d68064",
                WormContractKind::Worm => "0x0eD61b3696F0dafFaE01E7EEA22711E7860b1118",
                WormContractKind::Staking => "0x0116E4bDc0282419e58Af45dB79233Fb7cF02663",
                WormContractKind::BethToEth => "0xB41bD692C004672aCaDbD7162c84b4381A58cFeC",
            },
            Network::Mainnet => match contract {
                WormContractKind::Beth => "0x5624344235607940d4d4EE76Bf8817d403EB9Cf8",
                WormContractKind::Worm => "todo",
                WormContractKind::Staking => "todo",
                WormContractKind::BethToEth => "0xbA5A285806c343AaD955a40FE4b6e5e607B752b6",
            },
        };
        let label: &'static str = match contract {
            WormContractKind::Beth => "beth",
            WormContractKind::Worm => "worm",
            WormContractKind::Staking => "staking",
            WormContractKind::BethToEth => "BETHToETH",
        };
        match parse_hex_address(text) {
            Ok(a) => Ok(a),
            Err(message) => Err(
                NetworkError::InvalidContractAddress { contract: label, address: text_to_owned(text), message },
            ),
        }
    }

    /// The address of the BETH token contract.
    pub fn beth_address(&self, anvil_address: Option<&str>) -> (r: Result<Address, NetworkError>)
        requires
            *self is Anvil ==> anvil_address is Some,
        ensures
            contract_address_result(*self, WormContractKind::Beth, opt_view(anvil_address), r),
    {
        self.contract_address(WormContractKind::Beth, anvil_address)
    }

    /// The address of the WORM token contract.
    pub fn worm_address(&self, anvil_address: Option<&str>) -> (r: Result<Address, NetworkError>)
        requires
            *self is Anvil ==> anvil_address is Some,
        ensures
            contract_address_result(*self, WormContractKind::Worm, opt_view(anvil_address), r),
    {
        self.contract_address(WormContractKind::Worm, anvil_address)
    }

    /// The address of the staking contract.
    pub fn staking_address(&self, anvil_address: Option<&str>) -> (r: Result<Address, NetworkError>)
        requires
            *self is Anvil ==> anvil_address is Some,
        ensures
            contract_address_result(*self, WormContractKind::Staking, opt_view(anvil_address), r),
    {
        self.contract_address(WormContractKind::Staking, anvil_address)
    }

    /// The address of the BETH-to-ETH swap contract.
    pub fn beth_to_eth_address(&self, anvil_address: Option<&str>) -> (r: Result<Address, NetworkError>)
        requires
            *self is Anvil ==> anvil_address is Some,
        ensures
            contract_address_result(*self, WormContractKind::BethToEth, opt_view(anvil_address), r),
    {
        self.contract_address(WormContractKind::BethToEth, anvil_address)
    }
}

/// The characters of an optional string.
pub open spec fn opt_view(s: Option<&str>) -> Option<Seq<char>> {
    match s {
        Some(t) => Some(t@),
        None => None,
    }
}

/// Where the WORM contracts live. On Sepolia all four are deployed; on
/// Mainnet BETH and BETH-to-ETH are, while WORM and staking are not yet:
/// their recorded text "todo" is no address, so looking them up fails.
pub proof fn law_recorded_contract_addresses(n: Network, c: WormContractKind)
    ensures
        n is Sepolia && c is Beth ==> deployed_address_text(n, c) == "0x98B9b8879EC255dfcfA55dF19d9FFc0987d68064"@,
        n is Sepolia && c is Worm ==> deployed_address_text(n, c) == "0x0eD61b3696F0dafFaE01E7EEA22711E7860b1118"@,
        n is Sepolia && c is Staking ==> deployed_address_text(n, c) == "0x0116E4bDc0282419e58Af45dB79233Fb7cF02663"@,
        n is Sepolia && c is BethToEth ==> deployed_address_text(n, c) == "0xB41bD692C004672aCaDbD7162c84b4381A58cFeC"@,
        n is Mainnet && c is Beth ==> deployed_address_text(n, c) == "0x5624344235607940d4d4EE76Bf8817d403EB9Cf8"@,
        n is Mainnet && c is BethToEth ==> deployed_address_text(n, c) == "0xbA5A285806c343AaD955a40FE4b6e5e607B752b6"@,
        n is Mainnet && (c is Worm || c is Staking) ==> deployed_address_text(n, c) == "todo"@
            && decode_hex_address(deployed_address_text(n, c)) is None,
{
    reveal_strlit("todo");
}

/// The names networks go by, the endpoints the miner talks to, and the
/// labels contracts are named by in errors.
pub proof fn law_network_names_endpoints_and_labels(n: Network, c: WormContractKind)
    ensures
        n is Anvil ==> network_name(n) == "anvil"@ && network_url(n) == "http://127.0.0.1:8545"@,
        n is Sepolia ==> network_name(n) == "sepolia"@ && network_url(n) == "https://sepolia.drpc.org"@,
        n is Mainnet ==> network_name(n) == "mainnet"@ && network_url(n) == "https://eth.drpc.org"@,
        c is Beth ==> contract_label(c) == "beth"@,
        c is Worm ==> contract_label(c) == "worm"@,
        c is Staking ==> contract_label(c) == "staking"@,
        c is BethToEth ==> contract_label(c) == "BETHToETH"@,
        network_from_name("anvil"@) == Some(Network::Anvil),
        network_from_name("sepolia"@) == Some(Network::Sepolia),
        network_from_name("mainnet"@) == Some(Network::Mainnet),
{
    reveal_strlit("anvil");
    reveal_strlit("sepolia");
    reveal_strlit("mainnet");
    assert("anvil"@[0] != "sepolia"@[0]);
    assert("anvil"@[0] != "mainnet"@[0]);
    assert("sepolia"@[0] != "mainnet"@[0]);
}

/// A network's name reads back as the same network.
pub proof fn lemma_name_round_trip(n: Network)
    ensures
        network_from_name(network_name(n)) == Some(n),
{
    reveal_strlit("anvil");
    reveal_strlit("sepolia");
    reveal_strlit("mainnet");
    assert("anvil"@[0] != "sepolia"@[0]);
    assert("anvil"@[0] != "mainnet"@[0]);
    assert("sepolia"@[0] != "mainnet"@[0]);
}

} // verus!
