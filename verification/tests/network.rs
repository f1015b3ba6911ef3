use worm_miner::contracts::network::{Network, NetworkError, WormContractKind};

#[test]
fn names_read_back_as_the_same_network() {
    for n in [Network::Anvil, Network::Sepolia, Network::Mainnet] {
        assert_eq!(Network::try_from_name(n.name()).unwrap(), n);
    }
    assert_eq!(Network::Sepolia.name(), "sepolia");
}

#[test]
fn unknown_network_name_is_refused() {
    match Network::try_from_name("Mainnet") {
        Err(NetworkError::InvalidNetwork(v)) => assert_eq!(v, "Mainnet"),
        _ => panic!("expected an error"),
    }
    assert!(Network::try_from_name("").is_err());
}

#[test]
fn default_network_is_mainnet() {
    assert_eq!(Network::default(), Network::Mainnet);
}

#[test]
fn urls() {
    assert_eq!(Network::Anvil.url(), "http://127.0.0.1:8545");
    assert_eq!(Network::Sepolia.url(), "https://sepolia.drpc.org");
    assert_eq!(Network::Mainnet.url(), "https://eth.drpc.org");
}

#[test]
fn deployed_addresses() {
    let a = Network::Sepolia.beth_address(None).unwrap();
    assert_eq!(alloy::hex::encode(a.bytes), "98b9b8879ec255dfcfa55df19d9ffc0987d68064");
    let b = Network::Mainnet.beth_to_eth_address(None).unwrap();
    assert_eq!(alloy::hex::encode(b.bytes), "ba5a285806c343aad955a40fe4b6e5e607b752b6");
    let s = Network::Sepolia.staking_address(None).unwrap();
    assert_eq!(alloy::hex::encode(s.bytes), "0116e4bdc0282419e58af45db79233fb7cf02663");
    let w = Network::Sepolia.worm_address(None).unwrap();
    assert_eq!(alloy::hex::encode(w.bytes), "0ed61b3696f0daffae01e7eea22711e7860b1118");
}

#[test]
fn mainnet_worm_and_staking_are_not_deployed() {
    match Network::Mainnet.worm_address(None) {
        Err(NetworkError::InvalidContractAddress { contract, address, message }) => {
            assert_eq!(contract, "worm");
            assert_eq!(address, "todo");
            assert!(!message.is_empty());
        }
        _ => panic!("expected an error"),
    }
    assert!(Network::Mainnet.staking_address(None).is_err());
}

#[test]
fn anvil_addresses_come_from_the_caller() {
    let a = Network::Anvil
        .beth_address(Some("0X00000000000000000000000000000000000000Ff"))
        .unwrap();
    assert_eq!(a.bytes[19], 0xff);
    assert!(Network::Anvil.worm_address(Some("0x1234")).is_err());
    assert_eq!(Network::anvil_env_var(WormContractKind::Staking), "ANVIL_STAKING_ADDRESS");
    assert_eq!(Network::anvil_env_var(WormContractKind::BethToEth), "ANVIL_BETH_TO_ETH_ADDRESS");
}
