use worm_miner::cli_args::{eth_address_parser, eth_amount_parser};
use worm_miner::contracts::beth_to_eth::BETHToETHContract;
use worm_miner::contracts::network::{Network, NetworkError};

fn hex(bytes: &[u8]) -> String {
    alloy::hex::encode_prefixed(bytes)
}

#[test]
fn swap_hook_test() {
    assert_eq!(
        hex(&BETHToETHContract::create_swap_hook(
            Network::Mainnet,
            eth_amount_parser("0.0005").unwrap(),
            eth_address_parser("0x59Cd66cbb73D99e126Fa557E588f3d8dE8011b2C").unwrap(),
            None,
        )
        .unwrap()),
        "0x000000000000000000000000ba5a285806c343aad955a40fe4b6e5e607b752b60000000000000000000000000000000000000000000000000001c6bf52634000000000000000000000000000000000000000000000000000000000000000006000000000000000000000000000000000000000000000000000000000000000441d20dd830000000000000000000000000000000000000000000000000001c6bf5263400000000000000000000000000059cd66cbb73d99e126fa557e588f3d8de8011b2c00000000000000000000000000000000000000000000000000000000".to_string()
    )
}

#[test]
fn swap_calldata_is_selector_then_arguments() {
    let call = BETHToETHContract::create_swap_beth_with_eth_calldata(
        eth_amount_parser("1").unwrap(),
        eth_address_parser("0x0000000000000000000000000000000000000001").unwrap(),
    );
    assert_eq!(call.len(), 4 + 64);
    assert_eq!(
        hex(&call),
        "0x1d20dd830000000000000000000000000000000000000000000000000de0b6b3a76400000000000000000000000000000000000000000000000000000000000000000001"
    );
}

#[test]
fn swap_hook_on_anvil_uses_given_address() {
    let hook = BETHToETHContract::create_swap_hook(
        Network::Anvil,
        eth_amount_parser("0").unwrap(),
        eth_address_parser("0x0000000000000000000000000000000000000002").unwrap(),
        Some("0x00000000000000000000000000000000000000aa"),
    )
    .unwrap();
    assert_eq!(&hex(&hook[..32]), "0x00000000000000000000000000000000000000000000000000000000000000aa");
}

#[test]
fn swap_hook_with_bad_anvil_address_fails() {
    let r = BETHToETHContract::create_swap_hook(
        Network::Anvil,
        eth_amount_parser("1").unwrap(),
        eth_address_parser("0x0000000000000000000000000000000000000002").unwrap(),
        Some("not an address"),
    );
    match r {
        Err(NetworkError::InvalidContractAddress { contract, address, .. }) => {
            assert_eq!(contract, "BETHToETH");
            assert_eq!(address, "not an address");
        }
        _ => panic!("expected an invalid address error"),
    }
}

#[test]
fn swap_hook_is_seven_words() {
    let hook = BETHToETHContract::create_swap_hook(
        Network::Anvil,
        eth_amount_parser("2").unwrap(),
        eth_address_parser("0x0000000000000000000000000000000000000002").unwrap(),
        Some("0x00000000000000000000000000000000000000aa"),
    )
    .unwrap();
    assert_eq!(hook.len(), 224);
}
