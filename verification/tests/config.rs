use worm_miner::server::config::{Config, ConfigError};
use worm_miner::server::handlers::ProofGetResponse;
use worm_miner::u256::U256;

#[test]
fn default_config_values() {
    let c = Config::default();
    assert_eq!(c.prover_fee_share_inv, 20);
    assert_eq!(c.min_prover_fee, U256::from_u64(1_000_000_000_000_000));
    assert_eq!(c.min_broadcaster_fee, U256::from_u64(1_000_000_000_000_000));
    assert_eq!(c.port, 8080);
    assert_eq!(c.private_key, [0u8; 32]);
}

#[test]
fn default_config_is_refused_until_the_key_is_set() {
    let mut c = Config::default();
    assert_eq!(c.check_private_key(), Err(ConfigError::ZeroPrivateKey));
    assert!(c.signer_address().is_none());
    c.private_key[31] = 1;
    assert_eq!(c.check_private_key(), Ok(()));
}

#[test]
fn key_one_controls_its_well_known_address() {
    let mut c = Config::default();
    c.private_key[31] = 1;
    let a = c.signer_address().unwrap();
    assert_eq!(alloy::hex::encode(a.bytes), "7e5f4552091a69125d5dfcb7b8c2659029395bdf");
    assert_eq!(c.address().bytes, a.bytes);
    let r = ProofGetResponse::new(&c, a);
    assert_eq!(r.prover_fee_share_inv, 20);
    assert_eq!(r.min_prover_fee, c.min_prover_fee);
    assert_eq!(r.prover_address.bytes, a.bytes);
}

#[test]
fn key_above_the_group_order_is_not_a_key() {
    let mut c = Config::default();
    c.private_key = [0xff; 32];
    assert!(c.signer_address().is_none());
}
