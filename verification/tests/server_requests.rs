use worm_miner::cli_args::eth_address_parser;
use worm_miner::contracts::beth::{Groth16Proof, RapidsnarkOutput};
use worm_miner::contracts::network::Network;
use worm_miner::participate::ParticipateOutputJson;
use worm_miner::multi_network_provider::MultiNetworkProvider;
use worm_miner::server::cached_proof::Proof;
use worm_miner::server::config::Config;
use worm_miner::server::error::ServerError;
use worm_miner::server::handlers::{
    admit_proof_request, check_network_supported, check_proof_request, check_prover_fee, parse_nullifier,
    relay_mint_params, RelayPostRequest,
};
use worm_miner::server::jobs::{ProofJobs, SubmitPlan};
use worm_miner::u256::U256;

fn u(x: u64) -> U256 {
    U256::from_u64(x)
}

fn request(broadcaster_fee: u64) -> RelayPostRequest {
    let z = u(1);
    RelayPostRequest {
        network: Network::Mainnet,
        proof: Proof::new(u(55), RapidsnarkOutput { proof: Groth16Proof { pi_a: [z; 3], pi_b: [[u(2), u(3)]; 3], pi_c: [z; 3] } }),
        nullifier: u(8),
        remaining_coin: u(9),
        broadcaster_fee: u(broadcaster_fee),
        reveal_amount: u(500),
        receiver: eth_address_parser("0x00000000000000000000000000000000000000cc").unwrap(),
        prover_fee: u(4),
        swap_calldata: vec![9, 9],
    }
}

#[test]
fn nullifiers_are_read_in_base_ten() {
    assert_eq!(parse_nullifier("12345").unwrap(), u(12345));
    assert_eq!(parse_nullifier("1_000").unwrap(), u(1000));
    assert_eq!(parse_nullifier("").unwrap(), u(0));
    match parse_nullifier("0x10") {
        Err(ServerError::Validation { field, value, message }) => {
            assert_eq!(field, "nullifier");
            assert_eq!(value, "0x10");
            assert!(!message.is_empty());
        }
        _ => panic!("expected a validation error"),
    }
}

#[test]
fn sepolia_is_not_proved() {
    assert!(matches!(
        check_network_supported(Network::Sepolia),
        Err(ServerError::InvalidAction("sepolia network is not supported"))
    ));
    assert!(check_network_supported(Network::Mainnet).is_ok());
    assert!(check_network_supported(Network::Anvil).is_ok());
}

#[test]
fn prover_fee_must_reach_the_minimum() {
    let c = Config::default();
    assert!(matches!(
        check_prover_fee(&u(999_999_999_999_999), &u(0), &c),
        Err(ServerError::InvalidAction("prover fee is too low"))
    ));
    assert!(check_prover_fee(&u(1_000_000_000_000_000), &u(0), &c).is_ok());
    // A burn of 0.02 ether asks for 0.001 ether at a twentieth: the minimum rules.
    assert!(check_prover_fee(&u(1_000_000_000_000_000), &u(20_000_000_000_000_000), &c).is_ok());
}

#[test]
fn prover_fee_must_reach_the_share_of_the_burn() {
    let c = Config::default();
    let one_ether = u(1_000_000_000_000_000_000);
    assert_eq!(c.required_prover_fee(&one_ether), u(50_000_000_000_000_000));
    assert!(matches!(
        check_prover_fee(&u(10_000_000_000_000_000), &one_ether, &c),
        Err(ServerError::InvalidAction("prover fee is too low"))
    ));
    assert!(matches!(
        check_prover_fee(&u(49_999_999_999_999_999), &one_ether, &c),
        Err(ServerError::InvalidAction("prover fee is too low"))
    ));
    assert!(check_prover_fee(&u(50_000_000_000_000_000), &one_ether, &c).is_ok());
}

#[test]
fn zero_share_leaves_only_the_minimum() {
    let mut c = Config::default();
    c.prover_fee_share_inv = 0;
    let one_ether = u(1_000_000_000_000_000_000);
    assert_eq!(c.required_prover_fee(&one_ether), u(1_000_000_000_000_000));
    assert!(check_prover_fee(&u(1_000_000_000_000_000), &one_ether, &c).is_ok());
}

#[test]
fn sepolia_is_refused_before_the_fee() {
    let c = Config::default();
    assert!(matches!(
        check_proof_request(Network::Sepolia, &u(0), &u(1_000_000_000_000_000_000), &c),
        Err(ServerError::InvalidAction("sepolia network is not supported"))
    ));
    assert!(matches!(
        check_proof_request(Network::Mainnet, &u(0), &u(0), &c),
        Err(ServerError::InvalidAction("prover fee is too low"))
    ));
    assert!(check_proof_request(Network::Mainnet, &u(1_000_000_000_000_000), &u(0), &c).is_ok());
}

#[test]
fn refused_proof_request_leaves_the_registry() {
    let c = Config::default();
    let mut jobs = ProofJobs::new();
    let fee = u(1_000_000_000_000_000);
    assert!(matches!(
        admit_proof_request(&mut jobs, Network::Mainnet, &u(1), &u(0), &c, Ok(u(5))),
        Err(ServerError::InvalidAction("prover fee is too low"))
    ));
    assert!(matches!(
        admit_proof_request(&mut jobs, Network::Mainnet, &fee, &u(0), &c, Err(ServerError::Unexpected("bad account proof".to_string()))),
        Err(ServerError::Unexpected(m)) if m == "bad account proof"
    ));
    assert_eq!(jobs.next_job_id(), 0);
    assert_eq!(jobs.job_of(&u(5)), None);
    let plan = admit_proof_request(&mut jobs, Network::Mainnet, &fee, &u(0), &c, Ok(u(5))).unwrap();
    assert_eq!(plan, SubmitPlan::Enqueue { job_id: 0 });
    assert!(jobs.finish_submission(u(5), plan, Ok(())).is_ok());
    assert_eq!(jobs.job_of(&u(5)), Some(0));
    assert_eq!(jobs.next_job_id(), 1);
}

#[test]
fn relay_refuses_a_low_broadcaster_fee() {
    let me = eth_address_parser("0x00000000000000000000000000000000000000dd").unwrap();
    assert!(matches!(
        relay_mint_params(request(99), &u(100), me),
        Err(ServerError::InvalidAction("broadcaster fee is too low"))
    ));
}

#[test]
fn relay_mints_with_the_server_as_prover() {
    let me = eth_address_parser("0x00000000000000000000000000000000000000dd").unwrap();
    let p = relay_mint_params(request(100), &u(100), me).unwrap();
    assert_eq!(p.block_number, u(55));
    assert_eq!(p.p_b, [[u(3), u(2)], [u(3), u(2)]]);
    assert_eq!(p.nullifier, u(8));
    assert_eq!(p.remaining_coin, u(9));
    assert_eq!(p.broadcaster_fee, u(100));
    assert_eq!(p.revealed_amount, u(500));
    assert_eq!(p.prover_fee, u(4));
    assert_eq!(p.prover.bytes[19], 0xdd);
    assert_eq!(p.revealed_amount_receiver.bytes[19], 0xcc);
    assert_eq!(p.receiver_post_mint_hook, vec![9, 9]);
}

#[test]
fn participation_records_one_extra_epoch() {
    let r = ParticipateOutputJson::for_participation(u(12), 10);
    assert_eq!(r.starting_epoch(), u(12));
    assert_eq!(r.number_of_epochs(), 11);
    let plain = ParticipateOutputJson::new(u(3), 4);
    assert_eq!(plain.starting_epoch(), u(3));
    assert_eq!(plain.number_of_epochs(), 4);
}

#[test]
fn per_network_values_are_picked_by_network() {
    let p = MultiNetworkProvider::new("a", "s", "m");
    assert_eq!(*p.get_provider(Network::Anvil), "a");
    assert_eq!(*p.get_provider(Network::Sepolia), "s");
    assert_eq!(*p.get_provider(Network::Mainnet), "m");
}
