use worm_miner::burn_output::{BurnOutput, ExtraCommitment};
use worm_miner::cli_args::eth_address_parser;
use worm_miner::contracts::beth::{mint_params, Groth16Proof, RapidsnarkOutput};
use worm_miner::contracts::network::Network;
use worm_miner::mint::mint_call;
use worm_miner::u256::U256;

fn u(x: u64) -> U256 {
    U256::from_u64(x)
}

fn sample_proof() -> RapidsnarkOutput {
    RapidsnarkOutput {
        proof: Groth16Proof {
            pi_a: [u(1), u(2), u(1)],
            pi_b: [[u(3), u(4)], [u(5), u(6)], [u(1), u(0)]],
            pi_c: [u(7), u(8), u(1)],
        },
    }
}

fn burn(burn_amount: u64, reveal: u64) -> BurnOutput {
    BurnOutput::new(
        Network::Sepolia,
        u(42),
        u(burn_amount),
        u(reveal),
        ExtraCommitment {
            broadcaster_fee: u(10),
            prover_fee: u(20),
            receiver: eth_address_parser("0x00000000000000000000000000000000000000aa").unwrap(),
        },
        vec![1, 2, 3],
    )
}

#[test]
fn mint_params_swap_the_b_coefficients() {
    let a = eth_address_parser("0x0000000000000000000000000000000000000001").unwrap();
    let p = mint_params(sample_proof(), u(9), u(1), u(2), u(3), u(4), a, u(5), a, vec![], vec![7], vec![]);
    assert_eq!(p.p_a, [u(1), u(2)]);
    assert_eq!(p.p_b, [[u(4), u(3)], [u(6), u(5)]]);
    assert_eq!(p.p_c, [u(7), u(8)]);
    assert_eq!(p.block_number, u(9));
    assert_eq!(p.revealed_amount, u(4));
    assert_eq!(p.broadcaster_fee_post_mint_hook, vec![7]);
}

#[test]
fn mint_call_takes_amounts_and_fees_from_the_burn() {
    let b = burn(1000, 600);
    let prover = eth_address_parser("0x00000000000000000000000000000000000000bb").unwrap();
    let p = mint_call(&b, sample_proof(), 77, u(5), u(6), prover);
    assert_eq!(p.block_number, u(77));
    assert_eq!(p.nullifier, u(5));
    assert_eq!(p.remaining_coin, u(6));
    assert_eq!(p.broadcaster_fee, u(10));
    assert_eq!(p.prover_fee, u(20));
    assert_eq!(p.revealed_amount, u(600));
    assert_eq!(p.revealed_amount_receiver.bytes[19], 0xaa);
    assert_eq!(p.prover.bytes[19], 0xbb);
    assert_eq!(p.receiver_post_mint_hook, vec![1, 2, 3]);
    assert!(p.broadcaster_fee_post_mint_hook.is_empty());
    assert!(p.prover_fee_post_mint_hook.is_empty());
}

#[test]
fn remaining_note_keeps_the_unrevealed_amount() {
    let note = burn(1000, 600).remaining_note();
    assert_eq!(note.amount, u(400));
    assert_eq!(note.burn_key, u(42));
    assert_eq!(note.network, Network::Sepolia);
    assert_eq!(burn(5, 5).remaining_note().amount, u(0));
    assert_eq!(
        burn(0, 1).remaining_note().amount,
        U256 { l0: u64::MAX, l1: u64::MAX, l2: u64::MAX, l3: u64::MAX }
    );
}
