//! Minting BETH from a burn: the `mintCoin` call that redeems a proof of burn.
use crate::address::Address;
use crate::burn_output::BurnOutput;
use crate::contracts::beth::{mint_params, proof_points_match, MintParams, RapidsnarkOutput};
use crate::u256::U256;
use vstd::prelude::*;

verus! {

/// The `mintCoin` arguments for redeeming `burn_output` with a proof made
/// against `block_number`: the burn's revealed amount goes to its receiver,
/// the committed fees to the broadcaster and to `prover_address`, and only
/// the receiver's hook is set.
pub fn mint_call(
    burn_output: &BurnOutput,
    proof: RapidsnarkOutput,
    block_number: u64,
    nullifier: U256,
    remaining_coin: U256,
    prover_address: Address,
) -> (r: MintParams)
    ensures
        proof_points_match(r, proof.proof),
        r.block_number@ == block_number,
        r.nullifier == nullifier,
        r.remaining_coin == remaining_coin,
        r.broadcaster_fee == burn_output.extra_commitment.broadcaster_fee,
        r.revealed_amount == burn_output.reveal_amount,
        r.revealed_amount_receiver == burn_output.extra_commitment.receiver,
        r.prover_fee == burn_output.extra_commitment.prover_fee,
        r.prover == prover_address,
        r.receiver_post_mint_hook@ == burn_output.receiver_hook@,
        r.broadcaster_fee_post_mint_hook@.len() == 0,
        r.prover_fee_post_mint_hook@.len() == 0,
{
    let extra = burn_output.extra_commitment;
    mint_params(
        proof,
        U256::from_u64(block_number),
        nullifier,
        remaining_coin,
        extra.broadcaster_fee,
        burn_output.reveal_amount,
        extra.receiver,
        extra.prover_fee,
        prover_address,
        burn_output.receiver_hook.clone(),
        Vec::new(),
        Vec::new(),
    )
}

} // verus!
