//! The BETH token contract: the arguments of its `mintCoin` call.
use crate::address::Address;
use crate::u256::U256;
use vstd::prelude::*;

verus! {

/// A Groth16 proof as the rapidsnark prover writes it: the points `A` and `C`
/// in projective coordinates and `B` over the quadratic extension field.
#[derive(Clone, Copy, Debug)]
pub struct Groth16Proof {
    pub pi_a: [U256; 3],
    pub pi_b: [[U256; 2]; 3],
    pub pi_c: [U256; 3],
}

/// What the rapidsnark prover outputs.
#[derive(Clone, Copy, Debug)]
pub struct RapidsnarkOutput {
    pub proof: Groth16Proof,
}

/// The arguments of BETH's `mintCoin`.
#[derive(Clone, Debug)]
pub struct MintParams {
    pub p_a: [U256; 2],
    pub p_b: [[U256; 2]; 2],
    pub p_c: [U256; 2],
    pub block_number: U256,
    pub nullifier: U256,
    pub remaining_coin: U256,
    pub broadcaster_fee: U256,
    pub revealed_amount: U256,
    pub revealed_amount_receiver: Address,
    pub prover_fee: U256,
    pub prover: Address,
    pub receiver_post_mint_hook: Vec<u8>,
    pub broadcaster_fee_post_mint_hook: Vec<u8>,
    pub prover_fee_post_mint_hook: Vec<u8>,
}

/// The `mintCoin` arguments that carry a proof: the affine coordinates of
/// `A` and `C`, and those of `B` with each pair of field coefficients in the
/// order the on-chain verifier reads them (swapped from rapidsnark's).
pub open spec fn proof_points_match(p: MintParams, proof: Groth16Proof) -> bool {
    &&& p.p_a@[0] == proof.pi_a@[0]
    &&& p.p_a@[1] == proof.pi_a@[1]
    &&& p.p_b@[0]@[0] == proof.pi_b@[0]@[1]
    &&& p.p_b@[0]@[1] == proof.pi_b@[0]@[0]
    &&& p.p_b@[1]@[0] == proof.pi_b@[1]@[1]
    &&& p.p_b@[1]@[1] == proof.pi_b@[1]@[0]
    &&& p.p_c@[0] == proof.pi_c@[0]
    &&& p.p_c@[1] == proof.pi_c@[1]
}

/// Builds the arguments of BETH's `mintCoin` for a proof of burn and the
/// amounts, parties and hooks of the mint.
pub fn mint_params(
    proof: RapidsnarkOutput,
    block_number: U256,
    nullifier: U256,
    remaining_coin_hash: U256,
    broadcaster_fee: U256,
    spend: U256,
    receiver: Address,
    prover_fee: U256,
    prover: Address,
    receiver_post_mint_hook: Vec<u8>,
    broadcaster_fee_post_mint_hook: Vec<u8>,
    prover_fee_post_mint_hook: Vec<u8>,
) -> (r: MintParams)
    ensures
        proof_points_match(r, proof.proof),
        r.block_number == block_number,
        r.nullifier == nullifier,
        r.remaining_coin == remaining_coin_hash,
        r.broadcaster_fee == broadcaster_fee,
        r.revealed_amount == spend,
        r.revealed_amount_receiver == receiver,
        r.prover_fee == prover_fee,
        r.prover == prover,
        r.receiver_post_mint_hook == receiver_post_mint_hook,
        r.broadcaster_fee_post_mint_hook == broadcaster_fee_post_mint_hook,
        r.prover_fee_post_mint_hook == prover_fee_post_mint_hook,
{
    let pr = proof.proof;
    MintParams {
        p_a: [pr.pi_a[0], pr.pi_a[1]],
        p_b: [[pr.pi_b[0][1], pr.pi_b[0][0]], [pr.pi_b[1][1], pr.pi_b[1][0]]],
        p_c: [pr.pi_c[0], pr.pi_c[1]],
        block_number,
        nullifier,
        remaining_coin: remaining_coin_hash,
        broadcaster_fee,
        revealed_amount: spend,
        revealed_amount_receiver: receiver,
        prover_fee,
        prover,
        receiver_post_mint_hook,
        broadcaster_fee_post_mint_hook,
        prover_fee_post_mint_hook,
    }
}

/// How a proof lands in the `mintCoin` arguments: `A` and `C` keep their
/// first two coordinates in order, and each of `B`'s first two pairs comes
/// in reversed (rapidsnark writes a field coefficient pair low-high, the
/// verifier reads it high-low).
pub proof fn law_proof_points_reverse_b_pairs(p: MintParams, proof: Groth16Proof)
    requires
        proof_points_match(p, proof),
    ensures
        forall|i: int| 0 <= i < 2 ==> p.p_a@[i] == proof.pi_a@[i] && p.p_c@[i] == proof.pi_c@[i],
        forall|i: int, j: int| 0 <= i < 2 && 0 <= j < 2 ==> p.p_b@[i]@[j] == proof.pi_b@[i]@[1 - j],
{
    assert forall|i: int, j: int| 0 <= i < 2 && 0 <= j < 2 implies p.p_b@[i]@[j] == proof.pi_b@[i]@[1 - j] by {
        if i == 0 {
            if j == 0 {
            } else {
            }
        } else {
            if j == 0 {
            } else {
            }
        }
    }
    assert forall|i: int| 0 <= i < 2 implies p.p_a@[i] == proof.pi_a@[i] && p.p_c@[i] == proof.pi_c@[i] by {
        if i == 0 {
        } else {
        }
    }
}

} // verus!
