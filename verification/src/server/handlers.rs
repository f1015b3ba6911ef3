//! The decisions behind the server's endpoints: what a request is refused
//! for, and what is answered or sent on chain otherwise.
use crate::address::Address;
use crate::contracts::beth::{mint_params, proof_points_match, MintParams};
use crate::contracts::network::Network;
use crate::server::cached_proof::Proof;
use crate::server::config::{required_prover_fee, Config};
use crate::server::error::ServerError;
use crate::server::jobs::{after_plan, after_proof_post, ids_below_next, submit_plan, ProofJobs, SubmitPlan};
use crate::text::text_to_owned;
use crate::u256::U256;
use crate::units::{decimal_parse_error_text, decimal_u256_value, parse_decimal_u256};
use vstd::prelude::*;

verus! {

/// The answer to `GET /proof`: the server's prover fee policy and the
/// address its prover fees go to.
#[derive(Clone, Copy, Debug)]
pub struct ProofGetResponse {
    pub prover_fee_share_inv: u64,
    pub min_prover_fee: U256,
    pub prover_address: Address,
}

impl ProofGetResponse {
    /// The fee policy of `config`, with fees paid to `prover_address`.
    pub fn new(config: &Config, prover_address: Address) -> (r: ProofGetResponse)
        ensures
            r.prover_fee_share_inv == config.prover_fee_share_inv,
            r.min_prover_fee == config.min_prover_fee,
            r.prover_address == prover_address,
    {
        ProofGetResponse {
            prover_fee_share_inv: config.prover_fee_share_inv,
            min_prover_fee: config.min_prover_fee,
            prover_address,
        }
    }
}

/// Reads the nullifier of `GET /proof/{nullifier}`, written in base 10.
pub fn parse_nullifier(text: &str) -> (r: Result<U256, ServerError>)
    ensures
        match decimal_u256_value(text@) {
            Some(v) => r matches Ok(x) && x@ == v,
            None => r matches Err(ServerError::Validation { field, value, message }) && field@
                == "nullifier"@ && value@ == text@ && message@ == decimal_parse_error_text(text@),
        },
{
    match parse_decimal_u256(text) {
        Ok(v) => Ok(v),
        Err(message) => Err(ServerError::Validation { field: "nullifier", value: text_to_owned(text), message }),
    }
}

/// `POST /proof` is not served for Sepolia.
pub fn check_network_supported(network: Network) -> (r: Result<(), ServerError>)
    ensures
        network is Sepolia ==> (r matches Err(ServerError::InvalidAction(m)) && m@
            == "sepolia network is not supported"@),
        !(network is Sepolia) ==> r is Ok,
{
    match network {
        Network::Sepolia => Err(ServerError::InvalidAction("sepolia network is not supported")),
        _ => Ok(()),
    }
}

/// `POST /proof` needs a prover fee of at least `max(min_prover_fee, burnt /
/// prover_fee_share_inv)`, where `burnt` is the balance of the burn address.
pub fn check_prover_fee(prover_fee: &U256, burnt_amount: &U256, config: &Config) -> (r: Result<(), ServerError>)
    ensures
        prover_fee@ < required_prover_fee(*config, burnt_amount@) ==> (r matches Err(
            ServerError::InvalidAction(m),
        ) && m@ == "prover fee is too low"@),
        prover_fee@ >= required_prover_fee(*config, burnt_amount@) ==> r is Ok,
{
    let required = config.required_prover_fee(burnt_amount);
    if prover_fee.lt(&required) {
        Err(ServerError::InvalidAction("prover fee is too low"))
    } else {
        Ok(())
    }
}

/// The checks of `POST /proof` before any work is done: Sepolia is refused
/// first, then a prover fee below the required one.
pub fn check_proof_request(network: Network, prover_fee: &U256, burnt_amount: &U256, config: &Config) -> (r:
    Result<(), ServerError>)
    ensures
        network is Sepolia ==> (r matches Err(ServerError::InvalidAction(m)) && m@
            == "sepolia network is not supported"@),
        !(network is Sepolia) && prover_fee@ < required_prover_fee(*config, burnt_amount@) ==> (r matches Err(
            ServerError::InvalidAction(m),
        ) && m@ == "prover fee is too low"@),
        !(network is Sepolia) && prover_fee@ >= required_prover_fee(*config, burnt_amount@) ==> r is Ok,
{
    check_network_supported(network)?;
    check_prover_fee(prover_fee, burnt_amount, config)
}

/// The decisions of `POST /proof` before the job is handed to the prover:
/// Sepolia is refused, then a prover fee below the required one; then comes
/// `nullifier`, the outcome of the work done between the fee check and the
/// registry (fetching the block header, checking the account proof and
/// computing the burn's nullifier), whose error is answered as it is; with
/// a nullifier the registry plans its job. A refused request leaves the
/// registry untouched.
pub fn admit_proof_request(
    jobs: &mut ProofJobs,
    network: Network,
    prover_fee: &U256,
    burnt_amount: &U256,
    config: &Config,
    nullifier: Result<U256, ServerError>,
) -> (r: Result<SubmitPlan, ServerError>)
    requires
        old(jobs).wf(),
    ensures
        final(jobs).wf(),
        ids_below_next(final(jobs)@),
        network is Sepolia ==> (r matches Err(ServerError::InvalidAction(m)) && m@
            == "sepolia network is not supported"@) && final(jobs)@ == old(jobs)@,
        !(network is Sepolia) && prover_fee@ < required_prover_fee(*config, burnt_amount@) ==> (r matches Err(
            ServerError::InvalidAction(m),
        ) && m@ == "prover fee is too low"@) && final(jobs)@ == old(jobs)@,
        !(network is Sepolia) && prover_fee@ >= required_prover_fee(*config, burnt_amount@) ==> match nullifier {
            Err(e) => r == Err::<SubmitPlan, ServerError>(e) && final(jobs)@ == old(jobs)@,
            Ok(n) => r == Ok::<SubmitPlan, ServerError>(submit_plan(old(jobs)@, n)) && final(jobs)@ == after_plan(
                old(jobs)@,
                n,
            ) && final(jobs)@ == after_proof_post(old(jobs)@, n, true, false),
        },
{
    proof {
        jobs.lemma_ids_below_next();
    }
    match check_proof_request(network, prover_fee, burnt_amount, config) {
        Err(e) => Err(e),
        Ok(()) => match nullifier {
            Err(e) => Err(e),
            Ok(n) => Ok(jobs.plan_submission(&n)),
        },
    }
}

/// The (empty) answer to an accepted `POST /proof`.
#[derive(Clone, Copy, Debug)]
pub struct ProofPostResponse {}

/// The (empty) answer to an accepted `POST /relay`.
#[derive(Clone, Copy, Debug)]
pub struct RelayPostResponse {}

/// The body of `POST /relay`: a finished proof and the inputs of the
/// `mintCoin` call to submit with it.
#[derive(Clone, Debug)]
pub struct RelayPostRequest {
    pub network: Network,
    pub proof: Proof,
    pub nullifier: U256,
    /// The commitment to the coin that remains after the mint.
    pub remaining_coin: U256,
    pub broadcaster_fee: U256,
    pub reveal_amount: U256,
    pub receiver: Address,
    pub prover_fee: U256,
    pub swap_calldata: Vec<u8>,
}

/// The `mintCoin` call that `POST /relay` submits: refused when the
/// broadcaster fee is below the minimum; otherwise the request's proof and
/// amounts, the server as broadcaster and prover, and the swap call data as
/// the receiver's hook.
pub fn relay_mint_params(req: RelayPostRequest, min_broadcaster_fee: &U256, broadcaster_address: Address) -> (r:
    Result<MintParams, ServerError>)
    ensures
        req.broadcaster_fee@ < min_broadcaster_fee@ ==> (r matches Err(ServerError::InvalidAction(m))
            && m@ == "broadcaster fee is too low"@),
        req.broadcaster_fee@ >= min_broadcaster_fee@ ==> (r matches Ok(p) && {
            &&& proof_points_match(p, req.proof.rapidsnark_output.proof)
            &&& p.block_number == req.proof.target_block
            &&& p.nullifier == req.nullifier
            &&& p.remaining_coin == req.remaining_coin
            &&& p.broadcaster_fee == req.broadcaster_fee
            &&& p.revealed_amount == req.reveal_amount
            &&& p.revealed_amount_receiver == req.receiver
            &&& p.prover_fee == req.prover_fee
            &&& p.prover == broadcaster_address
            &&& p.receiver_post_mint_hook == req.swap_calldata
            &&& p.broadcaster_fee_post_mint_hook@.len() == 0
            &&& p.prover_fee_post_mint_hook@.len() == 0
        }),
{
    if req.broadcaster_fee.lt(min_broadcaster_fee) {
        return Err(ServerError::InvalidAction("broadcaster fee is too low"));
    }
    Ok(
        mint_params(
            req.proof.rapidsnark_output,
            req.proof.target_block,
            req.nullifier,
            req.remaining_coin,
            req.broadcaster_fee,
            req.reveal_amount,
            req.receiver,
            req.prover_fee,
            broadcaster_address,
            req.swap_calldata,
            Vec::new(),
            Vec::new(),
        ),
    )
}

} // verus!
