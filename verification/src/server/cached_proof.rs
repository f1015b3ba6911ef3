//! Proofs the server has made, as it caches and serves them.
use crate::contracts::beth::RapidsnarkOutput;
use crate::u256::U256;
use vstd::prelude::*;

verus! {

/// A proof of burn made against a block.
#[derive(Clone, Copy, Debug)]
pub struct Proof {
    pub target_block: U256,
    pub rapidsnark_output: RapidsnarkOutput,
}

/// The outcome of a proving job: the proof, or the message of what went wrong.
pub type ProofResult = Result<Proof, String>;

impl Proof {
    pub fn new(target_block: U256, rapidsnark_output: RapidsnarkOutput) -> (r: Proof)
        ensures
            r.target_block == target_block,
            r.rapidsnark_output == rapidsnark_output,
    {
        Proof { target_block, rapidsnark_output }
    }
}

} // verus!
