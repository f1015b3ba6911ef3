//! The record a participation leaves, so that its rewards can be claimed later.
use crate::u256::U256;
use vstd::prelude::*;

verus! {

/// The epochs an account put BETH into: from `starting_epoch`, for `number_of_epochs`.
#[derive(Clone, Copy, Debug)]
pub struct ParticipateOutputJson {
    starting_epoch: U256,
    number_of_epochs: u64,
}

impl ParticipateOutputJson {
    pub closed spec fn spec_starting_epoch(&self) -> U256 {
        self.starting_epoch
    }

    pub closed spec fn spec_number_of_epochs(&self) -> u64 {
        self.number_of_epochs
    }

    pub fn new(starting_epoch: U256, number_of_epochs: u64) -> (r: ParticipateOutputJson)
        ensures
            r.spec_starting_epoch() == starting_epoch,
            r.spec_number_of_epochs() == number_of_epochs,
    {
        ParticipateOutputJson { starting_epoch, number_of_epochs }
    }

    /// The record of participating for `num_epochs` epochs when the current
    /// epoch read before the transaction was `current_epoch`. One epoch more
    /// is recorded, in case the epoch turned between the read and the
    /// transaction, so that the last epoch's reward is not missed.
    pub fn for_participation(current_epoch: U256, num_epochs: u64) -> (r: ParticipateOutputJson)
        requires
            num_epochs < u64::MAX,
        ensures
            r.spec_starting_epoch() == current_epoch,
            r.spec_number_of_epochs() == num_epochs + 1,
    {
        Self::new(current_epoch, num_epochs + 1)
    }

    pub fn starting_epoch(&self) -> (r: U256)
        ensures
            r == self.spec_starting_epoch(),
    {
        self.starting_epoch
    }

    pub fn number_of_epochs(&self) -> (r: u64)
        ensures
            r == self.spec_number_of_epochs(),
    {
        self.number_of_epochs
    }
}

} // verus!
