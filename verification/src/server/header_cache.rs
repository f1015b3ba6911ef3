//! Block headers the server has fetched, by block number, so that a block
//! is fetched once however many proofs are asked for against it.
use std::collections::HashMap;
use vstd::prelude::*;

verus! {

broadcast use vstd::std_specs::hash::group_hash_axioms;

/// Headers by block number.
pub struct HeaderCache<H> {
    headers: HashMap<u64, H>,
}

impl<H> View for HeaderCache<H> {
    type V = Map<u64, H>;

    closed spec fn view(&self) -> Map<u64, H> {
        self.headers@
    }
}

impl<H> HeaderCache<H> {
    pub fn new() -> (r: HeaderCache<H>)
        ensures
            r@ == Map::<u64, H>::empty(),
    {
        HeaderCache { headers: HashMap::new() }
    }

    /// Whether the header of a block is cached; when it is not, it has to be fetched.
    pub fn contains(&self, block: u64) -> (r: bool)
        ensures
            r == self@.contains_key(block),
    {
        self.headers.contains_key(&block)
    }

    /// Caches the header of a block.
    pub fn insert(&mut self, block: u64, header: H)
        ensures
            final(self)@ == old(self)@.insert(block, header),
    {
        self.headers.insert(block, header);
    }

    /// The cached header of a block, if any.
    pub fn get(&self, block: u64) -> (r: Option<&H>)
        ensures
            match r {
                Some(h) => self@.contains_key(block) && self@[block] == *h,
                None => !self@.contains_key(block),
            },
    {
        self.headers.get(&block)
    }
}

} // verus!
