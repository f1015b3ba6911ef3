//! The errors the server answers requests with.
use vstd::prelude::*;

verus! {

/// Why a request was not served.
#[derive(Debug)]
pub enum ServerError {
    /// A request field did not parse.
    Validation { field: &'static str, value: String, message: String },
    /// Nothing is known of the requested thing.
    NotFound(&'static str),
    /// The proof is still being made; how many jobs are ahead of it, or -1 when unknown.
    InQueue(isize),
    /// The request is refused by policy.
    InvalidAction(&'static str),
    /// Something failed on the server's side.
    Unexpected(String),
}

} // verus!
