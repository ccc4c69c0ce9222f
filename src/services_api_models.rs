//! The gateway's successful reply.
use vstd::prelude::*;

verus! {

/// The rewritten description of the creature that was asked for.
#[derive(Debug, PartialEq)]
pub struct ShakespeareanDescriptionApiResponse {
    pub name: String,
    pub description: String,
}

} // verus!
