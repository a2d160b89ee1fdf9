//! What client and server have in common.

use vstd::prelude::*;

pub mod tunnel_source;

verus! {

/// The header that opens a meta stream. It carries no fields yet, so any two
/// headers are equal.
#[derive(Clone, Copy, Debug, PartialEq, Eq, Structural)]
pub struct MetaStreamHeader {}

impl MetaStreamHeader {
    pub fn new() -> (header: MetaStreamHeader)
        ensures
            header == (MetaStreamHeader {}),
    {
        MetaStreamHeader {}
    }
}

} // verus!
