//! The tunnel as the multiplexer sees it: a value that is moved, never read.

use vstd::prelude::*;

verus! {

/// Which end opened a tunnel.
#[derive(Clone, Copy, Debug, PartialEq, Eq, Hash, Structural)]
pub enum TunnelSide {
    /// This end dialled out.
    Connect,
    /// This end was listening and accepted the tunnel.
    Listen,
}

/// One tunnel, as the sources yield it. The transport's own connection object
/// stays with whoever made it, filed under `connection`; the multiplexer hands
/// the pair on without looking inside.
#[derive(Clone, Copy, Debug, PartialEq, Eq, Hash, Structural)]
pub struct TunnelPair {
    /// The number under which the owner of the transport keeps the connection.
    pub connection: u64,
    /// The end that opened the tunnel.
    pub side: TunnelSide,
}

impl TunnelPair {
    /// The pair for a connection that a listener accepted.
    pub fn accepted(connection: u64) -> (pair: TunnelPair)
        ensures
            pair == (TunnelPair { connection, side: TunnelSide::Listen }),
    {
        TunnelPair { connection, side: TunnelSide::Listen }
    }

    /// The pair for a connection that this end dialled.
    pub fn dialled(connection: u64) -> (pair: TunnelPair)
        ensures
            pair == (TunnelPair { connection, side: TunnelSide::Connect }),
    {
        TunnelPair { connection, side: TunnelSide::Connect }
    }
}

} // verus!
