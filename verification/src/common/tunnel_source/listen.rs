//! The rule by which a listening endpoint turns what its transport reports
//! into a stream of tunnels.
//!
//! Binding the socket and driving the handshakes are the transport's part.
//! What is decided here is what each report means for the stream: a finished
//! handshake is one tunnel, opened by the other end; a failed one is noise and
//! is passed over; a closed listener ends the stream for good.

use vstd::prelude::*;
use crate::common::tunnel_source::tunnel::{TunnelPair, TunnelSide};

verus! {

/// What the transport reports when it is asked for the next connection.
#[derive(Clone, Copy, Debug, PartialEq, Eq, Structural)]
pub enum Inbound {
    /// A handshake finished; the connection is kept under this number.
    Established(u64),
    /// A handshake was tried and failed.
    HandshakeFailed,
    /// Nothing has arrived yet.
    Waiting,
    /// The listener is closed.
    ListenerClosed,
}

/// What the endpoint's stream does with a report.
#[derive(Clone, Copy, Debug, PartialEq, Eq, Structural)]
pub enum ListenStep {
    /// Yield this tunnel.
    Yield(TunnelPair),
    /// Yield nothing for this report and ask the transport again.
    Discard,
    /// Nothing to yield yet.
    Wait,
    /// The stream has ended.
    End,
}

/// The state of a listening endpoint's stream: open until its listener
/// closes, and never open again after that.
pub struct ListenAdapter {
    open: bool,
}

/// What an open stream does with `event`, and whether it is open afterwards.
pub open spec fn listen_step(event: Inbound) -> (ListenStep, bool) {
    match event {
        Inbound::Established(connection) => (
            ListenStep::Yield(TunnelPair { connection, side: TunnelSide::Listen }),
            true,
        ),
        Inbound::HandshakeFailed => (ListenStep::Discard, true),
        Inbound::Waiting => (ListenStep::Wait, true),
        Inbound::ListenerClosed => (ListenStep::End, false),
    }
}

/// Whether `step` is what a stream in the state `open` does with `event`,
/// ending in the state `open_after`.
pub open spec fn steps_to(open: bool, event: Inbound, step: ListenStep, open_after: bool) -> bool {
    if open {
        step == listen_step(event).0 && open_after == listen_step(event).1
    } else {
        step == ListenStep::End && !open_after
    }
}

impl ListenAdapter {
    /// Whether the listener has not closed yet.
    pub closed spec fn is_open(&self) -> bool {
        self.open
    }

    /// The stream of a listener that was just bound.
    pub fn new() -> (adapter: ListenAdapter)
        ensures
            adapter.is_open(),
    {
        ListenAdapter { open: true }
    }

    /// Whether the stream has ended.
    pub fn is_closed(&self) -> (closed: bool)
        ensures
            closed == !self.is_open(),
    {
        !self.open
    }

    /// Takes one report of the transport and says what the stream does.
    pub fn step(&mut self, event: Inbound) -> (step: ListenStep)
        ensures
            steps_to(old(self).is_open(), event, step, final(self).is_open()),
    {
        if !self.open {
            return ListenStep::End;
        }
        match event {
            Inbound::Established(connection) => ListenStep::Yield(TunnelPair::accepted(connection)),
            Inbound::HandshakeFailed => ListenStep::Discard,
            Inbound::Waiting => ListenStep::Wait,
            Inbound::ListenerClosed => {
                self.open = false;
                ListenStep::End
            },
        }
    }
}

/// Every tunnel that a listening endpoint yields was opened by the other end,
/// and stands for the connection whose handshake just finished.
pub proof fn yields_only_accepted_tunnels(
    open: bool,
    event: Inbound,
    step: ListenStep,
    open_after: bool,
)
    requires
        steps_to(open, event, step, open_after),
    ensures
        step matches ListenStep::Yield(pair) ==> pair.side == TunnelSide::Listen && event
            == Inbound::Established(pair.connection),
{
}

/// A failed handshake yields nothing and does not end the stream.
pub proof fn failed_handshake_is_passed_over(open: bool, step: ListenStep, open_after: bool)
    requires
        steps_to(open, Inbound::HandshakeFailed, step, open_after),
    ensures
        !(step is Yield),
        open_after == open,
{
}

/// Once the listener has closed, the stream stays ended whatever the
/// transport reports next.
pub proof fn closed_listener_stays_closed(
    open: bool,
    next: Inbound,
    first: ListenStep,
    closed: bool,
    second: ListenStep,
    open_after: bool,
)
    requires
        steps_to(open, Inbound::ListenerClosed, first, closed),
        steps_to(closed, next, second, open_after),
    ensures
        first == ListenStep::End,
        second == ListenStep::End,
        !open_after,
{
}

} // verus!
