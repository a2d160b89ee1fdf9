use snocat::common::tunnel_source::{Inbound, ListenAdapter, ListenStep, TunnelPair, TunnelSide};

#[test]
fn established_connection_becomes_a_listen_side_tunnel() {
    let mut adapter = ListenAdapter::new();
    assert!(!adapter.is_closed());
    assert_eq!(
        adapter.step(Inbound::Established(12)),
        ListenStep::Yield(TunnelPair { connection: 12, side: TunnelSide::Listen })
    );
    assert!(!adapter.is_closed());
    assert_eq!(
        adapter.step(Inbound::Established(0)),
        ListenStep::Yield(TunnelPair::accepted(0))
    );
}

#[test]
fn failed_handshake_is_discarded_and_the_stream_goes_on() {
    let mut adapter = ListenAdapter::new();
    assert_eq!(adapter.step(Inbound::HandshakeFailed), ListenStep::Discard);
    assert!(!adapter.is_closed());
    assert_eq!(adapter.step(Inbound::HandshakeFailed), ListenStep::Discard);
    assert_eq!(adapter.step(Inbound::Established(3)), ListenStep::Yield(TunnelPair::accepted(3)));
}

#[test]
fn waiting_transport_means_wait() {
    let mut adapter = ListenAdapter::new();
    assert_eq!(adapter.step(Inbound::Waiting), ListenStep::Wait);
    assert!(!adapter.is_closed());
}

#[test]
fn closed_listener_ends_the_stream_for_good() {
    let mut adapter = ListenAdapter::new();
    assert_eq!(adapter.step(Inbound::Established(1)), ListenStep::Yield(TunnelPair::accepted(1)));
    assert_eq!(adapter.step(Inbound::ListenerClosed), ListenStep::End);
    assert!(adapter.is_closed());
    assert_eq!(adapter.step(Inbound::Established(2)), ListenStep::End);
    assert_eq!(adapter.step(Inbound::HandshakeFailed), ListenStep::End);
    assert_eq!(adapter.step(Inbound::Waiting), ListenStep::End);
    assert_eq!(adapter.step(Inbound::ListenerClosed), ListenStep::End);
    assert!(adapter.is_closed());
}
