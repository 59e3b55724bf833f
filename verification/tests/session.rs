//! End-to-end session scenarios: two engines driven by hand, shuttling the
//! messages their actions produce.

use kuaip2p::address::{parse_peer_address, PeerAddress};
use kuaip2p::backend_event::BackendEvent;
use kuaip2p::frontend_event::{ConnectRequest, ConnectionRequestResponse, DisconnectRequest,
    FrontendEvent};
use kuaip2p::peer_manager::{Action, PeerManager, PeerState};
use kuaip2p::frontend_manager::FrontendManager;
use kuaip2p::protocol::{ConnectionInfo, Message};

fn node(name: &str) -> FrontendManager {
    let mut pm = PeerManager::new();
    pm.listener_bound();
    FrontendManager::new(
        pm,
        ConnectionInfo { name: name.to_string(), backend_version: "1.0.0".to_string() },
    )
}

fn addr(s: &str) -> PeerAddress {
    parse_peer_address(s).expect("bad address literal")
}

fn sent_messages(actions: &[Action]) -> Vec<Message> {
    let mut out = Vec::new();
    for a in actions {
        match a {
            Action::SendPeer { message, .. } => out.push(message.clone()),
            Action::SendPeerThenDrop { message, .. } => out.push(message.clone()),
            _ => {}
        }
    }
    out
}

fn notifications(actions: &[Action]) -> Vec<BackendEvent> {
    let mut out = Vec::new();
    for a in actions {
        if let Action::Notify { event } = a {
            out.push(event.clone());
        }
    }
    out
}

fn peer_state_of(pm: &PeerManager, a: PeerAddress) -> Option<PeerState> {
    for p in pm.active_peers.iter() {
        if p.addr == a {
            return Some(p.state.clone());
        }
    }
    None
}

/// Establish an authenticated pair: A dialled B, both exchanged connect
/// requests and accepted. Returns (a, b, addr_a, addr_b).
fn authenticated_pair() -> (FrontendManager, FrontendManager, PeerAddress, PeerAddress) {
    let mut a = node("A");
    let mut b = node("B");
    let addr_a = addr("127.0.0.1:9100");
    let addr_b = addr("127.0.0.1:9101");

    // A's user asks to connect to B.
    let acts = a.handle_frontend_event(FrontendEvent::ConnectRequest(ConnectRequest {
        ip: "127.0.0.1:9101".to_string(),
    }));
    assert!(matches!(acts[0], Action::OpenConnection { addr } if addr == addr_b));

    // The dial succeeds on both ends; each side registers the session.
    a.peer_manager.handle_connection(addr_b);
    b.peer_manager.handle_connection(addr_a);

    // A's connect window poll finds the session and sends its identity.
    let (found, acts) = a.connect_poll(addr_b);
    assert!(found);
    let a_hello = sent_messages(&acts).remove(0);

    // B receives A's connect request and prompts its user.
    let acts = b.peer_manager.handle_message(a_hello, addr_a);
    let notes = notifications(&acts);
    assert!(matches!(notes[0], BackendEvent::ConnectRequest(ref ci) if ci.name == "A"));
    assert!(matches!(sent_messages(&acts)[0], Message::KeepAlive));

    // B also introduces itself (the symmetric exchange).
    let b_hello = Message::ConnectRequest(ConnectionInfo {
        name: "B".to_string(),
        backend_version: "1.0.0".to_string(),
    });
    let acts = a.peer_manager.handle_message(b_hello, addr_b);
    assert!(matches!(notifications(&acts)[0], BackendEvent::ConnectRequest(ref ci) if ci.name == "B"));

    // Each user accepts; each side sends a permit the other side takes.
    let acts = a.handle_frontend_event(FrontendEvent::ConnectionRequestResponse(
        ConnectionRequestResponse {
            ip: "127.0.0.1:9101".to_string(),
            accept: true,
            message: None,
        },
    ));
    let a_permit = sent_messages(&acts).remove(0);
    let acts = b.handle_frontend_event(FrontendEvent::ConnectionRequestResponse(
        ConnectionRequestResponse {
            ip: "127.0.0.1:9100".to_string(),
            accept: true,
            message: None,
        },
    ));
    let b_permit = sent_messages(&acts).remove(0);

    let acts = b.peer_manager.handle_message(a_permit, addr_a);
    assert!(matches!(
        notifications(&acts)[0],
        BackendEvent::ConnectionRequestResponse(ref r) if r.accept
    ));
    let acts = a.peer_manager.handle_message(b_permit, addr_b);
    assert!(matches!(
        notifications(&acts)[0],
        BackendEvent::ConnectionRequestResponse(ref r) if r.accept
    ));

    (a, b, addr_a, addr_b)
}

#[test]
fn handshake_accept_authenticates_both_sides() {
    let (a, b, addr_a, addr_b) = authenticated_pair();
    assert!(matches!(
        peer_state_of(&a.peer_manager, addr_b),
        Some(PeerState::Authenticated { .. })
    ));
    assert!(matches!(
        peer_state_of(&b.peer_manager, addr_a),
        Some(PeerState::Authenticated { .. })
    ));
}

#[test]
fn handshake_reject_tears_the_session_down() {
    let mut a = node("A");
    let mut b = node("B");
    let addr_a = addr("127.0.0.1:9100");
    let addr_b = addr("127.0.0.1:9101");
    a.peer_manager.handle_connection(addr_b);
    b.peer_manager.handle_connection(addr_a);
    let (_, acts) = a.connect_poll(addr_b);
    let a_hello = sent_messages(&acts).remove(0);
    b.peer_manager.handle_message(a_hello, addr_a);
    let b_hello = Message::ConnectRequest(ConnectionInfo {
        name: "B".to_string(),
        backend_version: "1.0.0".to_string(),
    });
    a.peer_manager.handle_message(b_hello, addr_b);

    // B's user refuses.
    let acts = b.handle_frontend_event(FrontendEvent::ConnectionRequestResponse(
        ConnectionRequestResponse {
            ip: "127.0.0.1:9100".to_string(),
            accept: false,
            message: Some("no thanks".to_string()),
        },
    ));
    let deny = sent_messages(&acts).remove(0);
    assert!(matches!(
        peer_state_of(&b.peer_manager, addr_a),
        Some(PeerState::Disconnecting { ref reason, .. }) if reason.as_deref() == Some("no thanks")
    ));

    // A learns of the refusal, acknowledges, and drops the session.
    let acts = a.peer_manager.handle_message(deny, addr_b);
    let notes = notifications(&acts);
    assert!(matches!(
        notes[0],
        BackendEvent::ConnectionRequestResponse(ref r)
            if !r.accept && r.reason.as_deref() == Some("no thanks")
    ));
    let ack = sent_messages(&acts).remove(0);
    assert!(matches!(ack, Message::DisconnectAck));
    assert!(peer_state_of(&a.peer_manager, addr_b).is_none());
    // A's peer never left Connected, so no close notification beyond the verdict.
    assert_eq!(notes.len(), 1);

    // B receives the acknowledgement and closes, reporting exactly one close.
    let acts = b.peer_manager.handle_message(ack, addr_a);
    let notes = notifications(&acts);
    assert_eq!(notes.len(), 1);
    assert!(matches!(
        notes[0],
        BackendEvent::ConnectionClose(ref c) if c.message.as_deref() == Some("no thanks")
    ));
    assert!(peer_state_of(&b.peer_manager, addr_a).is_none());
}

#[test]
fn oversize_frame_drops_the_peer() {
    let mut b = node("B");
    let addr_a = addr("127.0.0.1:9100");
    b.peer_manager.handle_connection(addr_a);
    let (go_on, acts) = b.peer_manager.handle_frame_len(addr_a, 10 * 1024 * 1024 + 1);
    assert!(!go_on);
    // The peer was only Connected, so no notification goes up.
    assert!(notifications(&acts).is_empty());
    assert!(matches!(acts[0], Action::CloseSession { addr } if addr == addr_a));
    assert!(peer_state_of(&b.peer_manager, addr_a).is_none());
}

#[test]
fn oversize_frame_on_authenticated_peer_reports_broken() {
    let (_, mut b, addr_a, _) = authenticated_pair();
    let (go_on, acts) = b.peer_manager.handle_frame_len(addr_a, 10 * 1024 * 1024 + 1);
    assert!(!go_on);
    let notes = notifications(&acts);
    assert_eq!(notes.len(), 1);
    assert!(matches!(
        notes[0],
        BackendEvent::ConnectionBroken(ref c)
            if c.message.as_deref() == Some("message larger than maximum size")
    ));
}

#[test]
fn frame_len_at_limit_is_accepted() {
    let mut b = node("B");
    let addr_a = addr("127.0.0.1:9100");
    b.peer_manager.handle_connection(addr_a);
    let (go_on, acts) = b.peer_manager.handle_frame_len(addr_a, 10 * 1024 * 1024);
    assert!(go_on);
    assert!(acts.is_empty());
}

#[test]
fn idle_close_each_side_sees_one_connection_close() {
    let (mut a, mut b, addr_a, addr_b) = authenticated_pair();

    // A's user disconnects with a reason.
    let acts = a.handle_frontend_event(FrontendEvent::DisconnectRequest(DisconnectRequest {
        ip: "127.0.0.1:9101".to_string(),
        message: Some("bye".to_string()),
    }));
    let req = sent_messages(&acts).remove(0);
    assert!(matches!(
        peer_state_of(&a.peer_manager, addr_b),
        Some(PeerState::Disconnecting { ref reason, .. }) if reason.as_deref() == Some("bye")
    ));

    // B enters Disconnecting and acknowledges; the session is dropped only
    // once the runtime reports the acknowledgement's send outcome.
    let acts = b.peer_manager.handle_message(req, addr_a);
    assert!(matches!(acts[0], Action::SendPeerThenDrop { addr, .. } if addr == addr_a));
    let ack = sent_messages(&acts).remove(0);
    assert!(matches!(ack, Message::DisconnectAck));
    assert!(notifications(&acts).is_empty());
    assert!(matches!(
        peer_state_of(&b.peer_manager, addr_a),
        Some(PeerState::Disconnecting { ref reason, .. }) if reason.as_deref() == Some("bye")
    ));
    let acts = b.peer_manager.drop_peer(addr_a, None);
    let notes = notifications(&acts);
    assert_eq!(notes.len(), 1);
    assert!(matches!(
        notes[0],
        BackendEvent::ConnectionClose(ref c) if c.message.as_deref() == Some("bye")
    ));
    assert!(peer_state_of(&b.peer_manager, addr_a).is_none());

    // A receives the acknowledgement and closes once.
    let acts = a.peer_manager.handle_message(ack, addr_b);
    let notes = notifications(&acts);
    assert_eq!(notes.len(), 1);
    assert!(matches!(
        notes[0],
        BackendEvent::ConnectionClose(ref c) if c.message.as_deref() == Some("bye")
    ));
    assert!(peer_state_of(&a.peer_manager, addr_b).is_none());
}

#[test]
fn keep_alive_ping_pong_while_session_lives() {
    let (mut a, mut b, addr_a, addr_b) = authenticated_pair();

    // A receives a keep-alive: the reply is scheduled, and on wake the peer
    // is still present, so the reply goes out.
    let acts = a.peer_manager.handle_message(Message::KeepAlive, addr_b);
    assert!(matches!(acts[0], Action::ScheduleKeepAlive { addr } if addr == addr_b));
    let acts = a.peer_manager.handle_keep_alive(addr_b);
    assert!(matches!(sent_messages(&acts)[0], Message::KeepAlive));

    // B likewise.
    let acts = b.peer_manager.handle_message(Message::KeepAlive, addr_a);
    assert!(matches!(acts[0], Action::ScheduleKeepAlive { addr } if addr == addr_a));
    let acts = b.peer_manager.handle_keep_alive(addr_a);
    assert!(matches!(sent_messages(&acts)[0], Message::KeepAlive));

    // Once the peer is gone, a woken keep-alive does nothing.
    a.peer_manager.drop_peer(addr_b, None);
    let acts = a.peer_manager.handle_keep_alive(addr_b);
    assert!(acts.is_empty());
}

#[test]
fn drop_peer_notifies_at_most_once() {
    let (mut a, _, _, addr_b) = authenticated_pair();
    let acts = a.peer_manager.drop_peer(addr_b, Some("gone".to_string()));
    let notes = notifications(&acts);
    assert_eq!(notes.len(), 1);
    assert!(matches!(notes[0], BackendEvent::ConnectionBroken(_)));
    // A second drop of the same address emits nothing at all.
    let acts = a.peer_manager.drop_peer(addr_b, Some("gone again".to_string()));
    assert!(acts.is_empty());
}

#[test]
fn frame_payload_must_decode_and_consume_exactly() {
    let (_, mut b, addr_a, _) = authenticated_pair();
    // A payload that is not a message drops the peer.
    let (go_on, acts) = b.peer_manager.handle_frame_payload(addr_a, vec![255u8]);
    assert!(!go_on);
    assert!(matches!(
        notifications(&acts)[0],
        BackendEvent::ConnectionBroken(ref c)
            if c.message.as_deref() == Some("Failed to deserialize peer message")
    ));

    // A valid message with trailing bytes is a length mismatch.
    let (_, mut b2, addr_a2, _) = authenticated_pair();
    let mut payload = kuaip2p::codec::encode_message(&Message::KeepAlive);
    payload.push(0);
    let (go_on, acts) = b2.peer_manager.handle_frame_payload(addr_a2, payload);
    assert!(!go_on);
    assert!(matches!(
        notifications(&acts)[0],
        BackendEvent::ConnectionBroken(ref c)
            if c.message.as_deref() == Some("Peer sent a message with mismatched length")
    ));

    // A clean frame is dispatched.
    let (_, mut b3, addr_a3, _) = authenticated_pair();
    let payload = kuaip2p::codec::encode_message(&Message::KeepAlive);
    let (go_on, acts) = b3.peer_manager.handle_frame_payload(addr_a3, payload);
    assert!(go_on);
    assert!(matches!(acts[0], Action::ScheduleKeepAlive { addr } if addr == addr_a3));
}

#[test]
fn shutdown_farewells_authenticated_peer_and_reports_broken() {
    let (mut a, _, _, addr_b) = authenticated_pair();
    let acts = a.handle_frontend_event(FrontendEvent::Shutdown);
    assert!(!a.peer_manager.is_running());
    assert!(a.peer_manager.active_peers.is_empty());
    assert!(matches!(
        sent_messages(&acts)[0],
        Message::ImmediateConnectionClose(ref d)
            if d.message.as_deref() == Some("Peer is shutting down")
    ));
    let notes = notifications(&acts);
    assert_eq!(notes.len(), 1);
    assert!(matches!(notes[0], BackendEvent::ConnectionBroken(_)));
}


#[test]
fn failed_ack_send_overrides_the_close_reason() {
    let (_, mut b, addr_a, _) = authenticated_pair();
    let acts = b.peer_manager.handle_message(
        Message::DisconnectRequest(kuaip2p::protocol::DisconnectRequest {
            message: Some("bye".to_string()),
        }),
        addr_a,
    );
    assert!(matches!(acts[0], Action::SendPeerThenDrop { .. }));
    // The runtime could not enqueue the acknowledgement: the error text wins.
    let acts = b.peer_manager.drop_peer(addr_a, Some("Failed to send message: closed".to_string()));
    assert!(matches!(
        notifications(&acts)[0],
        BackendEvent::ConnectionClose(ref c)
            if c.message.as_deref() == Some("Failed to send message: closed")
    ));
}

#[test]
fn refusal_without_message_stores_the_default_reason() {
    let mut b = node("B");
    let addr_a = addr("127.0.0.1:9100");
    b.peer_manager.handle_connection(addr_a);
    b.peer_manager.handle_message(
        Message::ConnectRequest(ConnectionInfo {
            name: "A".to_string(),
            backend_version: "1.0.0".to_string(),
        }),
        addr_a,
    );
    let acts = b.handle_frontend_event(FrontendEvent::ConnectionRequestResponse(
        ConnectionRequestResponse {
            ip: "127.0.0.1:9100".to_string(),
            accept: false,
            message: None,
        },
    ));
    assert!(matches!(
        sent_messages(&acts)[0],
        Message::ConnectResponse(ref cr) if matches!(cr.permit, kuaip2p::protocol::ConnectionPermit::Deny)
    ));
    assert!(matches!(
        peer_state_of(&b.peer_manager, addr_a),
        Some(PeerState::Disconnecting { ref reason, .. })
            if reason.as_deref() == Some("rejected by user")
    ));
}
