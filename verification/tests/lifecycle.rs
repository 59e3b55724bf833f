//! Engine lifecycle: start-up gate, start/shutdown/restart, and the
//! command error paths.

use kuaip2p::address::{parse_peer_address, PeerAddress};
use kuaip2p::backend_event::BackendEvent;
use kuaip2p::frontend_event::{BackendStartupConfig, ConnectRequest, ConnectionRequestResponse,
    DisconnectRequest, FileOfferResponse, FrontendEvent, TransmitFile};
use kuaip2p::peer_manager::{Action, PeerManager};
use kuaip2p::frontend_manager::{await_frontend_ready, FrontendManager};
use kuaip2p::protocol::{ConnectionInfo, Message};

fn node(name: &str) -> FrontendManager {
    let mut pm = PeerManager::new();
    pm.listener_bound();
    FrontendManager::new(
        pm,
        ConnectionInfo { name: name.to_string(), backend_version: "1.0.0".to_string() },
    )
}

fn addr(s: &str) -> PeerAddress {
    parse_peer_address(s).expect("bad address literal")
}

fn notifications(actions: &[Action]) -> Vec<BackendEvent> {
    let mut out = Vec::new();
    for a in actions {
        if let Action::Notify { event } = a {
            out.push(event.clone());
        }
    }
    out
}

fn bad_reason(actions: &[Action]) -> String {
    match &actions[0] {
        Action::Notify { event: BackendEvent::BadFrontendEvent(b) } => b.error.clone(),
        other => panic!("expected a BadFrontendEvent, got {:?}", other),
    }
}

#[test]
fn startup_gate_accepts_frontend_ready() {
    let (bind, acts) = await_frontend_ready(Some(FrontendEvent::FrontendReady(
        BackendStartupConfig { bind_addr: "127.0.0.1:9100".to_string() },
    )));
    assert_eq!(bind.as_deref(), Some("127.0.0.1:9100"));
    assert!(acts.is_empty());
}

#[test]
fn startup_gate_rejects_other_first_commands() {
    let (bind, acts) = await_frontend_ready(Some(FrontendEvent::Shutdown));
    assert!(bind.is_none());
    assert!(matches!(
        acts[0],
        Action::Notify { event: BackendEvent::BackendFatal(_) }
    ));
    let (bind, acts) = await_frontend_ready(None);
    assert!(bind.is_none());
    assert!(acts.is_empty());
}

#[test]
fn start_while_running_complains() {
    let mut a = node("A");
    let acts = a.handle_frontend_event(FrontendEvent::Start(BackendStartupConfig {
        bind_addr: "127.0.0.1:9100".to_string(),
    }));
    assert_eq!(bad_reason(&acts), "Backend is already running");
}

#[test]
fn start_while_stopped_binds_and_announces() {
    let mut a = FrontendManager::new(
        PeerManager::new(),
        ConnectionInfo { name: "A".to_string(), backend_version: "1.0.0".to_string() },
    );
    let acts = a.handle_frontend_event(FrontendEvent::Start(BackendStartupConfig {
        bind_addr: "127.0.0.1:9100".to_string(),
    }));
    assert!(matches!(acts[0], Action::BindListener { ref bind_addr } if bind_addr == "127.0.0.1:9100"));
    assert!(matches!(
        acts[1],
        Action::Notify { event: BackendEvent::BackendReady(ref i) } if i.version == "1.0.0"
    ));
    // The flag flips only once the listener reports in.
    assert!(!a.peer_manager.is_running());
    a.peer_manager.listener_bound();
    assert!(a.peer_manager.is_running());
}

#[test]
fn shutdown_drains_peers_with_farewells() {
    let mut a = node("A");
    let p1 = addr("127.0.0.1:9101");
    let p2 = addr("127.0.0.1:9102");
    a.peer_manager.handle_connection(p1);
    a.peer_manager.handle_connection(p2);
    let acts = a.handle_frontend_event(FrontendEvent::Shutdown);
    assert!(!a.peer_manager.is_running());
    assert!(a.peer_manager.active_peers.is_empty());
    // Each peer gets the farewell and its session is closed.
    let farewells = acts
        .iter()
        .filter(|x| {
            matches!(
                x,
                Action::SendPeer { message: Message::ImmediateConnectionClose(d), .. }
                    if d.message.as_deref() == Some("Peer is shutting down")
            )
        })
        .count();
    assert_eq!(farewells, 2);
    let closes = acts.iter().filter(|x| matches!(x, Action::CloseSession { .. })).count();
    assert_eq!(closes, 2);
    // Connected peers were never admitted: no upward notifications.
    assert!(notifications(&acts).is_empty());
}

#[test]
fn shutdown_while_stopped_warns() {
    let mut a = FrontendManager::new(
        PeerManager::new(),
        ConnectionInfo { name: "A".to_string(), backend_version: "1.0.0".to_string() },
    );
    let acts = a.handle_frontend_event(FrontendEvent::Shutdown);
    assert!(matches!(
        acts[0],
        Action::Notify { event: BackendEvent::BackendWarning(_) }
    ));
}

#[test]
fn restart_shuts_down_then_starts() {
    let mut a = node("A");
    let p1 = addr("127.0.0.1:9101");
    a.peer_manager.handle_connection(p1);
    let acts = a.handle_frontend_event(FrontendEvent::Restart(BackendStartupConfig {
        bind_addr: "127.0.0.1:9100".to_string(),
    }));
    assert!(a.peer_manager.active_peers.is_empty());
    assert!(!a.peer_manager.is_running());
    let n = acts.len();
    assert!(matches!(acts[n - 2], Action::BindListener { ref bind_addr } if bind_addr == "127.0.0.1:9100"));
    assert!(matches!(
        acts[n - 1],
        Action::Notify { event: BackendEvent::BackendReady(_) }
    ));
}

#[test]
fn frontend_ready_after_startup_is_refused() {
    let mut a = node("A");
    let acts = a.handle_frontend_event(FrontendEvent::FrontendReady(BackendStartupConfig {
        bind_addr: "127.0.0.1:9100".to_string(),
    }));
    assert_eq!(bad_reason(&acts), "Backend is already running");
}

#[test]
fn listener_failure_is_fatal_and_stops_the_engine() {
    let mut a = node("A");
    let acts = a.listener_failed();
    assert!(!a.peer_manager.is_running());
    assert!(matches!(
        acts[0],
        Action::Notify { event: BackendEvent::BackendFatal(_) }
    ));
    let acts = a.listener_closed();
    assert!(matches!(acts[0], Action::Notify { event: BackendEvent::BackendShutdown }));
}

#[test]
fn connect_command_error_paths() {
    let mut a = node("A");
    let acts = a.handle_frontend_event(FrontendEvent::ConnectRequest(ConnectRequest {
        ip: "not an address".to_string(),
    }));
    assert_eq!(bad_reason(&acts), "Invalid IP address");

    // Already connected: refused.
    let p = addr("127.0.0.1:9101");
    a.peer_manager.handle_connection(p);
    let acts = a.handle_frontend_event(FrontendEvent::ConnectRequest(ConnectRequest {
        ip: "127.0.0.1:9101".to_string(),
    }));
    assert_eq!(bad_reason(&acts), "Failed to connect to the peer");

    // Engine stopped: refused.
    let mut b = FrontendManager::new(
        PeerManager::new(),
        ConnectionInfo { name: "B".to_string(), backend_version: "1.0.0".to_string() },
    );
    let acts = b.handle_frontend_event(FrontendEvent::ConnectRequest(ConnectRequest {
        ip: "127.0.0.1:9101".to_string(),
    }));
    assert_eq!(bad_reason(&acts), "Failed to connect to the peer");

    // Window expiry and dial failure each echo the command.
    let cmd = ConnectRequest { ip: "127.0.0.1:9101".to_string() };
    let acts = a.connect_window_expired(cmd.clone());
    assert_eq!(bad_reason(&acts), "Peer not found in the active peers list");
    let acts = a.connect_failed(cmd);
    assert_eq!(bad_reason(&acts), "Failed to connect to the peer");
}

#[test]
fn responses_to_unknown_peers_or_ids_are_refused() {
    let mut a = node("A");
    let acts = a.handle_frontend_event(FrontendEvent::ConnectionRequestResponse(
        ConnectionRequestResponse {
            ip: "127.0.0.1:9101".to_string(),
            accept: true,
            message: None,
        },
    ));
    assert_eq!(bad_reason(&acts), "Peer does not exist");

    let acts = a.handle_frontend_event(FrontendEvent::DisconnectRequest(DisconnectRequest {
        ip: "127.0.0.1:9101".to_string(),
        message: None,
    }));
    assert_eq!(bad_reason(&acts), "Peer is not connected");

    let acts = a.handle_frontend_event(FrontendEvent::FileOfferResponse(FileOfferResponse {
        unique_id: "not a uuid".to_string(),
        accept: true,
    }));
    assert_eq!(bad_reason(&acts), "Invalid File Transfer ID (UUID)");

    let acts = a.handle_frontend_event(FrontendEvent::FileOfferResponse(FileOfferResponse {
        unique_id: "550e8400-e29b-41d4-a716-446655440000".to_string(),
        accept: true,
    }));
    assert_eq!(bad_reason(&acts), "Invalid file transfer ID: ID does not exist.");

    let acts = a.handle_frontend_event(FrontendEvent::TransmitFile(TransmitFile {
        ip: "nope".to_string(),
        path: "/tmp/x".to_string(),
        filename: "x".to_string(),
    }));
    assert_eq!(bad_reason(&acts), "Invalid IP address");
}

#[test]
fn wrong_direction_offer_response_is_refused() {
    let mut a = node("A");
    let p = addr("127.0.0.1:9101");
    a.peer_manager.handle_connection(p);
    let cmd = TransmitFile {
        ip: "127.0.0.1:9101".to_string(),
        path: "/tmp/x".to_string(),
        filename: "x".to_string(),
    };
    let acts = a.transmit_file_with_size(cmd, p, 10);
    let id_text = match &acts[0] {
        Action::SendPeer { message: Message::FileOfferRequest(fo), .. } => format!(
            "{:08x}-{:04x}-{:04x}-{:04x}-{:012x}",
            (fo.unique_id >> 96) as u32,
            ((fo.unique_id >> 80) & 0xFFFF) as u16,
            ((fo.unique_id >> 64) & 0xFFFF) as u16,
            ((fo.unique_id >> 48) & 0xFFFF) as u16,
            fo.unique_id & 0xFFFF_FFFF_FFFF,
        ),
        other => panic!("expected an offer, got {:?}", other),
    };
    let acts = a.handle_frontend_event(FrontendEvent::FileOfferResponse(FileOfferResponse {
        unique_id: id_text,
        accept: true,
    }));
    assert_eq!(bad_reason(&acts), "Cannot accept a file offer when sending a file.");
}
