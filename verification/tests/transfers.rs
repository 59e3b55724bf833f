//! File transfer flows: offer, accept, chunk pump, checksum verdicts, and
//! the guarded error paths.

use kuaip2p::address::{parse_peer_address, PeerAddress};
use kuaip2p::backend_event::BackendEvent;
use kuaip2p::frontend_event::{ConnectRequest, ConnectionRequestResponse, FileOfferResponse,
    CancelFileTransfer, FrontendEvent, TransmitFile};
use kuaip2p::peer_manager::{Action, FileTransferDirection, FileTransferStatus, PeerManager,
    FileTransferState};
use kuaip2p::frontend_manager::FrontendManager;
use kuaip2p::protocol::{ConnectionInfo, FileChunk, FileDone, Message};

fn node(name: &str) -> FrontendManager {
    let mut pm = PeerManager::new();
    pm.listener_bound();
    FrontendManager::new(
        pm,
        ConnectionInfo { name: name.to_string(), backend_version: "1.0.0".to_string() },
    )
}

fn addr(s: &str) -> PeerAddress {
    parse_peer_address(s).expect("bad address literal")
}

fn sent_messages(actions: &[Action]) -> Vec<Message> {
    let mut out = Vec::new();
    for a in actions {
        match a {
            Action::SendPeer { message, .. } => out.push(message.clone()),
            Action::SendPeerThenDrop { message, .. } => out.push(message.clone()),
            _ => {}
        }
    }
    out
}

fn notifications(actions: &[Action]) -> Vec<BackendEvent> {
    let mut out = Vec::new();
    for a in actions {
        if let Action::Notify { event } = a {
            out.push(event.clone());
        }
    }
    out
}

fn transfer_of(pm: &PeerManager, id: u128) -> Option<FileTransferState> {
    for t in pm.active_transfers.iter() {
        if t.unique_id == id {
            return Some(t.clone());
        }
    }
    None
}

fn authenticated_pair() -> (FrontendManager, FrontendManager, PeerAddress, PeerAddress) {
    let mut a = node("A");
    let mut b = node("B");
    let addr_a = addr("127.0.0.1:9100");
    let addr_b = addr("127.0.0.1:9101");
    a.peer_manager.handle_connection(addr_b);
    b.peer_manager.handle_connection(addr_a);
    let (_, acts) = a.connect_poll(addr_b);
    b.peer_manager.handle_message(sent_messages(&acts).remove(0), addr_a);
    a.peer_manager.handle_message(
        Message::ConnectRequest(ConnectionInfo {
            name: "B".to_string(),
            backend_version: "1.0.0".to_string(),
        }),
        addr_b,
    );
    let acts = a.handle_frontend_event(FrontendEvent::ConnectionRequestResponse(
        ConnectionRequestResponse {
            ip: "127.0.0.1:9101".to_string(),
            accept: true,
            message: None,
        },
    ));
    let a_permit = sent_messages(&acts).remove(0);
    let acts = b.handle_frontend_event(FrontendEvent::ConnectionRequestResponse(
        ConnectionRequestResponse {
            ip: "127.0.0.1:9100".to_string(),
            accept: true,
            message: None,
        },
    ));
    let b_permit = sent_messages(&acts).remove(0);
    b.peer_manager.handle_message(a_permit, addr_a);
    a.peer_manager.handle_message(b_permit, addr_b);
    (a, b, addr_a, addr_b)
}

/// Runs the offer steps of a 3 MiB send from A to B and returns the id.
fn offered_and_accepted(
    a: &mut FrontendManager,
    b: &mut FrontendManager,
    addr_a: PeerAddress,
    addr_b: PeerAddress,
    size: u64,
) -> u128 {
    let cmd = TransmitFile {
        ip: "127.0.0.1:9101".to_string(),
        path: "/tmp/x".to_string(),
        filename: "x".to_string(),
    };
    let acts = a.handle_frontend_event(FrontendEvent::TransmitFile(cmd.clone()));
    assert!(matches!(acts[0], Action::PrepareFileSend { .. }));
    let acts = a.transmit_file_with_size(cmd, addr_b, size);
    let offer = sent_messages(&acts).remove(0);
    let id = match &offer {
        Message::FileOfferRequest(fo) => {
            assert_eq!(fo.size, size);
            assert_eq!(fo.chunk_len, 1048576);
            assert_eq!(fo.filename, "x");
            fo.unique_id
        },
        other => panic!("expected a file offer, got {:?}", other),
    };
    let rec = transfer_of(&a.peer_manager, id).expect("sender record missing");
    assert!(matches!(rec.status, FileTransferStatus::WaitingForPeerResponse));
    assert!(matches!(rec.direction, FileTransferDirection::Sending { ref file_path } if file_path == "/tmp/x"));

    // B receives the offer and tells its user, quoting the id's text form.
    let acts = b.peer_manager.handle_message(offer, addr_a);
    let id_text = match &notifications(&acts)[0] {
        BackendEvent::FileOffer(fo) => {
            assert_eq!(fo.filename, "x");
            assert_eq!(fo.size, size);
            fo.unique_id.clone()
        },
        other => panic!("expected a file offer notification, got {:?}", other),
    };

    // B's user accepts, by the textual id; the answer reaches A.
    let acts = b.handle_frontend_event(FrontendEvent::FileOfferResponse(FileOfferResponse {
        unique_id: id_text,
        accept: true,
    }));
    let answer = sent_messages(&acts).remove(0);
    assert!(matches!(acts[1], Action::CreateFileTarget { unique_id, .. } if unique_id == id));
    b.peer_manager.transfer_file_opened(id);
    assert!(matches!(
        transfer_of(&b.peer_manager, id).unwrap().status,
        FileTransferStatus::InProgress
    ));

    let acts = a.peer_manager.handle_message(answer, addr_b);
    assert!(matches!(acts[0], Action::OpenFileSource { unique_id, ref path } if unique_id == id && path == "/tmp/x"));
    let acts = a.peer_manager.transfer_file_opened(id);
    assert!(matches!(
        transfer_of(&a.peer_manager, id).unwrap().status,
        FileTransferStatus::InProgress
    ));
    let first_len = if size < 1048576 { size } else { 1048576 };
    assert!(matches!(
        acts[0],
        Action::ReadFileChunk { chunk_id: 0, offset: 0, len, .. } if len == first_len
    ));
    id
}

#[test]
fn file_offer_accepted_moves_both_records_in_progress() {
    let (mut a, mut b, addr_a, addr_b) = authenticated_pair();
    offered_and_accepted(&mut a, &mut b, addr_a, addr_b, 3145728);
}

#[test]
fn chunk_pump_completes_with_matching_checksum() {
    let (mut a, mut b, addr_a, addr_b) = authenticated_pair();
    // A small "file" of 5 bytes; the offer uses a 1 MiB chunk, so one chunk.
    let id = offered_and_accepted(&mut a, &mut b, addr_a, addr_b, 5);
    let data = vec![10u8, 20, 30, 40, 50];

    // The runtime reads the requested chunk and the engine sends it.
    let acts = a.peer_manager.send_chunk_data(id, 0, data.clone());
    let chunk = sent_messages(&acts).remove(0);
    match &chunk {
        Message::FileChunk(fc) => {
            assert_eq!(fc.chunk_count, 1);
            assert_eq!(fc.data, data);
        },
        other => panic!("expected a chunk, got {:?}", other),
    }

    // B takes the chunk: write, ack, progress.
    let acts = b.peer_manager.handle_message(chunk, addr_a);
    assert!(matches!(acts[0], Action::WriteFileChunk { .. }));
    let ack = sent_messages(&acts).remove(0);
    match &notifications(&acts)[0] {
        BackendEvent::FileTransferProgress(p) => {
            assert_eq!(p.bytes_transferred, 5);
            assert_eq!(p.total_bytes, 5);
        },
        other => panic!("expected progress, got {:?}", other),
    }
    let b_rec = transfer_of(&b.peer_manager, id).unwrap();
    assert!(b_rec.bytes_transferred <= b_rec.total_size);

    // A takes the ack: everything acknowledged, so the final message goes out.
    let acts = a.peer_manager.handle_message(ack, addr_b);
    let done = sent_messages(&acts).remove(0);
    assert!(matches!(done, Message::FileDone(_)));
    let a_rec = transfer_of(&a.peer_manager, id).unwrap();
    assert_eq!(a_rec.bytes_transferred, 5);

    // B verifies the checksum and reports completion.
    let acts = b.peer_manager.handle_message(done, addr_a);
    let verdict = sent_messages(&acts).remove(0);
    match &verdict {
        Message::FileDoneResult(r) => assert!(r.success),
        other => panic!("expected a verdict, got {:?}", other),
    }
    assert!(matches!(
        notifications(&acts)[0],
        BackendEvent::FileTransferComplete(_)
    ));
    assert!(matches!(
        transfer_of(&b.peer_manager, id).unwrap().status,
        FileTransferStatus::Completed
    ));

    // A hears the verdict and completes too.
    let acts = a.peer_manager.handle_message(verdict, addr_b);
    assert!(matches!(
        notifications(&acts)[0],
        BackendEvent::FileTransferComplete(_)
    ));
    assert!(matches!(
        transfer_of(&a.peer_manager, id).unwrap().status,
        FileTransferStatus::Completed
    ));
}

#[test]
fn mismatched_checksum_fails_the_transfer() {
    let (mut a, mut b, addr_a, addr_b) = authenticated_pair();
    let id = offered_and_accepted(&mut a, &mut b, addr_a, addr_b, 2);
    let chunk = Message::FileChunk(FileChunk {
        unique_id: id,
        chunk_id: 0,
        chunk_count: 1,
        data: vec![1, 2],
    });
    b.peer_manager.handle_message(chunk, addr_a);
    let done = Message::FileDone(FileDone { unique_id: id, checksum: vec![0xEE; 8] });
    let acts = b.peer_manager.handle_message(done, addr_a);
    match &sent_messages(&acts)[0] {
        Message::FileDoneResult(r) => {
            assert!(!r.success);
            assert_eq!(r.message.as_deref(), Some("Checksum mismatch"));
        },
        other => panic!("expected a verdict, got {:?}", other),
    }
    assert!(matches!(
        transfer_of(&b.peer_manager, id).unwrap().status,
        FileTransferStatus::Error(ref e) if e == "Checksum mismatch"
    ));
}

#[test]
fn oversized_chunk_is_a_protocol_violation() {
    let (mut a, mut b, addr_a, addr_b) = authenticated_pair();
    let id = offered_and_accepted(&mut a, &mut b, addr_a, addr_b, 2);
    let chunk = Message::FileChunk(FileChunk {
        unique_id: id,
        chunk_id: 0,
        chunk_count: 1,
        data: vec![0; 3],
    });
    let acts = b.peer_manager.handle_message(chunk, addr_a);
    // The peer is dropped, and its transfer records are destroyed with it.
    assert!(matches!(
        notifications(&acts)[0],
        BackendEvent::ConnectionBroken(ref c)
            if c.message.as_deref() == Some("Unexpected FileChunk")
    ));
    assert!(transfer_of(&b.peer_manager, id).is_none());
}

#[test]
fn empty_file_sends_done_at_once() {
    let (mut a, mut b, addr_a, addr_b) = authenticated_pair();
    let cmd = TransmitFile {
        ip: "127.0.0.1:9101".to_string(),
        path: "/tmp/empty".to_string(),
        filename: "empty".to_string(),
    };
    let acts = a.transmit_file_with_size(cmd, addr_b, 0);
    let offer = sent_messages(&acts).remove(0);
    let id = match &offer {
        Message::FileOfferRequest(fo) => fo.unique_id,
        _ => unreachable!(),
    };
    b.peer_manager.handle_message(offer, addr_a);
    let acts = a.peer_manager.transfer_file_opened(id);
    assert!(matches!(sent_messages(&acts)[0], Message::FileDone(_)));
}

#[test]
fn rejected_offer_marks_the_record() {
    let (mut a, mut b, addr_a, addr_b) = authenticated_pair();
    let cmd = TransmitFile {
        ip: "127.0.0.1:9101".to_string(),
        path: "/tmp/x".to_string(),
        filename: "x".to_string(),
    };
    let acts = a.transmit_file_with_size(cmd, addr_b, 100);
    let offer = sent_messages(&acts).remove(0);
    let id = match &offer {
        Message::FileOfferRequest(fo) => fo.unique_id,
        _ => unreachable!(),
    };
    let acts = b.peer_manager.handle_message(offer, addr_a);
    let id_text = match &notifications(&acts)[0] {
        BackendEvent::FileOffer(fo) => fo.unique_id.clone(),
        _ => unreachable!(),
    };
    let acts = b.handle_frontend_event(FrontendEvent::FileOfferResponse(FileOfferResponse {
        unique_id: id_text,
        accept: false,
    }));
    let answer = sent_messages(&acts).remove(0);
    assert!(matches!(
        transfer_of(&b.peer_manager, id).unwrap().status,
        FileTransferStatus::Rejected
    ));
    a.peer_manager.handle_message(answer, addr_b);
    assert!(matches!(
        transfer_of(&a.peer_manager, id).unwrap().status,
        FileTransferStatus::Rejected
    ));
}

#[test]
fn transfer_open_failure_reports_error() {
    let (mut a, mut b, addr_a, addr_b) = authenticated_pair();
    let id = offered_and_accepted(&mut a, &mut b, addr_a, addr_b, 7);
    let acts = a
        .peer_manager
        .transfer_file_open_failed(id, "Failed to open file: missing".to_string());
    match &notifications(&acts)[0] {
        BackendEvent::FileTransferError(e) => {
            assert_eq!(e.message, "Failed to open file: missing");
        },
        other => panic!("expected an error, got {:?}", other),
    }
    assert!(matches!(
        transfer_of(&a.peer_manager, id).unwrap().status,
        FileTransferStatus::Error(ref e) if e == "Failed to open file: missing"
    ));
}

#[test]
fn cancel_marks_record_cancelled() {
    let (mut a, mut b, addr_a, addr_b) = authenticated_pair();
    let id = offered_and_accepted(&mut a, &mut b, addr_a, addr_b, 7);
    // Cancel on the sender side, through the id's canonical text.
    let acts = a.peer_manager.handle_message(Message::KeepAlive, addr_b);
    assert!(matches!(acts[0], Action::ScheduleKeepAlive { .. }));
    let id_text = {
        // Recover the text form the way the user saw it: from a fresh offer
        // notification on the receiving side.
        let rec = transfer_of(&b.peer_manager, id).unwrap();
        assert_eq!(rec.unique_id, id);
        // The receiver learned the text from the FileOffer notification in
        // offered_and_accepted; regenerate it by asking B to cancel first.
        let mut found = String::new();
        for t in b.peer_manager.active_transfers.iter() {
            if t.unique_id == id {
                found = format!(
                    "{:08x}-{:04x}-{:04x}-{:04x}-{:012x}",
                    (id >> 96) as u32,
                    ((id >> 80) & 0xFFFF) as u16,
                    ((id >> 64) & 0xFFFF) as u16,
                    ((id >> 48) & 0xFFFF) as u16,
                    id & 0xFFFF_FFFF_FFFF,
                );
            }
        }
        found
    };
    let acts = a.handle_frontend_event(FrontendEvent::CancelFileTransfer(CancelFileTransfer {
        unique_id: id_text,
        message: None,
    }));
    assert!(acts.is_empty());
    assert!(matches!(
        transfer_of(&a.peer_manager, id).unwrap().status,
        FileTransferStatus::Cancelled
    ));
}

#[test]
fn offer_before_authentication_is_refused() {
    let mut b = node("B");
    let addr_a = addr("127.0.0.1:9100");
    b.peer_manager.handle_connection(addr_a);
    let offer = Message::FileOfferRequest(kuaip2p::protocol::FileOffer {
        filename: "x".to_string(),
        unique_id: 1,
        size: 10,
        chunk_len: 10,
    });
    let acts = b.peer_manager.handle_message(offer, addr_a);
    // Dropped without an upward notification (the peer was never admitted).
    assert!(notifications(&acts).is_empty());
    assert!(matches!(acts[0], Action::CloseSession { .. }));
    assert!(transfer_of(&b.peer_manager, 1).is_none());
}

#[test]
fn connect_request_from_unknown_peer_is_ignored() {
    let mut a = node("A");
    let ghost_addr = addr("127.0.0.1:4444");
    let acts = a.peer_manager.handle_message(
        Message::ConnectRequest(ConnectionInfo {
            name: "X".to_string(),
            backend_version: "1.0.0".to_string(),
        }),
        ghost_addr,
    );
    assert!(acts.is_empty());
}


#[test]
fn dropping_a_peer_destroys_its_transfer_records() {
    let (mut a, _, _, addr_b) = authenticated_pair();
    let cmd = TransmitFile {
        ip: "127.0.0.1:9101".to_string(),
        path: "/tmp/x".to_string(),
        filename: "x".to_string(),
    };
    let acts = a.transmit_file_with_size(cmd, addr_b, 10);
    let id = match &sent_messages(&acts)[0] {
        Message::FileOfferRequest(fo) => fo.unique_id,
        _ => unreachable!(),
    };
    assert!(transfer_of(&a.peer_manager, id).is_some());
    // The offer's enqueue fails: the runtime drops the peer, and no orphaned
    // record survives.
    let acts = a.peer_manager.drop_peer(addr_b, Some("Failed to send message to peer".to_string()));
    assert!(matches!(
        notifications(&acts)[0],
        BackendEvent::ConnectionBroken(_)
    ));
    assert!(transfer_of(&a.peer_manager, id).is_none());
    assert!(a.peer_manager.active_transfers.is_empty());
}
