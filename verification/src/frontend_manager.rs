//! The outbound half of the state machine: user commands are validated and
//! turned into registry transitions and actions. A command that cannot be
//! carried out is echoed upward as a `BadFrontendEvent` with the reason, and
//! peer and transfer state are then left untouched.

use vstd::prelude::*;
use vstd::assert_seqs_equal;

use crate::address::{PeerAddress, parse_socket_addr, parse_peer_address};
use crate::backend_event::{BackendEvent, BackendEventView};
use crate::frontend_event::{ConnectRequest, ConnectRequestView, ConnectionRequestResponse,
    ConnectionRequestResponseView, DisconnectRequest, DisconnectRequestView, TransmitFile,
    TransmitFileView, FileOfferResponse, FileOfferResponseView, CancelFileTransfer,
    CancelFileTransferView, BackendStartupConfig, FrontendEvent, FrontendEventView};
use crate::message_handlers::{bad_event_action, dropped_with, peers_frame_except,
    transfers_frame_except};
use crate::peer_manager::{Action, ActionView, Peer, PeerInfo, PeerInfoView, PeerManager,
    PeerState, PeerStateView, FileTransferState, FileTransferStateView, FileTransferDirection,
    FileTransferDirectionView, FileTransferStatus, FileTransferStatusView, acts_view,
    clone_transfer, find_peer_idx, find_transfer_idx, has_peer, has_transfer, lemma_peer_at,
    lemma_peer_update, lemma_transfer_at, lemma_transfer_update, lemma_transfer_push,
    lemma_transfer_remove, peer_state, shutdown_actions, transfer_state,
    transfers_after_shutdown, transfers_dropped_for};
use crate::protocol::{Message, MessageView};
use crate::ids::{uuid_of_text, fresh_transfer_id, parse_transfer_id};

verus! {

/// The command-handling half of the engine: the peer manager plus the
/// identity this node presents to peers.
pub struct FrontendManager {
    pub peer_manager: PeerManager,
    pub self_info: crate::protocol::ConnectionInfo,
}

impl FrontendManager {
    pub open spec fn wf(self) -> bool {
        self.peer_manager.wf()
    }

    /// Wrap a peer manager with this node's identity.
    pub fn new(peer_manager: PeerManager, self_info: crate::protocol::ConnectionInfo) -> (r:
        FrontendManager)
        requires
            peer_manager.wf(),
        ensures
            r.wf(),
            r.peer_manager == peer_manager,
            r.self_info == self_info,
    {
        FrontendManager { peer_manager, self_info }
    }

    /// Ask the runtime to bind the listener; the engine's running flag flips
    /// only once `listener_bound` reports success.
    pub fn start_peer_manager(&mut self, bind_addr: String) -> (r: Vec<Action>)
        requires
            old(self).wf(),
        ensures
            final(self).wf(),
            *final(self) == *old(self),
            r@.len() == 1,
            r@[0] matches Action::BindListener { bind_addr: b } && b@ == bind_addr@,
    {
        let mut r: Vec<Action> = Vec::new();
        r.push(Action::BindListener { bind_addr });
        r
    }

    /// Stop the engine gracefully; see [`PeerManager::shutdown`].
    pub fn shutdown_peer_manager(&mut self) -> (r: Vec<Action>)
        requires
            old(self).wf(),
        ensures
            final(self).wf(),
            final(self).self_info == old(self).self_info,
            !final(self).peer_manager.running,
            old(self).peer_manager.running ==> final(self).peer_manager.active_peers@.len() == 0
                && acts_view(r@) == shutdown_actions(old(self).peer_manager.active_peers@)
                && transfers_after_shutdown(
                old(self).peer_manager.active_transfers@,
                old(self).peer_manager.active_peers@,
                final(self).peer_manager.active_transfers@,
            ),
            !old(self).peer_manager.running ==> final(self).peer_manager.active_peers == old(
                self,
            ).peer_manager.active_peers && final(self).peer_manager.active_transfers == old(
                self,
            ).peer_manager.active_transfers && r@.len() == 1 && (r@[0] matches Action::Notify { event }
                && event@ == BackendEventView::BackendWarning(
                crate::backend_event::BackendWarningView {
                    message:
                        "PeerManager has already been shutdown, or never started. Aborting shutdown."@,
                },
            )),
    {
        self.peer_manager.shutdown()
    }

    /// The listener could not be bound or failed: the engine stops and the
    /// user is told the restart is theirs to make.
    pub fn listener_failed(&mut self) -> (r: Vec<Action>)
        requires
            old(self).wf(),
        ensures
            final(self).wf(),
            final(self).self_info == old(self).self_info,
            !final(self).peer_manager.running,
            final(self).peer_manager.active_peers == old(self).peer_manager.active_peers,
            final(self).peer_manager.active_transfers == old(self).peer_manager.active_transfers,
            r@.len() == 1,
            r@[0] matches Action::Notify { event } && event@ == BackendEventView::BackendFatal(
                crate::backend_event::BackendFatalView {
                    message:
                        "PeerManager failed. Restart the backend. Please check the logs for more information."@,
                },
            ),
    {
        self.peer_manager.running = false;
        let mut r: Vec<Action> = Vec::new();
        r.push(
            Action::Notify {
                event: BackendEvent::BackendFatal(
                    crate::backend_event::BackendFatal {
                        message: <String as vstd::string::StringExecFns>::from_str(
                            "PeerManager failed. Restart the backend. Please check the logs for more information.",
                        ),
                    },
                ),
            },
        );
        r
    }

    /// The accept loop ended after an orderly shutdown: report it.
    pub fn listener_closed(&self) -> (r: Vec<Action>)
        ensures
            r@.len() == 1,
            r@[0] matches Action::Notify { event } && event@ == BackendEventView::BackendShutdown,
    {
        let mut r: Vec<Action> = Vec::new();
        r.push(Action::Notify { event: BackendEvent::BackendShutdown });
        r
    }

    /// A `FrontendReady` after start-up is unexpected: complain and ignore.
    pub fn handle_frontend_ready(&mut self, backend_startup_config: BackendStartupConfig) -> (r:
        Vec<Action>)
        requires
            old(self).wf(),
        ensures
            final(self).wf(),
            *final(self) == *old(self),
            bad_event_action(
                FrontendEventView::FrontendReady(backend_startup_config@),
                "Backend is already running"@,
                r@,
            ),
    {
        let mut r: Vec<Action> = Vec::new();
        r.push(
            Action::Notify {
                event: BackendEvent::BadFrontendEvent(
                    crate::backend_event::BadFrontendEvent {
                        event: FrontendEvent::FrontendReady(backend_startup_config),
                        error: <String as vstd::string::StringExecFns>::from_str(
                            "Backend is already running",
                        ),
                    },
                ),
            },
        );
        r
    }
}

// ---------------------------------------------------------------------------
// Connect command
// ---------------------------------------------------------------------------

/// A connect command: the address must parse, the engine must run, and the
/// address must not already be registered; then the runtime dials out.
pub open spec fn post_fm_connect_request(
    pre: FrontendManager,
    post: FrontendManager,
    cmd: ConnectRequestView,
    r: Seq<Action>,
) -> bool {
    &&& post.self_info == pre.self_info
    &&& post.peer_manager == pre.peer_manager
    &&& (match parse_socket_addr(cmd.ip) {
        None => bad_event_action(
            FrontendEventView::ConnectRequest(cmd),
            "Invalid IP address"@,
            r,
        ),
        Some(addr) => {
            &&& (!pre.peer_manager.running || has_peer(pre.peer_manager.active_peers@, addr)
                ==> bad_event_action(
                FrontendEventView::ConnectRequest(cmd),
                "Failed to connect to the peer"@,
                r,
            ))
            &&& (pre.peer_manager.running && !has_peer(pre.peer_manager.active_peers@, addr)
                ==> r.len() == 1 && (r[0] matches Action::OpenConnection { addr: a } && a
                == addr))
        },
    })
}

impl FrontendManager {
    pub fn handle_connect_request(&mut self, connect_request: ConnectRequest) -> (r: Vec<Action>)
        requires
            old(self).wf(),
        ensures
            final(self).wf(),
            post_fm_connect_request(*old(self), *final(self), connect_request@, r@),
    {
        match parse_peer_address(connect_request.ip.as_str()) {
            None => {
                let mut r: Vec<Action> = Vec::new();
                r.push(
                    Action::Notify {
                        event: BackendEvent::BadFrontendEvent(
                            crate::backend_event::BadFrontendEvent {
                                event: FrontendEvent::ConnectRequest(connect_request),
                                error: <String as vstd::string::StringExecFns>::from_str(
                                    "Invalid IP address",
                                ),
                            },
                        ),
                    },
                );
                r
            },
            Some(addr) => {
                match self.peer_manager.connect(addr) {
                    Ok(_) => {
                        let mut r: Vec<Action> = Vec::new();
                        r.push(Action::OpenConnection { addr });
                        r
                    },
                    Err(_) => {
                        let mut r: Vec<Action> = Vec::new();
                        r.push(
                            Action::Notify {
                                event: BackendEvent::BadFrontendEvent(
                                    crate::backend_event::BadFrontendEvent {
                                        event: FrontendEvent::ConnectRequest(connect_request),
                                        error: <String as vstd::string::StringExecFns>::from_str(
                                            "Failed to connect to the peer",
                                        ),
                                    },
                                ),
                            },
                        );
                        r
                    },
                }
            },
        }
    }

    /// One poll of the connect window: once the session appears, our
    /// connect request with this node's identity goes onto its outbox.
    pub fn connect_poll(&self, peer_addr: PeerAddress) -> (r: (bool, Vec<Action>))
        ensures
            has_peer(self.peer_manager.active_peers@, peer_addr) ==> r.0 && r.1@.len() == 1 && (
            r.1@[0] matches Action::SendPeer { addr, message } && addr == peer_addr && message@
                == MessageView::ConnectRequest(
                crate::protocol::ConnectionInfoView {
                    name: self.self_info.name@,
                    backend_version: self.self_info.backend_version@,
                },
            )),
            !has_peer(self.peer_manager.active_peers@, peer_addr) ==> !r.0 && r.1@.len() == 0,
    {
        match find_peer_idx(&self.peer_manager.active_peers, &peer_addr) {
            Some(_) => {
                let mut acts: Vec<Action> = Vec::new();
                acts.push(
                    Action::SendPeer {
                        addr: peer_addr,
                        message: Message::ConnectRequest(
                            crate::protocol::ConnectionInfo {
                                name: self.self_info.name.clone(),
                                backend_version: self.self_info.backend_version.clone(),
                            },
                        ),
                    },
                );
                (true, acts)
            },
            None => (false, Vec::new()),
        }
    }

    /// The connect window expired without the session appearing.
    pub fn connect_window_expired(&self, connect_request: ConnectRequest) -> (r: Vec<Action>)
        ensures
            bad_event_action(
                FrontendEventView::ConnectRequest(connect_request@),
                "Peer not found in the active peers list"@,
                r@,
            ),
    {
        let mut r: Vec<Action> = Vec::new();
        r.push(
            Action::Notify {
                event: BackendEvent::BadFrontendEvent(
                    crate::backend_event::BadFrontendEvent {
                        event: FrontendEvent::ConnectRequest(connect_request),
                        error: <String as vstd::string::StringExecFns>::from_str(
                            "Peer not found in the active peers list",
                        ),
                    },
                ),
            },
        );
        r
    }

    /// The outbound TCP dial failed.
    pub fn connect_failed(&self, connect_request: ConnectRequest) -> (r: Vec<Action>)
        ensures
            bad_event_action(
                FrontendEventView::ConnectRequest(connect_request@),
                "Failed to connect to the peer"@,
                r@,
            ),
    {
        let mut r: Vec<Action> = Vec::new();
        r.push(
            Action::Notify {
                event: BackendEvent::BadFrontendEvent(
                    crate::backend_event::BadFrontendEvent {
                        event: FrontendEvent::ConnectRequest(connect_request),
                        error: <String as vstd::string::StringExecFns>::from_str(
                            "Failed to connect to the peer",
                        ),
                    },
                ),
            },
        );
        r
    }
}


// ---------------------------------------------------------------------------
// Connection request response command
// ---------------------------------------------------------------------------

/// The user's verdict on a peer's connection request. Acceptance requires
/// the session to be `Connected` with the peer's identity known: it becomes
/// `Authenticated` and a permit carrying this node's identity goes out.
/// Refusal sends a denial and enters `Disconnecting`. A session without the
/// identity, or (on refusal) in a later state, is dropped.
pub open spec fn post_fm_connection_request_response(
    pre: FrontendManager,
    post: FrontendManager,
    cmd: ConnectionRequestResponseView,
    r: Seq<Action>,
) -> bool {
    &&& post.self_info == pre.self_info
    &&& post.peer_manager.running == pre.peer_manager.running
    &&& (match parse_socket_addr(cmd.ip) {
        None => post.peer_manager == pre.peer_manager && bad_event_action(
            FrontendEventView::ConnectionRequestResponse(cmd),
            "Invalid IP address"@,
            r,
        ),
        Some(addr) => {
            &&& peers_frame_except(
                pre.peer_manager.active_peers@,
                post.peer_manager.active_peers@,
                addr,
            )
            &&& (!has_peer(pre.peer_manager.active_peers@, addr) ==> post.peer_manager
                == pre.peer_manager && bad_event_action(
                FrontendEventView::ConnectionRequestResponse(cmd),
                "Peer does not exist"@,
                r,
            ))
            &&& (has_peer(pre.peer_manager.active_peers@, addr) ==> (peer_state(
                pre.peer_manager.active_peers@,
                addr,
            ) matches PeerStateView::Connected { peer_info: Some(info) } ==> (if cmd.accept {
                &&& post.peer_manager.active_transfers == pre.peer_manager.active_transfers
                &&& has_peer(post.peer_manager.active_peers@, addr)
                &&& peer_state(post.peer_manager.active_peers@, addr)
                    == (PeerStateView::Authenticated { peer_info: info })
                &&& r.len() == 1
                &&& (r[0] matches Action::SendPeer { addr: a2, message } && a2 == addr
                    && message@ == MessageView::ConnectResponse(
                    crate::protocol::ConnectionResponseView {
                        permit: crate::protocol::ConnectionPermitView::Permit {
                            identitiy: crate::protocol::ConnectionInfoView {
                                name: pre.self_info.name@,
                                backend_version: pre.self_info.backend_version@,
                            },
                        },
                        message: cmd.message,
                    },
                ))
            } else {
                &&& post.peer_manager.active_transfers == pre.peer_manager.active_transfers
                &&& has_peer(post.peer_manager.active_peers@, addr)
                &&& peer_state(post.peer_manager.active_peers@, addr)
                    == (PeerStateView::Disconnecting {
                    reason: if cmd.message is Some {
                        cmd.message
                    } else {
                        Some("rejected by user"@)
                    },
                    peer_info: info,
                })
                &&& r.len() == 1
                &&& (r[0] matches Action::SendPeer { addr: a2, message } && a2 == addr
                    && message@ == MessageView::ConnectResponse(
                    crate::protocol::ConnectionResponseView {
                        permit: crate::protocol::ConnectionPermitView::Deny,
                        message: cmd.message,
                    },
                ))
            })))
            &&& (has_peer(pre.peer_manager.active_peers@, addr) ==> (peer_state(
                pre.peer_manager.active_peers@,
                addr,
            ) matches PeerStateView::Connected { peer_info: None } ==> dropped_with(
                pre.peer_manager,
                post.peer_manager,
                addr,
                Some("Peer info not set"@),
                r,
            )))
            &&& ((has_peer(pre.peer_manager.active_peers@, addr) && !(peer_state(
                pre.peer_manager.active_peers@,
                addr,
            ) is Connected)) ==> (if cmd.accept {
                post.peer_manager == pre.peer_manager && r.len() == 0
            } else {
                dropped_with(
                    pre.peer_manager,
                    post.peer_manager,
                    addr,
                    Some("Peer is not in the connecting state"@),
                    r,
                )
            }))
        },
    })
}

// ---------------------------------------------------------------------------
// Disconnect command
// ---------------------------------------------------------------------------

/// The user asks to leave a peer: a session with a known identity enters
/// `Disconnecting` and the disconnect request goes out; one already
/// disconnecting, or one with no identity yet, is dropped.
pub open spec fn post_fm_disconnect_request(
    pre: FrontendManager,
    post: FrontendManager,
    cmd: DisconnectRequestView,
    r: Seq<Action>,
) -> bool {
    &&& post.self_info == pre.self_info
    &&& post.peer_manager.running == pre.peer_manager.running
    &&& (match parse_socket_addr(cmd.ip) {
        None => post.peer_manager == pre.peer_manager && bad_event_action(
            FrontendEventView::DisconnectRequest(cmd),
            "Invalid IP address"@,
            r,
        ),
        Some(addr) => {
            &&& peers_frame_except(
                pre.peer_manager.active_peers@,
                post.peer_manager.active_peers@,
                addr,
            )
            &&& (!has_peer(pre.peer_manager.active_peers@, addr) ==> post.peer_manager
                == pre.peer_manager && bad_event_action(
                FrontendEventView::DisconnectRequest(cmd),
                "Peer is not connected"@,
                r,
            ))
            &&& (has_peer(pre.peer_manager.active_peers@, addr) ==> (peer_state(
                pre.peer_manager.active_peers@,
                addr,
            ) matches PeerStateView::Connected { peer_info: None } ==> dropped_with(
                pre.peer_manager,
                post.peer_manager,
                addr,
                Some("Peer info not set when handling DisconnectRequest"@),
                r,
            )))
            &&& (has_peer(pre.peer_manager.active_peers@, addr) ==> (peer_state(
                pre.peer_manager.active_peers@,
                addr,
            ) matches PeerStateView::Connected { peer_info: Some(info) }
                ==> disconnecting_with_info(
                pre.peer_manager,
                post.peer_manager,
                addr,
                info,
                cmd.message,
                r,
            )))
            &&& (has_peer(pre.peer_manager.active_peers@, addr) ==> (peer_state(
                pre.peer_manager.active_peers@,
                addr,
            ) matches PeerStateView::Authenticated { peer_info: info }
                ==> disconnecting_with_info(
                pre.peer_manager,
                post.peer_manager,
                addr,
                info,
                cmd.message,
                r,
            )))
            &&& ((has_peer(pre.peer_manager.active_peers@, addr) && peer_state(
                pre.peer_manager.active_peers@,
                addr,
            ) is Disconnecting) ==> dropped_with(
                pre.peer_manager,
                post.peer_manager,
                addr,
                Some("Peer is not connected"@),
                r,
            ))
        },
    })
}

/// The session is now `Disconnecting` with the given identity and reason,
/// and the disconnect request is on its way out.
pub open spec fn disconnecting_with_info(
    pre_pm: PeerManager,
    post_pm: PeerManager,
    addr: PeerAddress,
    info: PeerInfoView,
    message: Option<Seq<char>>,
    r: Seq<Action>,
) -> bool {
    &&& post_pm.active_transfers == pre_pm.active_transfers
    &&& has_peer(post_pm.active_peers@, addr)
    &&& peer_state(post_pm.active_peers@, addr) == (PeerStateView::Disconnecting {
        reason: message,
        peer_info: info,
    })
    &&& r.len() == 1
    &&& (r[0] matches Action::SendPeer { addr: a2, message: m } && a2 == addr && m@
        == MessageView::DisconnectRequest(crate::protocol::DisconnectRequestView { message }))
}

impl FrontendManager {
    pub fn handle_connection_request_response(
        &mut self,
        connection_request_response: ConnectionRequestResponse,
    ) -> (r: Vec<Action>)
        requires
            old(self).wf(),
        ensures
            final(self).wf(),
            post_fm_connection_request_response(
                *old(self),
                *final(self),
                connection_request_response@,
                r@,
            ),
    {
        match parse_peer_address(connection_request_response.ip.as_str()) {
            None => {
                let mut r: Vec<Action> = Vec::new();
                r.push(
                    Action::Notify {
                        event: BackendEvent::BadFrontendEvent(
                            crate::backend_event::BadFrontendEvent {
                                event: FrontendEvent::ConnectionRequestResponse(
                                    connection_request_response,
                                ),
                                error: <String as vstd::string::StringExecFns>::from_str(
                                    "Invalid IP address",
                                ),
                            },
                        ),
                    },
                );
                r
            },
            Some(addr) => {
                match find_peer_idx(&self.peer_manager.active_peers, &addr) {
                    None => {
                        let mut r: Vec<Action> = Vec::new();
                        r.push(
                            Action::Notify {
                                event: BackendEvent::BadFrontendEvent(
                                    crate::backend_event::BadFrontendEvent {
                                        event: FrontendEvent::ConnectionRequestResponse(
                                            connection_request_response,
                                        ),
                                        error: <String as vstd::string::StringExecFns>::from_str(
                                            "Peer does not exist",
                                        ),
                                    },
                                ),
                            },
                        );
                        r
                    },
                    Some(i) => {
                        proof {
                            lemma_peer_at(self.peer_manager.active_peers@, i as int);
                        }
                        let state_ref = &self.peer_manager.active_peers[i].state;
                        if matches!(state_ref, PeerState::Connected { peer_info: None }) {
                            self.peer_manager.drop_peer(
                                addr,
                                Some(
                                    <String as vstd::string::StringExecFns>::from_str(
                                        "Peer info not set",
                                    ),
                                ),
                            )
                        } else if matches!(state_ref, PeerState::Connected { peer_info: Some(_) }) {
                            let info = match &self.peer_manager.active_peers[i].state {
                                PeerState::Connected { peer_info: Some(peer_info) } => PeerInfo {
                                    name: peer_info.name.clone(),
                                    backend_version: peer_info.backend_version.clone(),
                                },
                                _ => PeerInfo {
                                    name: String::new(),
                                    backend_version: String::new(),
                                },
                            };
                            if connection_request_response.accept {
                                let upd = Peer {
                                    addr,
                                    state: PeerState::Authenticated { peer_info: info },
                                };
                                proof {
                                    lemma_peer_update(
                                        self.peer_manager.active_peers@,
                                        i as int,
                                        upd,
                                    );
                                }
                                self.peer_manager.active_peers.set(i, upd);
                                let mut r: Vec<Action> = Vec::new();
                                r.push(
                                    Action::SendPeer {
                                        addr,
                                        message: Message::ConnectResponse(
                                            crate::protocol::ConnectionResponse {
                                                permit: crate::protocol::ConnectionPermit::Permit {
                                                    identitiy: crate::protocol::ConnectionInfo {
                                                        name: self.self_info.name.clone(),
                                                        backend_version: self.self_info.backend_version.clone(),
                                                    },
                                                },
                                                message: connection_request_response.message,
                                            },
                                        ),
                                    },
                                );
                                r
                            } else {
                                let reason = match &connection_request_response.message {
                                    Some(m) => Some(m.clone()),
                                    None => Some(
                                        <String as vstd::string::StringExecFns>::from_str(
                                            "rejected by user",
                                        ),
                                    ),
                                };
                                let upd = Peer {
                                    addr,
                                    state: PeerState::Disconnecting { reason, peer_info: info },
                                };
                                proof {
                                    lemma_peer_update(
                                        self.peer_manager.active_peers@,
                                        i as int,
                                        upd,
                                    );
                                }
                                self.peer_manager.active_peers.set(i, upd);
                                let mut r: Vec<Action> = Vec::new();
                                r.push(
                                    Action::SendPeer {
                                        addr,
                                        message: Message::ConnectResponse(
                                            crate::protocol::ConnectionResponse {
                                                permit: crate::protocol::ConnectionPermit::Deny,
                                                message: connection_request_response.message,
                                            },
                                        ),
                                    },
                                );
                                r
                            }
                        } else {
                            if connection_request_response.accept {
                                Vec::new()
                            } else {
                                self.peer_manager.drop_peer(
                                    addr,
                                    Some(
                                        <String as vstd::string::StringExecFns>::from_str(
                                            "Peer is not in the connecting state",
                                        ),
                                    ),
                                )
                            }
                        }
                    },
                }
            },
        }
    }

    pub fn handle_disconnect_request(&mut self, disconnect_request: DisconnectRequest) -> (r: Vec<
        Action,
    >)
        requires
            old(self).wf(),
        ensures
            final(self).wf(),
            post_fm_disconnect_request(*old(self), *final(self), disconnect_request@, r@),
    {
        match parse_peer_address(disconnect_request.ip.as_str()) {
            None => {
                let mut r: Vec<Action> = Vec::new();
                r.push(
                    Action::Notify {
                        event: BackendEvent::BadFrontendEvent(
                            crate::backend_event::BadFrontendEvent {
                                event: FrontendEvent::DisconnectRequest(disconnect_request),
                                error: <String as vstd::string::StringExecFns>::from_str(
                                    "Invalid IP address",
                                ),
                            },
                        ),
                    },
                );
                r
            },
            Some(addr) => {
                match find_peer_idx(&self.peer_manager.active_peers, &addr) {
                    None => {
                        let mut r: Vec<Action> = Vec::new();
                        r.push(
                            Action::Notify {
                                event: BackendEvent::BadFrontendEvent(
                                    crate::backend_event::BadFrontendEvent {
                                        event: FrontendEvent::DisconnectRequest(
                                            disconnect_request,
                                        ),
                                        error: <String as vstd::string::StringExecFns>::from_str(
                                            "Peer is not connected",
                                        ),
                                    },
                                ),
                            },
                        );
                        r
                    },
                    Some(i) => {
                        proof {
                            lemma_peer_at(self.peer_manager.active_peers@, i as int);
                        }
                        let state_ref = &self.peer_manager.active_peers[i].state;
                        if matches!(state_ref, PeerState::Connected { peer_info: None }) {
                            self.peer_manager.drop_peer(
                                addr,
                                Some(
                                    <String as vstd::string::StringExecFns>::from_str(
                                        "Peer info not set when handling DisconnectRequest",
                                    ),
                                ),
                            )
                        } else if matches!(state_ref, PeerState::Disconnecting { .. }) {
                            self.peer_manager.drop_peer(
                                addr,
                                Some(
                                    <String as vstd::string::StringExecFns>::from_str(
                                        "Peer is not connected",
                                    ),
                                ),
                            )
                        } else {
                            let info = match &self.peer_manager.active_peers[i].state {
                                PeerState::Connected { peer_info: Some(peer_info) } => PeerInfo {
                                    name: peer_info.name.clone(),
                                    backend_version: peer_info.backend_version.clone(),
                                },
                                PeerState::Authenticated { peer_info } => PeerInfo {
                                    name: peer_info.name.clone(),
                                    backend_version: peer_info.backend_version.clone(),
                                },
                                _ => PeerInfo {
                                    name: String::new(),
                                    backend_version: String::new(),
                                },
                            };
                            let reason = match &disconnect_request.message {
                                Some(m) => Some(m.clone()),
                                None => None,
                            };
                            let upd = Peer {
                                addr,
                                state: PeerState::Disconnecting { reason, peer_info: info },
                            };
                            proof {
                                lemma_peer_update(self.peer_manager.active_peers@, i as int, upd);
                            }
                            self.peer_manager.active_peers.set(i, upd);
                            let mut r: Vec<Action> = Vec::new();
                            r.push(
                                Action::SendPeer {
                                    addr,
                                    message: Message::DisconnectRequest(
                                        crate::protocol::DisconnectRequest {
                                            message: disconnect_request.message,
                                        },
                                    ),
                                },
                            );
                            r
                        }
                    },
                }
            },
        }
    }
}


// ---------------------------------------------------------------------------
// Transmit file command
// ---------------------------------------------------------------------------

/// A transmit command's first step: with a parseable address, ask the
/// runtime to open the source file and read its size.
pub open spec fn post_fm_transmit_file(
    pre: FrontendManager,
    post: FrontendManager,
    cmd: TransmitFileView,
    r: Seq<Action>,
) -> bool {
    &&& post == pre
    &&& (match parse_socket_addr(cmd.ip) {
        None => bad_event_action(
            FrontendEventView::TransmitFile(cmd),
            "Invalid IP address"@,
            r,
        ),
        Some(addr) => r.len() == 1 && (r[0] matches Action::PrepareFileSend {
            path,
            filename,
            addr: a,
        } && path@ == cmd.path && filename@ == cmd.filename && a == addr),
    })
}

/// A transmit command with the source file's size known: if the peer is
/// registered, a fresh transfer id is drawn, the offer goes out with a one
/// mebibyte chunk length, and a sending record is created waiting for the
/// peer's response. The record and the offer carry the same fresh id.
pub open spec fn post_fm_transmit_file_with_size(
    pre: FrontendManager,
    post: FrontendManager,
    cmd: TransmitFileView,
    peer_addr: PeerAddress,
    size: u64,
    r: Seq<Action>,
) -> bool {
    &&& post.self_info == pre.self_info
    &&& post.peer_manager.running == pre.peer_manager.running
    &&& post.peer_manager.active_peers == pre.peer_manager.active_peers
    &&& (!has_peer(pre.peer_manager.active_peers@, peer_addr) ==> post.peer_manager
        == pre.peer_manager && bad_event_action(
        FrontendEventView::TransmitFile(cmd),
        "Peer is not connected"@,
        r,
    ))
    &&& (has_peer(pre.peer_manager.active_peers@, peer_addr) ==> r.len() == 1 && (
    r[0] matches Action::SendPeer { addr, message } && addr == peer_addr && (
    message@ matches MessageView::FileOfferRequest(fo) && {
        &&& fo.filename == cmd.filename
        &&& fo.size == size
        &&& fo.chunk_len == 0x100000
        &&& transfers_frame_except(
            pre.peer_manager.active_transfers@,
            post.peer_manager.active_transfers@,
            fo.unique_id,
        )
        &&& has_transfer(post.peer_manager.active_transfers@, fo.unique_id)
        &&& transfer_state(post.peer_manager.active_transfers@, fo.unique_id)
            == (FileTransferStateView {
            unique_id: fo.unique_id,
            peer_addr,
            direction: FileTransferDirectionView::Sending { file_path: cmd.path },
            filename: cmd.filename,
            total_size: size,
            bytes_transferred: 0,
            chunk_len: 0x100000,
            status: FileTransferStatusView::WaitingForPeerResponse,
            checksum: 0,
        })
    })))
}

// ---------------------------------------------------------------------------
// File offer response command
// ---------------------------------------------------------------------------

/// The user's answer to a received file offer: the id must name a known
/// receiving record whose peer is still registered; the answer goes out on
/// the wire, and on acceptance the runtime creates the target file (the
/// record moves to `InProgress` once it is open), on rejection the record
/// ends `Rejected`.
pub open spec fn post_fm_file_offer_response(
    pre: FrontendManager,
    post: FrontendManager,
    cmd: FileOfferResponseView,
    r: Seq<Action>,
) -> bool {
    &&& post.self_info == pre.self_info
    &&& post.peer_manager.running == pre.peer_manager.running
    &&& post.peer_manager.active_peers == pre.peer_manager.active_peers
    &&& (match uuid_of_text(cmd.unique_id) {
        None => post.peer_manager == pre.peer_manager && bad_event_action(
            FrontendEventView::FileOfferResponse(cmd),
            "Invalid File Transfer ID (UUID)"@,
            r,
        ),
        Some(id) => {
            &&& transfers_frame_except(
                pre.peer_manager.active_transfers@,
                post.peer_manager.active_transfers@,
                id,
            )
            &&& (!has_transfer(pre.peer_manager.active_transfers@, id) ==> post.peer_manager
                == pre.peer_manager && bad_event_action(
                FrontendEventView::FileOfferResponse(cmd),
                "Invalid file transfer ID: ID does not exist."@,
                r,
            ))
            &&& (has_transfer(pre.peer_manager.active_transfers@, id) ==> {
                let t = transfer_state(pre.peer_manager.active_transfers@, id);
                &&& (t.direction is Sending ==> {
                    &&& has_transfer(post.peer_manager.active_transfers@, id)
                    &&& transfer_state(post.peer_manager.active_transfers@, id)
                        == (FileTransferStateView {
                        status: FileTransferStatusView::Error(
                            "Cannot accept a file offer when sending a file."@,
                        ),
                        ..t
                    })
                    &&& bad_event_action(
                        FrontendEventView::FileOfferResponse(cmd),
                        "Cannot accept a file offer when sending a file."@,
                        r,
                    )
                })
                &&& (t.direction is Receiving ==> {
                    &&& (!has_peer(pre.peer_manager.active_peers@, t.peer_addr) ==> !has_transfer(
                        post.peer_manager.active_transfers@,
                        id,
                    ) && bad_event_action(
                        FrontendEventView::FileOfferResponse(cmd),
                        "Peer is not connected"@,
                        r,
                    ))
                    &&& (has_peer(pre.peer_manager.active_peers@, t.peer_addr) ==> {
                        &&& (r[0] matches Action::SendPeer { addr, message } && addr
                            == t.peer_addr && message@ == MessageView::FileOfferResponse(
                            crate::protocol::FileOfferResponseView {
                                unique_id: id,
                                accept: cmd.accept,
                            },
                        ))
                        &&& (cmd.accept ==> {
                            &&& post.peer_manager.active_transfers
                                == pre.peer_manager.active_transfers
                            &&& r.len() == 2
                            &&& (r[1] matches Action::CreateFileTarget {
                                unique_id: id2,
                                filename,
                            } && id2 == id && filename@ == t.filename)
                        })
                        &&& (!cmd.accept ==> {
                            &&& r.len() == 1
                            &&& has_transfer(post.peer_manager.active_transfers@, id)
                            &&& transfer_state(post.peer_manager.active_transfers@, id)
                                == (FileTransferStateView {
                                status: FileTransferStatusView::Rejected,
                                ..t
                            })
                        })
                    })
                })
            })
        },
    })
}

// ---------------------------------------------------------------------------
// Cancel command
// ---------------------------------------------------------------------------

/// Cancelling a transfer marks its record `Cancelled`; the wire protocol
/// reserves no cancel frame, so nothing is sent.
pub open spec fn post_fm_cancel_file_transfer(
    pre: FrontendManager,
    post: FrontendManager,
    cmd: CancelFileTransferView,
    r: Seq<Action>,
) -> bool {
    &&& post.self_info == pre.self_info
    &&& post.peer_manager.running == pre.peer_manager.running
    &&& post.peer_manager.active_peers == pre.peer_manager.active_peers
    &&& (match uuid_of_text(cmd.unique_id) {
        None => post.peer_manager == pre.peer_manager && bad_event_action(
            FrontendEventView::CancelFileTransfer(cmd),
            "Invalid File Transfer ID (UUID)"@,
            r,
        ),
        Some(id) => {
            &&& transfers_frame_except(
                pre.peer_manager.active_transfers@,
                post.peer_manager.active_transfers@,
                id,
            )
            &&& (!has_transfer(pre.peer_manager.active_transfers@, id) ==> post.peer_manager
                == pre.peer_manager && bad_event_action(
                FrontendEventView::CancelFileTransfer(cmd),
                "Invalid file transfer ID: ID does not exist."@,
                r,
            ))
            &&& (has_transfer(pre.peer_manager.active_transfers@, id) ==> {
                &&& r.len() == 0
                &&& has_transfer(post.peer_manager.active_transfers@, id)
                &&& transfer_state(post.peer_manager.active_transfers@, id)
                    == (FileTransferStateView {
                    status: FileTransferStatusView::Cancelled,
                    ..transfer_state(pre.peer_manager.active_transfers@, id)
                })
            })
        },
    })
}

impl FrontendManager {
    pub fn handle_transmit_file(&mut self, transmit_file: TransmitFile) -> (r: Vec<Action>)
        requires
            old(self).wf(),
        ensures
            final(self).wf(),
            post_fm_transmit_file(*old(self), *final(self), transmit_file@, r@),
    {
        match parse_peer_address(transmit_file.ip.as_str()) {
            None => {
                let mut r: Vec<Action> = Vec::new();
                r.push(
                    Action::Notify {
                        event: BackendEvent::BadFrontendEvent(
                            crate::backend_event::BadFrontendEvent {
                                event: FrontendEvent::TransmitFile(transmit_file),
                                error: <String as vstd::string::StringExecFns>::from_str(
                                    "Invalid IP address",
                                ),
                            },
                        ),
                    },
                );
                r
            },
            Some(addr) => {
                let mut r: Vec<Action> = Vec::new();
                r.push(
                    Action::PrepareFileSend {
                        path: transmit_file.path,
                        filename: transmit_file.filename,
                        addr,
                    },
                );
                r
            },
        }
    }

    /// The runtime could not open or stat the source file.
    pub fn transmit_file_failed(&self, transmit_file: TransmitFile, error: String) -> (r: Vec<
        Action,
    >)
        ensures
            bad_event_action(FrontendEventView::TransmitFile(transmit_file@), error@, r@),
    {
        let mut r: Vec<Action> = Vec::new();
        r.push(
            Action::Notify {
                event: BackendEvent::BadFrontendEvent(
                    crate::backend_event::BadFrontendEvent {
                        event: FrontendEvent::TransmitFile(transmit_file),
                        error,
                    },
                ),
            },
        );
        r
    }

    pub fn transmit_file_with_size(
        &mut self,
        transmit_file: TransmitFile,
        peer_addr: PeerAddress,
        size: u64,
    ) -> (r: Vec<Action>)
        requires
            old(self).wf(),
        ensures
            final(self).wf(),
            post_fm_transmit_file_with_size(
                *old(self),
                *final(self),
                transmit_file@,
                peer_addr,
                size,
                r@,
            ),
    {
        match find_peer_idx(&self.peer_manager.active_peers, &peer_addr) {
            None => {
                let mut r: Vec<Action> = Vec::new();
                r.push(
                    Action::Notify {
                        event: BackendEvent::BadFrontendEvent(
                            crate::backend_event::BadFrontendEvent {
                                event: FrontendEvent::TransmitFile(transmit_file),
                                error: <String as vstd::string::StringExecFns>::from_str(
                                    "Peer is not connected",
                                ),
                            },
                        ),
                    },
                );
                r
            },
            Some(_) => {
                let unique_id = fresh_transfer_id();
                let chunk_len: u64 = 0x100000;
                let rec = FileTransferState {
                    unique_id,
                    peer_addr,
                    direction: FileTransferDirection::Sending {
                        file_path: transmit_file.path.clone(),
                    },
                    filename: transmit_file.filename.clone(),
                    total_size: size,
                    bytes_transferred: 0,
                    chunk_len,
                    status: FileTransferStatus::WaitingForPeerResponse,
                    checksum: 0,
                };
                let mut r: Vec<Action> = Vec::new();
                r.push(
                    Action::SendPeer {
                        addr: peer_addr,
                        message: Message::FileOfferRequest(
                            crate::protocol::FileOffer {
                                filename: transmit_file.filename,
                                unique_id,
                                size,
                                chunk_len,
                            },
                        ),
                    },
                );
                match find_transfer_idx(&self.peer_manager.active_transfers, unique_id) {
                    Some(j) => {
                        proof {
                            lemma_transfer_at(self.peer_manager.active_transfers@, j as int);
                            lemma_transfer_update(
                                self.peer_manager.active_transfers@,
                                j as int,
                                rec,
                            );
                        }
                        self.peer_manager.active_transfers.set(j, rec);
                    },
                    None => {
                        proof {
                            lemma_transfer_push(self.peer_manager.active_transfers@, rec);
                        }
                        self.peer_manager.active_transfers.push(rec);
                    },
                }
                r
            },
        }
    }

    pub fn handle_file_offer_response(&mut self, file_offer_response: FileOfferResponse) -> (r:
        Vec<Action>)
        requires
            old(self).wf(),
        ensures
            final(self).wf(),
            post_fm_file_offer_response(*old(self), *final(self), file_offer_response@, r@),
    {
        match parse_transfer_id(file_offer_response.unique_id.as_str()) {
            None => {
                let mut r: Vec<Action> = Vec::new();
                r.push(
                    Action::Notify {
                        event: BackendEvent::BadFrontendEvent(
                            crate::backend_event::BadFrontendEvent {
                                event: FrontendEvent::FileOfferResponse(file_offer_response),
                                error: <String as vstd::string::StringExecFns>::from_str(
                                    "Invalid File Transfer ID (UUID)",
                                ),
                            },
                        ),
                    },
                );
                r
            },
            Some(id) => {
                match find_transfer_idx(&self.peer_manager.active_transfers, id) {
                    None => {
                        let mut r: Vec<Action> = Vec::new();
                        r.push(
                            Action::Notify {
                                event: BackendEvent::BadFrontendEvent(
                                    crate::backend_event::BadFrontendEvent {
                                        event: FrontendEvent::FileOfferResponse(
                                            file_offer_response,
                                        ),
                                        error: <String as vstd::string::StringExecFns>::from_str(
                                            "Invalid file transfer ID: ID does not exist.",
                                        ),
                                    },
                                ),
                            },
                        );
                        r
                    },
                    Some(j) => {
                        proof {
                            lemma_transfer_at(self.peer_manager.active_transfers@, j as int);
                        }
                        if matches!(
                            self.peer_manager.active_transfers[j].direction,
                            FileTransferDirection::Sending { .. },
                        ) {
                            let mut rec = clone_transfer(&self.peer_manager.active_transfers[j]);
                            rec.status = FileTransferStatus::Error(
                                <String as vstd::string::StringExecFns>::from_str(
                                    "Cannot accept a file offer when sending a file.",
                                ),
                            );
                            proof {
                                lemma_transfer_update(
                                    self.peer_manager.active_transfers@,
                                    j as int,
                                    rec,
                                );
                            }
                            self.peer_manager.active_transfers.set(j, rec);
                            let mut r: Vec<Action> = Vec::new();
                            r.push(
                                Action::Notify {
                                    event: BackendEvent::BadFrontendEvent(
                                        crate::backend_event::BadFrontendEvent {
                                            event: FrontendEvent::FileOfferResponse(
                                                file_offer_response,
                                            ),
                                            error: <String as vstd::string::StringExecFns>::from_str(
                                                "Cannot accept a file offer when sending a file.",
                                            ),
                                        },
                                    ),
                                },
                            );
                            r
                        } else {
                            let dest = self.peer_manager.active_transfers[j].peer_addr;
                            match find_peer_idx(&self.peer_manager.active_peers, &dest) {
                                None => {
                                    proof {
                                        lemma_transfer_remove(
                                            self.peer_manager.active_transfers@,
                                            j as int,
                                        );
                                    }
                                    self.peer_manager.active_transfers.remove(j);
                                    let mut r: Vec<Action> = Vec::new();
                                    r.push(
                                        Action::Notify {
                                            event: BackendEvent::BadFrontendEvent(
                                                crate::backend_event::BadFrontendEvent {
                                                    event: FrontendEvent::FileOfferResponse(
                                                        file_offer_response,
                                                    ),
                                                    error: <String as vstd::string::StringExecFns>::from_str(
                                                        "Peer is not connected",
                                                    ),
                                                },
                                            ),
                                        },
                                    );
                                    r
                                },
                                Some(_) => {
                                    let mut r: Vec<Action> = Vec::new();
                                    r.push(
                                        Action::SendPeer {
                                            addr: dest,
                                            message: Message::FileOfferResponse(
                                                crate::protocol::FileOfferResponse {
                                                    unique_id: id,
                                                    accept: file_offer_response.accept,
                                                },
                                            ),
                                        },
                                    );
                                    if file_offer_response.accept {
                                        r.push(
                                            Action::CreateFileTarget {
                                                unique_id: id,
                                                filename: self.peer_manager.active_transfers[j].filename.clone(),
                                            },
                                        );
                                    } else {
                                        let mut rec = clone_transfer(
                                            &self.peer_manager.active_transfers[j],
                                        );
                                        rec.status = FileTransferStatus::Rejected;
                                        proof {
                                            lemma_transfer_update(
                                                self.peer_manager.active_transfers@,
                                                j as int,
                                                rec,
                                            );
                                        }
                                        self.peer_manager.active_transfers.set(j, rec);
                                    }
                                    r
                                },
                            }
                        }
                    },
                }
            },
        }
    }

    pub fn handle_cancel_file_transfer(&mut self, cancel_file_transfer: CancelFileTransfer) -> (r:
        Vec<Action>)
        requires
            old(self).wf(),
        ensures
            final(self).wf(),
            post_fm_cancel_file_transfer(*old(self), *final(self), cancel_file_transfer@, r@),
    {
        match parse_transfer_id(cancel_file_transfer.unique_id.as_str()) {
            None => {
                let mut r: Vec<Action> = Vec::new();
                r.push(
                    Action::Notify {
                        event: BackendEvent::BadFrontendEvent(
                            crate::backend_event::BadFrontendEvent {
                                event: FrontendEvent::CancelFileTransfer(cancel_file_transfer),
                                error: <String as vstd::string::StringExecFns>::from_str(
                                    "Invalid File Transfer ID (UUID)",
                                ),
                            },
                        ),
                    },
                );
                r
            },
            Some(id) => {
                match find_transfer_idx(&self.peer_manager.active_transfers, id) {
                    None => {
                        let mut r: Vec<Action> = Vec::new();
                        r.push(
                            Action::Notify {
                                event: BackendEvent::BadFrontendEvent(
                                    crate::backend_event::BadFrontendEvent {
                                        event: FrontendEvent::CancelFileTransfer(
                                            cancel_file_transfer,
                                        ),
                                        error: <String as vstd::string::StringExecFns>::from_str(
                                            "Invalid file transfer ID: ID does not exist.",
                                        ),
                                    },
                                ),
                            },
                        );
                        r
                    },
                    Some(j) => {
                        proof {
                            lemma_transfer_at(self.peer_manager.active_transfers@, j as int);
                        }
                        let mut rec = clone_transfer(&self.peer_manager.active_transfers[j]);
                        rec.status = FileTransferStatus::Cancelled;
                        proof {
                            lemma_transfer_update(
                                self.peer_manager.active_transfers@,
                                j as int,
                                rec,
                            );
                        }
                        self.peer_manager.active_transfers.set(j, rec);
                        Vec::new()
                    },
                }
            },
        }
    }
}

// ---------------------------------------------------------------------------
// Command dispatch and start-up
// ---------------------------------------------------------------------------

/// The router's full command contract: one case per command. Lifecycle
/// commands check the running flag; a `Start` or `Restart` while stopped
/// asks the runtime to bind and announces readiness with this node's
/// version.
pub open spec fn post_handle_frontend_event(
    pre: FrontendManager,
    post: FrontendManager,
    ev: FrontendEventView,
    r: Seq<Action>,
) -> bool {
    match ev {
        FrontendEventView::ConnectRequest(c) => post_fm_connect_request(pre, post, c, r),
        FrontendEventView::DisconnectRequest(c) => post_fm_disconnect_request(pre, post, c, r),
        FrontendEventView::ConnectionRequestResponse(c) => post_fm_connection_request_response(
            pre,
            post,
            c,
            r,
        ),
        FrontendEventView::TransmitFile(c) => post_fm_transmit_file(pre, post, c, r),
        FrontendEventView::FileOfferResponse(c) => post_fm_file_offer_response(pre, post, c, r),
        FrontendEventView::CancelFileTransfer(c) => post_fm_cancel_file_transfer(pre, post, c, r),
        FrontendEventView::FrontendReady(cfg) => post == pre && bad_event_action(
            FrontendEventView::FrontendReady(cfg),
            "Backend is already running"@,
            r,
        ),
        FrontendEventView::Shutdown => {
            &&& post.self_info == pre.self_info
            &&& !post.peer_manager.running
            &&& (pre.peer_manager.running ==> post.peer_manager.active_peers@.len() == 0
                && acts_view(r) == shutdown_actions(pre.peer_manager.active_peers@)
                && transfers_after_shutdown(
                pre.peer_manager.active_transfers@,
                pre.peer_manager.active_peers@,
                post.peer_manager.active_transfers@,
            ))
            &&& (!pre.peer_manager.running ==> post.peer_manager.active_peers
                == pre.peer_manager.active_peers && post.peer_manager.active_transfers
                == pre.peer_manager.active_transfers && r.len() == 1 && (
            r[0] matches Action::Notify { event } && event@ == BackendEventView::BackendWarning(
                crate::backend_event::BackendWarningView {
                    message:
                        "PeerManager has already been shutdown, or never started. Aborting shutdown."@,
                },
            )))
        },
        FrontendEventView::Start(cfg) => {
            &&& (pre.peer_manager.running ==> post == pre && bad_event_action(
                FrontendEventView::Start(cfg),
                "Backend is already running"@,
                r,
            ))
            &&& (!pre.peer_manager.running ==> post == pre && started_actions(
                cfg.bind_addr,
                pre.self_info.backend_version@,
                r,
            ))
        },
        FrontendEventView::Restart(cfg) => {
            &&& post.self_info == pre.self_info
            &&& !post.peer_manager.running
            &&& (pre.peer_manager.running ==> post.peer_manager.active_peers@.len() == 0
                && r.len() >= 2 && acts_view(r) == shutdown_actions(pre.peer_manager.active_peers@)
                + start_action_views(cfg.bind_addr, pre.self_info.backend_version@)
                && transfers_after_shutdown(
                pre.peer_manager.active_transfers@,
                pre.peer_manager.active_peers@,
                post.peer_manager.active_transfers@,
            ))
            &&& (!pre.peer_manager.running ==> post.peer_manager.active_peers
                == pre.peer_manager.active_peers && post.peer_manager.active_transfers
                == pre.peer_manager.active_transfers && r.len() == 3 && (
            r[0] matches Action::Notify { event } && event@ == BackendEventView::BackendWarning(
                crate::backend_event::BackendWarningView {
                    message:
                        "PeerManager has already been shutdown, or never started. Aborting shutdown."@,
                },
            )) && started_actions_at(cfg.bind_addr, pre.self_info.backend_version@, r, 1))
        },
    }
}

/// The two start-up actions: bind the listener, then announce readiness.
pub open spec fn start_action_views(bind_addr: Seq<char>, version: Seq<char>) -> Seq<ActionView> {
    seq![
        ActionView::BindListener { bind_addr },
        ActionView::Notify {
            event: BackendEventView::BackendReady(
                crate::backend_event::BackendInfoView { version },
            ),
        },
    ]
}

pub open spec fn started_actions_at(
    bind_addr: Seq<char>,
    version: Seq<char>,
    r: Seq<Action>,
    i: int,
) -> bool {
    &&& (r[i] matches Action::BindListener { bind_addr: b } && b@ == bind_addr)
    &&& (r[i + 1] matches Action::Notify { event } && event@ == BackendEventView::BackendReady(
        crate::backend_event::BackendInfoView { version },
    ))
}

pub open spec fn started_actions(bind_addr: Seq<char>, version: Seq<char>, r: Seq<Action>) -> bool {
    r.len() == 2 && started_actions_at(bind_addr, version, r, 0)
}

impl FrontendManager {
    /// Route one user command to its handler.
    pub fn handle_frontend_event(&mut self, event: FrontendEvent) -> (r: Vec<Action>)
        requires
            old(self).wf(),
        ensures
            final(self).wf(),
            post_handle_frontend_event(*old(self), *final(self), event@, r@),
    {
        match event {
            FrontendEvent::ConnectRequest(c) => self.handle_connect_request(c),
            FrontendEvent::DisconnectRequest(c) => self.handle_disconnect_request(c),
            FrontendEvent::ConnectionRequestResponse(c) => self.handle_connection_request_response(
                c,
            ),
            FrontendEvent::TransmitFile(c) => self.handle_transmit_file(c),
            FrontendEvent::FileOfferResponse(c) => self.handle_file_offer_response(c),
            FrontendEvent::CancelFileTransfer(c) => self.handle_cancel_file_transfer(c),
            FrontendEvent::FrontendReady(cfg) => self.handle_frontend_ready(cfg),
            FrontendEvent::Shutdown => self.shutdown_peer_manager(),
            FrontendEvent::Start(cfg) => {
                if self.peer_manager.is_running() {
                    let mut r: Vec<Action> = Vec::new();
                    r.push(
                        Action::Notify {
                            event: BackendEvent::BadFrontendEvent(
                                crate::backend_event::BadFrontendEvent {
                                    event: FrontendEvent::Start(cfg),
                                    error: <String as vstd::string::StringExecFns>::from_str(
                                        "Backend is already running",
                                    ),
                                },
                            ),
                        },
                    );
                    r
                } else {
                    let mut r: Vec<Action> = Vec::new();
                    r.push(Action::BindListener { bind_addr: cfg.bind_addr });
                    r.push(
                        Action::Notify {
                            event: BackendEvent::BackendReady(
                                crate::backend_event::BackendInfo {
                                    version: self.self_info.backend_version.clone(),
                                },
                            ),
                        },
                    );
                    r
                }
            },
            FrontendEvent::Restart(cfg) => {
                let mut r = self.peer_manager.shutdown();
                let ghost shutdown_part = r@;
                r.push(Action::BindListener { bind_addr: cfg.bind_addr });
                r.push(
                    Action::Notify {
                        event: BackendEvent::BackendReady(
                            crate::backend_event::BackendInfo {
                                version: self.self_info.backend_version.clone(),
                            },
                        ),
                    },
                );
                proof {
                    if old(self).peer_manager.running {
                        assert_seqs_equal!(acts_view(r@)
                            == acts_view(shutdown_part)
                            + start_action_views(cfg.bind_addr@,
                                old(self).self_info.backend_version@));
                    }
                }
                r
            },
        }
    }
}

/// The start-up gate: the very first command must be `FrontendReady` with
/// the bind address; anything else is fatal, and a closed channel ends the
/// router silently.
pub fn await_frontend_ready(event: Option<FrontendEvent>) -> (r: (Option<String>, Vec<Action>))
    ensures
        event matches Some(e) ==> (e@ matches FrontendEventView::FrontendReady(config) ==> (
        r.0 matches Some(b) && b@ == config.bind_addr && r.1@.len() == 0)),
        (event matches Some(e) && !(e@ is FrontendReady)) ==> r.0 is None && r.1@.len() == 1 && (
        r.1@[0] matches Action::Notify { event: n } && n@ == BackendEventView::BackendFatal(
            crate::backend_event::BackendFatalView {
                message: "Unexpected event received from the frontend"@,
            },
        )),
        event is None ==> r.0 is None && r.1@.len() == 0,
{
    match event {
        Some(FrontendEvent::FrontendReady(cfg)) => (Some(cfg.bind_addr), Vec::new()),
        Some(other) => {
            let mut acts: Vec<Action> = Vec::new();
            acts.push(
                Action::Notify {
                    event: BackendEvent::BackendFatal(
                        crate::backend_event::BackendFatal {
                            message: <String as vstd::string::StringExecFns>::from_str(
                                "Unexpected event received from the frontend",
                            ),
                        },
                    ),
                },
            );
            (None, acts)
        },
        None => (None, Vec::new()),
    }
}

} // verus!


