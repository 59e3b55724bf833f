//! The inbound half of the state machine: one handler per protocol message,
//! each a guarded transition on the peer's registry entry. An illegal
//! transition drops the peer with a diagnostic reason.
//!
//! Each handler's full behaviour is captured by a `post_...` predicate over
//! the engine state before and after the call and the actions returned;
//! [`PeerManager::handle_message`] dispatches and satisfies the matching
//! predicate for every message.

use vstd::prelude::*;

use crate::address::{PeerAddress, format_peer_address, spec_addr_text, spec_ip_text};
use crate::backend_event::{BackendEvent, BackendEventView, ConnectionInfoView,
    ConnectionRequestResponseView};
use crate::peer_manager::{Action, Peer, PeerInfo, PeerInfoView, PeerManager, PeerState,
    PeerStateView, FileTransferState, FileTransferStateView, FileTransferDirection,
    FileTransferDirectionView, FileTransferStatus, FileTransferStatusView, clone_transfer,
    conn_info_of, drop_peer_spec_event, drop_peer_spec_peers, find_peer_idx, find_transfer_idx,
    has_peer, has_transfer, lemma_peer_at, lemma_peer_update, lemma_transfer_at,
    lemma_transfer_update, lemma_transfer_push, peer_state, transfer_state,
    transfers_dropped_for};
use crate::protocol::{Message, MessageView};
use crate::ids::{uuid_text_of, format_transfer_id};

verus! {

/// A single `BadFrontendEvent` notification echoing the command and reason.
pub open spec fn bad_event_action(
    ev: crate::frontend_event::FrontendEventView,
    error: Seq<char>,
    r: Seq<Action>,
) -> bool {
    r.len() == 1 && (r[0] matches Action::Notify { event } && event@
        == BackendEventView::BadFrontendEvent(
        crate::backend_event::BadFrontendEventView { event: ev, error },
    ))
}

/// The action list a call of `drop_peer(a, msg)` on registry `s` yields.
pub open spec fn drop_actions_spec(
    s: Seq<Peer>,
    a: PeerAddress,
    msg: Option<Seq<char>>,
    r: Seq<Action>,
) -> bool {
    match drop_peer_spec_event(s, a, msg) {
        Some(e) => r.len() == 2 && (r[0] matches Action::Notify { event } && event@ == e) && (
        r[1] matches Action::CloseSession { addr } && addr == a),
        None => if has_peer(s, a) {
            r.len() == 1 && (r[0] matches Action::CloseSession { addr } && addr == a)
        } else {
            r.len() == 0
        },
    }
}

/// All registry entries other than `a` are untouched.
pub open spec fn peers_frame_except(old_s: Seq<Peer>, new_s: Seq<Peer>, a: PeerAddress) -> bool {
    &&& forall|x: PeerAddress| x != a ==> has_peer(new_s, x) == has_peer(old_s, x)
    &&& forall|x: PeerAddress| x != a && has_peer(old_s, x) ==> peer_state(new_s, x) == peer_state(
        old_s,
        x,
    )
}

/// All transfer records other than `id` are untouched.
pub open spec fn transfers_frame_except(
    old_s: Seq<FileTransferState>,
    new_s: Seq<FileTransferState>,
    id: u128,
) -> bool {
    &&& forall|x: u128| x != id ==> has_transfer(new_s, x) == has_transfer(old_s, x)
    &&& forall|x: u128| x != id && has_transfer(old_s, x) ==> transfer_state(new_s, x)
        == transfer_state(old_s, x)
}

/// The engine after dropping `a` with message `msg`, with `r` the actions:
/// registry entry and the peer's transfer records removed, everything else
/// untouched.
pub open spec fn dropped_with(
    pre: PeerManager,
    post: PeerManager,
    a: PeerAddress,
    msg: Option<Seq<char>>,
    r: Seq<Action>,
) -> bool {
    &&& post.active_peers@ == drop_peer_spec_peers(pre.active_peers@, a)
    &&& transfers_dropped_for(pre.active_transfers@, post.active_transfers@, a)
    &&& drop_actions_spec(pre.active_peers@, a, msg, r)
}

// ---------------------------------------------------------------------------
// Connect request
// ---------------------------------------------------------------------------

/// While the session is still `Connected`, the peer's identity is stored
/// (or replaced), the user is prompted with the full address text, and the
/// keep-alive exchange is bootstrapped. In any later state the request is a
/// protocol error and the peer is dropped.
pub open spec fn post_connect_request(
    pre: PeerManager,
    post: PeerManager,
    ci: crate::protocol::ConnectionInfoView,
    peer_addr: PeerAddress,
    r: Seq<Action>,
) -> bool {
    &&& post.running == pre.running
    &&& peers_frame_except(pre.active_peers@, post.active_peers@, peer_addr)
    &&& (!has_peer(pre.active_peers@, peer_addr) ==> post.active_peers == pre.active_peers
        && post.active_transfers == pre.active_transfers && r.len() == 0)
    &&& (has_peer(pre.active_peers@, peer_addr) && peer_state(pre.active_peers@, peer_addr)
        is Connected ==> {
        &&& post.active_transfers == pre.active_transfers
        &&& has_peer(post.active_peers@, peer_addr)
        &&& peer_state(post.active_peers@, peer_addr) == (PeerStateView::Connected {
            peer_info: Some(PeerInfoView { name: ci.name, backend_version: ci.backend_version }),
        })
        &&& r.len() == 2
        &&& (r[0] matches Action::Notify { event } && event@ == BackendEventView::ConnectRequest(
            ConnectionInfoView {
                name: ci.name,
                ip: spec_addr_text(peer_addr),
                backend_version: ci.backend_version,
                identitiy: Seq::empty(),
            },
        ))
        &&& (r[1] matches Action::SendPeer { addr, message } && addr == peer_addr && message@
            == MessageView::KeepAlive)
    })
    &&& (has_peer(pre.active_peers@, peer_addr) && !(peer_state(pre.active_peers@, peer_addr)
        is Connected) ==> dropped_with(
        pre,
        post,
        peer_addr,
        Some("Unexpected ConnectRequest in current state"@),
        r,
    ))
}

// ---------------------------------------------------------------------------
// Connect response
// ---------------------------------------------------------------------------

/// Whether a received permit may authenticate the session: the identity
/// must be known, either still `Connected` or already `Authenticated` (both
/// sides may permit concurrently, so a permit arriving after our own
/// user-side authentication is accepted too).
pub open spec fn may_take_permit(s: PeerStateView) -> bool {
    (s matches PeerStateView::Connected { peer_info: Some(_) }) || s is Authenticated
}

/// A permit while the identity is known (still `Connected`, or already
/// `Authenticated` by our own user's acceptance) authenticates the session
/// with the identity the permit carries; a denial while `Connected` with
/// the identity known notifies the user, acknowledges, and drops the
/// session. Any other state is a protocol error.
pub open spec fn post_connect_response(
    pre: PeerManager,
    post: PeerManager,
    cr: crate::protocol::ConnectionResponseView,
    peer_addr: PeerAddress,
    r: Seq<Action>,
) -> bool {
    &&& post.running == pre.running
    &&& peers_frame_except(pre.active_peers@, post.active_peers@, peer_addr)
    &&& (!has_peer(pre.active_peers@, peer_addr) ==> post.active_peers == pre.active_peers
        && post.active_transfers == pre.active_transfers && r.len() == 0)
    &&& (has_peer(pre.active_peers@, peer_addr) ==> (cr.permit
        matches crate::protocol::ConnectionPermitView::Permit { identitiy } ==> (if may_take_permit(
        peer_state(pre.active_peers@, peer_addr),
    ) {
        &&& post.active_transfers == pre.active_transfers
        &&& has_peer(post.active_peers@, peer_addr)
        &&& peer_state(post.active_peers@, peer_addr) == (PeerStateView::Authenticated {
            peer_info: PeerInfoView {
                name: identitiy.name,
                backend_version: identitiy.backend_version,
            },
        })
        &&& r.len() == 1
        &&& (r[0] matches Action::Notify { event } && event@
            == BackendEventView::ConnectionRequestResponse(
            ConnectionRequestResponseView {
                accept: true,
                ip: spec_addr_text(peer_addr),
                reason: None,
            },
        ))
    } else {
        dropped_with(pre, post, peer_addr, Some("Unexpected state. Disconnecting peer."@), r)
    })))
    &&& (has_peer(pre.active_peers@, peer_addr) ==> (cr.permit is Deny ==> (if peer_state(
        pre.active_peers@,
        peer_addr,
    ) matches PeerStateView::Connected { peer_info: Some(_) } {
        &&& !has_peer(post.active_peers@, peer_addr)
        &&& transfers_dropped_for(pre.active_transfers@, post.active_transfers@, peer_addr)
        &&& r.len() == 3
        &&& (r[0] matches Action::Notify { event } && event@
            == BackendEventView::ConnectionRequestResponse(
            ConnectionRequestResponseView {
                accept: false,
                ip: spec_addr_text(peer_addr),
                reason: cr.message,
            },
        ))
        &&& (r[1] matches Action::SendPeer { addr, message } && addr == peer_addr && message@
            == MessageView::DisconnectAck)
        &&& (r[2] matches Action::CloseSession { addr } && addr == peer_addr)
    } else {
        dropped_with(pre, post, peer_addr, Some("Unexpected state. Disconnecting peer."@), r)
    })))
}

// ---------------------------------------------------------------------------
// Disconnect request
// ---------------------------------------------------------------------------

/// Legal only once authenticated: enter `Disconnecting` with the request's
/// reason and acknowledge. The session is dropped only once the runtime
/// reports the acknowledgement's send outcome back through `drop_peer`, so
/// a failed send can still override the close reason with its error text.
/// Before authentication the request is premature; while already
/// disconnecting the session is simply dropped.
pub open spec fn post_disconnect_request(
    pre: PeerManager,
    post: PeerManager,
    dr: crate::protocol::DisconnectRequestView,
    peer_addr: PeerAddress,
    r: Seq<Action>,
) -> bool {
    &&& post.running == pre.running
    &&& peers_frame_except(pre.active_peers@, post.active_peers@, peer_addr)
    &&& (!has_peer(pre.active_peers@, peer_addr) ==> post.active_peers == pre.active_peers
        && post.active_transfers == pre.active_transfers && r.len() == 0)
    &&& ((has_peer(pre.active_peers@, peer_addr) && peer_state(pre.active_peers@, peer_addr)
        is Connected) ==> dropped_with(
        pre,
        post,
        peer_addr,
        Some("Premature DisconnectRequest"@),
        r,
    ))
    &&& (has_peer(pre.active_peers@, peer_addr) ==> (peer_state(pre.active_peers@, peer_addr)
        matches PeerStateView::Authenticated { peer_info } ==> {
        &&& post.active_transfers == pre.active_transfers
        &&& has_peer(post.active_peers@, peer_addr)
        &&& peer_state(post.active_peers@, peer_addr) == (PeerStateView::Disconnecting {
            reason: dr.message,
            peer_info,
        })
        &&& r.len() == 1
        &&& (r[0] matches Action::SendPeerThenDrop { addr, message } && addr == peer_addr
            && message@ == MessageView::DisconnectAck)
    }))
    &&& ((has_peer(pre.active_peers@, peer_addr) && peer_state(pre.active_peers@, peer_addr)
        is Disconnecting) ==> dropped_with(pre, post, peer_addr, None, r))
}

// ---------------------------------------------------------------------------
// Disconnect acknowledgement
// ---------------------------------------------------------------------------

/// Tears the session down once we were authenticated or disconnecting; an
/// acknowledgement before authentication is ignored.
pub open spec fn post_disconnect_ack(
    pre: PeerManager,
    post: PeerManager,
    peer_addr: PeerAddress,
    r: Seq<Action>,
) -> bool {
    &&& post.running == pre.running
    &&& peers_frame_except(pre.active_peers@, post.active_peers@, peer_addr)
    &&& (!has_peer(pre.active_peers@, peer_addr) ==> post.active_peers == pre.active_peers
        && post.active_transfers == pre.active_transfers && r.len() == 0)
    &&& ((has_peer(pre.active_peers@, peer_addr) && peer_state(pre.active_peers@, peer_addr)
        is Connected) ==> post.active_peers == pre.active_peers && post.active_transfers
        == pre.active_transfers && r.len() == 0)
    &&& ((has_peer(pre.active_peers@, peer_addr) && !(peer_state(pre.active_peers@, peer_addr)
        is Connected)) ==> dropped_with(pre, post, peer_addr, None, r))
}

// ---------------------------------------------------------------------------
// Immediate connection close
// ---------------------------------------------------------------------------

/// An orderly close notification with the given identity and reason, then
/// session teardown.
pub open spec fn close_with_info(
    info: PeerInfoView,
    message: Option<Seq<char>>,
    peer_addr: PeerAddress,
    r: Seq<Action>,
) -> bool {
    &&& r.len() == 2
    &&& (r[0] matches Action::Notify { event } && event@ == BackendEventView::ConnectionClose(
        crate::backend_event::ConnectionCloseOrBrokenView {
            connection_info: conn_info_of(info, spec_ip_text(peer_addr.ip)),
            message,
        },
    ))
    &&& (r[1] matches Action::CloseSession { addr } && addr == peer_addr)
}

/// The peer closed outright, no acknowledgement expected: where an identity
/// is known the orderly close is reported with the sent reason, then the
/// session is torn down.
pub open spec fn post_immediate_connection_close(
    pre: PeerManager,
    post: PeerManager,
    dr: crate::protocol::DisconnectRequestView,
    peer_addr: PeerAddress,
    r: Seq<Action>,
) -> bool {
    &&& post.running == pre.running
    &&& peers_frame_except(pre.active_peers@, post.active_peers@, peer_addr)
    &&& (!has_peer(pre.active_peers@, peer_addr) ==> post.active_peers == pre.active_peers
        && post.active_transfers == pre.active_transfers && r.len() == 0)
    &&& (has_peer(pre.active_peers@, peer_addr) ==> !has_peer(post.active_peers@, peer_addr)
        && transfers_dropped_for(pre.active_transfers@, post.active_transfers@, peer_addr))
    &&& (has_peer(pre.active_peers@, peer_addr) ==> (peer_state(pre.active_peers@, peer_addr)
        matches PeerStateView::Connected { peer_info: None } ==> drop_actions_spec(
        pre.active_peers@,
        peer_addr,
        None,
        r,
    )))
    &&& (has_peer(pre.active_peers@, peer_addr) ==> (peer_state(pre.active_peers@, peer_addr)
        matches PeerStateView::Connected { peer_info: Some(info) } ==> close_with_info(
        info,
        dr.message,
        peer_addr,
        r,
    )))
    &&& (has_peer(pre.active_peers@, peer_addr) ==> (peer_state(pre.active_peers@, peer_addr)
        matches PeerStateView::Authenticated { peer_info: info } ==> close_with_info(
        info,
        dr.message,
        peer_addr,
        r,
    )))
    &&& ((has_peer(pre.active_peers@, peer_addr) && peer_state(pre.active_peers@, peer_addr)
        is Disconnecting) ==> drop_actions_spec(pre.active_peers@, peer_addr, None, r))
}

impl PeerManager {
    pub fn handle_connect_request(
        &mut self,
        connection_info: crate::protocol::ConnectionInfo,
        peer_addr: PeerAddress,
    ) -> (r: Vec<Action>)
        requires
            old(self).wf(),
        ensures
            final(self).wf(),
            post_connect_request(*old(self), *final(self), connection_info@, peer_addr, r@),
    {
        match find_peer_idx(&self.active_peers, &peer_addr) {
            None => Vec::new(),
            Some(i) => {
                proof {
                    lemma_peer_at(self.active_peers@, i as int);
                }
                if matches!(self.active_peers[i].state, PeerState::Connected { .. }) {
                    let mut r: Vec<Action> = Vec::new();
                    let shown = crate::backend_event::ConnectionInfo {
                        name: connection_info.name.clone(),
                        ip: format_peer_address(&peer_addr),
                        backend_version: connection_info.backend_version.clone(),
                        identitiy: String::new(),
                    };
                    r.push(Action::Notify { event: BackendEvent::ConnectRequest(shown) });
                    let info = PeerInfo {
                        name: connection_info.name,
                        backend_version: connection_info.backend_version,
                    };
                    let upd = Peer {
                        addr: peer_addr,
                        state: PeerState::Connected { peer_info: Some(info) },
                    };
                    proof {
                        lemma_peer_update(self.active_peers@, i as int, upd);
                    }
                    self.active_peers.set(i, upd);
                    r.push(Action::SendPeer { addr: peer_addr, message: Message::KeepAlive });
                    r
                } else {
                    self.drop_peer(
                        peer_addr,
                        Some(
                            <String as vstd::string::StringExecFns>::from_str(
                                "Unexpected ConnectRequest in current state",
                            ),
                        ),
                    )
                }
            },
        }
    }

    pub fn handle_connect_response(
        &mut self,
        connect_response: crate::protocol::ConnectionResponse,
        peer_addr: PeerAddress,
    ) -> (r: Vec<Action>)
        requires
            old(self).wf(),
        ensures
            final(self).wf(),
            post_connect_response(*old(self), *final(self), connect_response@, peer_addr, r@),
    {
        match find_peer_idx(&self.active_peers, &peer_addr) {
            None => Vec::new(),
            Some(i) => {
                proof {
                    lemma_peer_at(self.active_peers@, i as int);
                }
                let permit_ok = matches!(
                    self.active_peers[i].state,
                    PeerState::Connected { peer_info: Some(_) },
                ) || matches!(self.active_peers[i].state, PeerState::Authenticated { .. });
                let deny_ok = matches!(
                    self.active_peers[i].state,
                    PeerState::Connected { peer_info: Some(_) },
                );
                match connect_response.permit {
                    crate::protocol::ConnectionPermit::Permit { identitiy } => {
                        if permit_ok {
                            let mut r: Vec<Action> = Vec::new();
                            let upd = Peer {
                                addr: peer_addr,
                                state: PeerState::Authenticated {
                                    peer_info: PeerInfo {
                                        name: identitiy.name,
                                        backend_version: identitiy.backend_version,
                                    },
                                },
                            };
                            proof {
                                lemma_peer_update(self.active_peers@, i as int, upd);
                            }
                            self.active_peers.set(i, upd);
                            r.push(
                                Action::Notify {
                                    event: BackendEvent::ConnectionRequestResponse(
                                        crate::backend_event::ConnectionRequestResponse {
                                            accept: true,
                                            ip: format_peer_address(&peer_addr),
                                            reason: None,
                                        },
                                    ),
                                },
                            );
                            r
                        } else {
                            self.drop_peer(
                                peer_addr,
                                Some(
                                    <String as vstd::string::StringExecFns>::from_str(
                                        "Unexpected state. Disconnecting peer.",
                                    ),
                                ),
                            )
                        }
                    },
                    crate::protocol::ConnectionPermit::Deny => {
                        if deny_ok {
                            let mut r: Vec<Action> = Vec::new();
                            r.push(
                                Action::Notify {
                                    event: BackendEvent::ConnectionRequestResponse(
                                        crate::backend_event::ConnectionRequestResponse {
                                            accept: false,
                                            ip: format_peer_address(&peer_addr),
                                            reason: connect_response.message,
                                        },
                                    ),
                                },
                            );
                            r.push(
                                Action::SendPeer {
                                    addr: peer_addr,
                                    message: Message::DisconnectAck,
                                },
                            );
                            let mut dropped = self.drop_peer(peer_addr, None);
                            r.append(&mut dropped);
                            r
                        } else {
                            self.drop_peer(
                                peer_addr,
                                Some(
                                    <String as vstd::string::StringExecFns>::from_str(
                                        "Unexpected state. Disconnecting peer.",
                                    ),
                                ),
                            )
                        }
                    },
                }
            },
        }
    }

    pub fn handle_disconnect_request(
        &mut self,
        disconnect_request: crate::protocol::DisconnectRequest,
        peer_addr: PeerAddress,
    ) -> (r: Vec<Action>)
        requires
            old(self).wf(),
        ensures
            final(self).wf(),
            post_disconnect_request(*old(self), *final(self), disconnect_request@, peer_addr, r@),
    {
        match find_peer_idx(&self.active_peers, &peer_addr) {
            None => Vec::new(),
            Some(i) => {
                proof {
                    lemma_peer_at(self.active_peers@, i as int);
                }
                let state_ref = &self.active_peers[i].state;
                if matches!(state_ref, PeerState::Connected { .. }) {
                    self.drop_peer(
                        peer_addr,
                        Some(
                            <String as vstd::string::StringExecFns>::from_str(
                                "Premature DisconnectRequest",
                            ),
                        ),
                    )
                } else if matches!(state_ref, PeerState::Disconnecting { .. }) {
                    self.drop_peer(peer_addr, None)
                } else {
                    let info = match &self.active_peers[i].state {
                        PeerState::Authenticated { peer_info } => PeerInfo {
                            name: peer_info.name.clone(),
                            backend_version: peer_info.backend_version.clone(),
                        },
                        _ => PeerInfo { name: String::new(), backend_version: String::new() },
                    };
                    let upd = Peer {
                        addr: peer_addr,
                        state: PeerState::Disconnecting {
                            reason: disconnect_request.message,
                            peer_info: info,
                        },
                    };
                    proof {
                        lemma_peer_update(self.active_peers@, i as int, upd);
                    }
                    self.active_peers.set(i, upd);
                    let mut r: Vec<Action> = Vec::new();
                    r.push(
                        Action::SendPeerThenDrop {
                            addr: peer_addr,
                            message: Message::DisconnectAck,
                        },
                    );
                    r
                }
            },
        }
    }

    pub fn handle_disconnect_ack(&mut self, peer_addr: PeerAddress) -> (r: Vec<Action>)
        requires
            old(self).wf(),
        ensures
            final(self).wf(),
            post_disconnect_ack(*old(self), *final(self), peer_addr, r@),
    {
        match find_peer_idx(&self.active_peers, &peer_addr) {
            None => Vec::new(),
            Some(i) => {
                proof {
                    lemma_peer_at(self.active_peers@, i as int);
                }
                if matches!(self.active_peers[i].state, PeerState::Connected { .. }) {
                    Vec::new()
                } else {
                    self.drop_peer(peer_addr, None)
                }
            },
        }
    }

    pub fn handle_immediate_connection_close(
        &mut self,
        disconnect_request: crate::protocol::DisconnectRequest,
        peer_addr: PeerAddress,
    ) -> (r: Vec<Action>)
        requires
            old(self).wf(),
        ensures
            final(self).wf(),
            post_immediate_connection_close(
                *old(self),
                *final(self),
                disconnect_request@,
                peer_addr,
                r@,
            ),
    {
        match find_peer_idx(&self.active_peers, &peer_addr) {
            None => Vec::new(),
            Some(i) => {
                proof {
                    lemma_peer_at(self.active_peers@, i as int);
                }
                let state_ref = &self.active_peers[i].state;
                if matches!(state_ref, PeerState::Connected { peer_info: None }) || matches!(
                    state_ref,
                    PeerState::Disconnecting { .. },
                ) {
                    self.drop_peer(peer_addr, None)
                } else {
                    let info = match &self.active_peers[i].state {
                        PeerState::Connected { peer_info: Some(peer_info) } => PeerInfo {
                            name: peer_info.name.clone(),
                            backend_version: peer_info.backend_version.clone(),
                        },
                        PeerState::Authenticated { peer_info } => PeerInfo {
                            name: peer_info.name.clone(),
                            backend_version: peer_info.backend_version.clone(),
                        },
                        _ => PeerInfo { name: String::new(), backend_version: String::new() },
                    };
                    let upd = Peer {
                        addr: peer_addr,
                        state: PeerState::Disconnecting {
                            reason: disconnect_request.message,
                            peer_info: info,
                        },
                    };
                    proof {
                        lemma_peer_update(self.active_peers@, i as int, upd);
                    }
                    self.active_peers.set(i, upd);
                    self.drop_peer(peer_addr, None)
                }
            },
        }
    }
}


// ---------------------------------------------------------------------------
// File offers
// ---------------------------------------------------------------------------

/// A peer's file offer is honoured only once authenticated: the user is
/// shown the offer and a receiving record is created (or replaced) in
/// `WaitingForPeerResponse`. Before authentication the offer is a protocol
/// error; while disconnecting the session is dropped.
pub open spec fn post_file_offer_request(
    pre: PeerManager,
    post: PeerManager,
    fo: crate::protocol::FileOfferView,
    peer_addr: PeerAddress,
    r: Seq<Action>,
) -> bool {
    &&& post.running == pre.running
    &&& peers_frame_except(pre.active_peers@, post.active_peers@, peer_addr)
    &&& (!has_peer(pre.active_peers@, peer_addr) ==> post.active_peers == pre.active_peers
        && post.active_transfers == pre.active_transfers && r.len() == 0)
    &&& ((has_peer(pre.active_peers@, peer_addr) && peer_state(pre.active_peers@, peer_addr)
        is Connected) ==> dropped_with(
        pre,
        post,
        peer_addr,
        Some("Peer sent a file offer request before authentication"@),
        r,
    ))
    &&& ((has_peer(pre.active_peers@, peer_addr) && peer_state(pre.active_peers@, peer_addr)
        is Disconnecting) ==> dropped_with(pre, post, peer_addr, None, r))
    &&& (has_peer(pre.active_peers@, peer_addr) ==> (peer_state(pre.active_peers@, peer_addr)
        matches PeerStateView::Authenticated { peer_info: info } ==> {
        &&& post.active_peers == pre.active_peers
        &&& transfers_frame_except(pre.active_transfers@, post.active_transfers@, fo.unique_id)
        &&& has_transfer(post.active_transfers@, fo.unique_id)
        &&& transfer_state(post.active_transfers@, fo.unique_id) == (FileTransferStateView {
            unique_id: fo.unique_id,
            peer_addr,
            direction: FileTransferDirectionView::Receiving,
            filename: fo.filename,
            total_size: fo.size,
            bytes_transferred: 0,
            chunk_len: fo.chunk_len,
            status: FileTransferStatusView::WaitingForPeerResponse,
            checksum: 0,
        })
        &&& r.len() == 1
        &&& (r[0] matches Action::Notify { event } && event@ == BackendEventView::FileOffer(
            crate::backend_event::FileOfferView {
                peer: conn_info_of(info, spec_ip_text(peer_addr.ip)),
                filename: fo.filename,
                unique_id: uuid_text_of(fo.unique_id),
                size: fo.size,
            },
        ))
    }))
}

/// The peer's answer to our file offer. On acceptance of a sending record
/// the source file is opened (the status changes once it is open); on
/// rejection the record is marked `Rejected`. An answer on a receiving
/// record is a protocol error and also marks the record.
pub open spec fn post_file_offer_response_msg(
    pre: PeerManager,
    post: PeerManager,
    fr: crate::protocol::FileOfferResponseView,
    peer_addr: PeerAddress,
    r: Seq<Action>,
) -> bool {
    &&& post.running == pre.running
    &&& peers_frame_except(pre.active_peers@, post.active_peers@, peer_addr)
    &&& (!has_peer(pre.active_peers@, peer_addr) ==> post.active_peers == pre.active_peers
        && post.active_transfers == pre.active_transfers && r.len() == 0)
    &&& ((has_peer(pre.active_peers@, peer_addr) && peer_state(pre.active_peers@, peer_addr)
        is Connected) ==> dropped_with(
        pre,
        post,
        peer_addr,
        Some("Peer sent a file offer response before authentication"@),
        r,
    ))
    &&& ((has_peer(pre.active_peers@, peer_addr) && peer_state(pre.active_peers@, peer_addr)
        is Disconnecting) ==> dropped_with(pre, post, peer_addr, None, r))
    &&& ((has_peer(pre.active_peers@, peer_addr) && peer_state(pre.active_peers@, peer_addr)
        is Authenticated) ==> {
        &&& (!has_transfer(pre.active_transfers@, fr.unique_id) ==> post.active_peers
            == pre.active_peers && post.active_transfers == pre.active_transfers && r.len() == 0)
        &&& (has_transfer(pre.active_transfers@, fr.unique_id) ==> (transfer_state(
            pre.active_transfers@,
            fr.unique_id,
        ).direction matches FileTransferDirectionView::Sending { file_path } ==> {
            &&& post.active_peers == pre.active_peers
            &&& transfers_frame_except(pre.active_transfers@, post.active_transfers@, fr.unique_id)
            &&& (fr.accept ==> post.active_transfers == pre.active_transfers && r.len() == 1 && (
            r[0] matches Action::OpenFileSource { unique_id, path } && unique_id == fr.unique_id
                && path@ == file_path))
            &&& (!fr.accept ==> r.len() == 0 && has_transfer(post.active_transfers@, fr.unique_id)
                && transfer_state(post.active_transfers@, fr.unique_id)
                == (FileTransferStateView {
                status: FileTransferStatusView::Rejected,
                ..transfer_state(pre.active_transfers@, fr.unique_id)
            }))
        }))
        &&& (has_transfer(pre.active_transfers@, fr.unique_id) ==> (transfer_state(
            pre.active_transfers@,
            fr.unique_id,
        ).direction is Receiving ==> {
            let t = transfer_state(pre.active_transfers@, fr.unique_id);
            &&& post.active_peers@ == drop_peer_spec_peers(pre.active_peers@, peer_addr)
            &&& drop_actions_spec(
                pre.active_peers@,
                peer_addr,
                Some("Cannot accept file response while receiving"@),
                r,
            )
            &&& (t.peer_addr == peer_addr ==> transfers_dropped_for(
                pre.active_transfers@,
                post.active_transfers@,
                peer_addr,
            ))
            &&& (t.peer_addr != peer_addr ==> {
                &&& has_transfer(post.active_transfers@, fr.unique_id)
                &&& transfer_state(post.active_transfers@, fr.unique_id)
                    == (FileTransferStateView {
                    status: FileTransferStatusView::Error(
                        "Cannot accept file response while receiving"@,
                    ),
                    ..t
                })
                &&& forall|x: u128| x != fr.unique_id ==> (has_transfer(
                    post.active_transfers@,
                    x,
                ) <==> (has_transfer(pre.active_transfers@, x) && transfer_state(
                    pre.active_transfers@,
                    x,
                ).peer_addr != peer_addr))
                &&& forall|x: u128| x != fr.unique_id && has_transfer(post.active_transfers@, x)
                    ==> transfer_state(post.active_transfers@, x) == transfer_state(
                    pre.active_transfers@,
                    x,
                )
            })
        }))
    })
}


impl PeerManager {
    pub fn handle_file_offer_request(
        &mut self,
        file_offer: crate::protocol::FileOffer,
        peer_addr: PeerAddress,
    ) -> (r: Vec<Action>)
        requires
            old(self).wf(),
        ensures
            final(self).wf(),
            post_file_offer_request(*old(self), *final(self), file_offer@, peer_addr, r@),
    {
        match find_peer_idx(&self.active_peers, &peer_addr) {
            None => Vec::new(),
            Some(i) => {
                proof {
                    lemma_peer_at(self.active_peers@, i as int);
                }
                let state_ref = &self.active_peers[i].state;
                if matches!(state_ref, PeerState::Connected { .. }) {
                    self.drop_peer(
                        peer_addr,
                        Some(
                            <String as vstd::string::StringExecFns>::from_str(
                                "Peer sent a file offer request before authentication",
                            ),
                        ),
                    )
                } else if matches!(state_ref, PeerState::Disconnecting { .. }) {
                    self.drop_peer(peer_addr, None)
                } else {
                    let shown = match &self.active_peers[i].state {
                        PeerState::Authenticated { peer_info } => peer_info.into_connection_info(
                            peer_addr,
                        ),
                        _ => crate::backend_event::ConnectionInfo {
                            name: String::new(),
                            ip: String::new(),
                            backend_version: String::new(),
                            identitiy: String::new(),
                        },
                    };
                    let mut r: Vec<Action> = Vec::new();
                    r.push(
                        Action::Notify {
                            event: BackendEvent::FileOffer(
                                crate::backend_event::FileOffer {
                                    peer: shown,
                                    filename: file_offer.filename.clone(),
                                    unique_id: format_transfer_id(file_offer.unique_id),
                                    size: file_offer.size,
                                },
                            ),
                        },
                    );
                    let rec = FileTransferState {
                        unique_id: file_offer.unique_id,
                        peer_addr,
                        direction: FileTransferDirection::Receiving,
                        filename: file_offer.filename,
                        total_size: file_offer.size,
                        bytes_transferred: 0,
                        chunk_len: file_offer.chunk_len,
                        status: FileTransferStatus::WaitingForPeerResponse,
                        checksum: 0,
                    };
                    match find_transfer_idx(&self.active_transfers, rec.unique_id) {
                        Some(j) => {
                            proof {
                                lemma_transfer_at(self.active_transfers@, j as int);
                                lemma_transfer_update(self.active_transfers@, j as int, rec);
                            }
                            self.active_transfers.set(j, rec);
                        },
                        None => {
                            proof {
                                lemma_transfer_push(self.active_transfers@, rec);
                            }
                            self.active_transfers.push(rec);
                        },
                    }
                    r
                }
            },
        }
    }

    pub fn handle_file_offer_response(
        &mut self,
        file_offer_response: crate::protocol::FileOfferResponse,
        peer_addr: PeerAddress,
    ) -> (r: Vec<Action>)
        requires
            old(self).wf(),
        ensures
            final(self).wf(),
            post_file_offer_response_msg(
                *old(self),
                *final(self),
                file_offer_response@,
                peer_addr,
                r@,
            ),
    {
        match find_peer_idx(&self.active_peers, &peer_addr) {
            None => Vec::new(),
            Some(i) => {
                proof {
                    lemma_peer_at(self.active_peers@, i as int);
                }
                let state_ref = &self.active_peers[i].state;
                if matches!(state_ref, PeerState::Connected { .. }) {
                    self.drop_peer(
                        peer_addr,
                        Some(
                            <String as vstd::string::StringExecFns>::from_str(
                                "Peer sent a file offer response before authentication",
                            ),
                        ),
                    )
                } else if matches!(state_ref, PeerState::Disconnecting { .. }) {
                    self.drop_peer(peer_addr, None)
                } else {
                    match find_transfer_idx(&self.active_transfers, file_offer_response.unique_id) {
                        None => Vec::new(),
                        Some(j) => {
                            proof {
                                lemma_transfer_at(self.active_transfers@, j as int);
                            }
                            if matches!(
                                self.active_transfers[j].direction,
                                FileTransferDirection::Sending { .. },
                            ) {
                                if file_offer_response.accept {
                                    let path = match &self.active_transfers[j].direction {
                                        FileTransferDirection::Sending { file_path } => file_path.clone(),
                                        _ => String::new(),
                                    };
                                    let mut r: Vec<Action> = Vec::new();
                                    r.push(
                                        Action::OpenFileSource {
                                            unique_id: file_offer_response.unique_id,
                                            path,
                                        },
                                    );
                                    r
                                } else {
                                    let mut rec = clone_transfer(&self.active_transfers[j]);
                                    rec.status = FileTransferStatus::Rejected;
                                    proof {
                                        lemma_transfer_update(
                                            self.active_transfers@,
                                            j as int,
                                            rec,
                                        );
                                    }
                                    self.active_transfers.set(j, rec);
                                    Vec::new()
                                }
                            } else {
                                let mut rec = clone_transfer(&self.active_transfers[j]);
                                rec.status = FileTransferStatus::Error(
                                    <String as vstd::string::StringExecFns>::from_str(
                                        "Cannot accept file response while receiving",
                                    ),
                                );
                                proof {
                                    lemma_transfer_update(self.active_transfers@, j as int, rec);
                                }
                                self.active_transfers.set(j, rec);
                                self.drop_peer(
                                    peer_addr,
                                    Some(
                                        <String as vstd::string::StringExecFns>::from_str(
                                            "Cannot accept file response while receiving",
                                        ),
                                    ),
                                )
                            }
                        },
                    }
                }
            },
        }
    }
}


// ---------------------------------------------------------------------------
// Chunk transfer
// ---------------------------------------------------------------------------

/// A received chunk on a live receiving record: the bytes are appended to
/// the target file, acknowledged, folded into the running checksum, and the
/// running count advances; the user sees the progress. A chunk that does not
/// belong to a live receiving record, or that would overrun the declared
/// total, is a protocol error.
pub open spec fn post_file_chunk(
    pre: PeerManager,
    post: PeerManager,
    fc: crate::protocol::FileChunkView,
    peer_addr: PeerAddress,
    r: Seq<Action>,
) -> bool {
    &&& post.running == pre.running
    &&& peers_frame_except(pre.active_peers@, post.active_peers@, peer_addr)
    &&& (!has_peer(pre.active_peers@, peer_addr) ==> post.active_peers == pre.active_peers
        && post.active_transfers == pre.active_transfers && r.len() == 0)
    &&& ((has_peer(pre.active_peers@, peer_addr) && peer_state(pre.active_peers@, peer_addr)
        is Connected) ==> dropped_with(
        pre,
        post,
        peer_addr,
        Some("Peer sent a file chunk before authentication"@),
        r,
    ))
    &&& ((has_peer(pre.active_peers@, peer_addr) && peer_state(pre.active_peers@, peer_addr)
        is Disconnecting) ==> dropped_with(pre, post, peer_addr, None, r))
    &&& ((has_peer(pre.active_peers@, peer_addr) && peer_state(pre.active_peers@, peer_addr)
        is Authenticated) ==> {
        let valid = has_transfer(pre.active_transfers@, fc.unique_id) && transfer_state(
            pre.active_transfers@,
            fc.unique_id,
        ).direction is Receiving && transfer_state(pre.active_transfers@, fc.unique_id).status
            is InProgress && fc.data.len() + transfer_state(
            pre.active_transfers@,
            fc.unique_id,
        ).bytes_transferred <= transfer_state(pre.active_transfers@, fc.unique_id).total_size;
        &&& (!valid ==> dropped_with(pre, post, peer_addr, Some("Unexpected FileChunk"@), r))
        &&& (valid ==> {
            let t = transfer_state(pre.active_transfers@, fc.unique_id);
            &&& transfers_frame_except(pre.active_transfers@, post.active_transfers@, fc.unique_id)
            &&& post.active_peers == pre.active_peers
            &&& has_transfer(post.active_transfers@, fc.unique_id)
            &&& transfer_state(post.active_transfers@, fc.unique_id) == (FileTransferStateView {
                bytes_transferred: (t.bytes_transferred + fc.data.len()) as u64,
                checksum: crate::peer_manager::add_bytes(t.checksum, fc.data),
                ..t
            })
            &&& r.len() == 3
            &&& (r[0] matches Action::WriteFileChunk { unique_id, data } && unique_id
                == fc.unique_id && data@ == fc.data)
            &&& (r[1] matches Action::SendPeer { addr, message } && addr == peer_addr && message@
                == MessageView::FileChunkAck(
                crate::protocol::FileChunkAckView {
                    unique_id: fc.unique_id,
                    chunk_id: fc.chunk_id,
                },
            ))
            &&& (r[2] matches Action::Notify { event } && event@
                == BackendEventView::FileTransferProgress(
                crate::backend_event::FileTransferProgressView {
                    unique_id: uuid_text_of(fc.unique_id),
                    bytes_transferred: (t.bytes_transferred + fc.data.len()) as u64,
                    total_bytes: t.total_size,
                    sending: crate::backend_event::FileTransferDirection::Receiving,
                },
            ))
        })
    })
}

/// An acknowledged chunk on a live sending record advances the running
/// count by the acked chunk's length and either requests the next chunk's
/// bytes from the source file or, when everything is acknowledged, sends the
/// final `FileDone` with the stream checksum. Anything else is a protocol
/// error.
pub open spec fn post_file_chunk_ack(
    pre: PeerManager,
    post: PeerManager,
    fa: crate::protocol::FileChunkAckView,
    peer_addr: PeerAddress,
    r: Seq<Action>,
) -> bool {
    &&& post.running == pre.running
    &&& peers_frame_except(pre.active_peers@, post.active_peers@, peer_addr)
    &&& (!has_peer(pre.active_peers@, peer_addr) ==> post.active_peers == pre.active_peers
        && post.active_transfers == pre.active_transfers && r.len() == 0)
    &&& ((has_peer(pre.active_peers@, peer_addr) && peer_state(pre.active_peers@, peer_addr)
        is Connected) ==> dropped_with(
        pre,
        post,
        peer_addr,
        Some("Unexpected FileChunkAck"@),
        r,
    ))
    &&& ((has_peer(pre.active_peers@, peer_addr) && peer_state(pre.active_peers@, peer_addr)
        is Disconnecting) ==> dropped_with(pre, post, peer_addr, None, r))
    &&& ((has_peer(pre.active_peers@, peer_addr) && peer_state(pre.active_peers@, peer_addr)
        is Authenticated) ==> {
        let valid = has_transfer(pre.active_transfers@, fa.unique_id) && transfer_state(
            pre.active_transfers@,
            fa.unique_id,
        ).direction is Sending && transfer_state(pre.active_transfers@, fa.unique_id).status
            is InProgress && transfer_state(pre.active_transfers@, fa.unique_id).chunk_len > 0
            && transfer_state(pre.active_transfers@, fa.unique_id).bytes_transferred
            < transfer_state(pre.active_transfers@, fa.unique_id).total_size;
        &&& (!valid ==> dropped_with(pre, post, peer_addr, Some("Unexpected FileChunkAck"@), r))
        &&& (valid ==> {
            let t = transfer_state(pre.active_transfers@, fa.unique_id);
            let step: u64 = if t.chunk_len < (t.total_size - t.bytes_transferred) as u64 {
                t.chunk_len
            } else {
                (t.total_size - t.bytes_transferred) as u64
            };
            let advanced: u64 = (t.bytes_transferred + step) as u64;
            &&& transfers_frame_except(pre.active_transfers@, post.active_transfers@, fa.unique_id)
            &&& post.active_peers == pre.active_peers
            &&& has_transfer(post.active_transfers@, fa.unique_id)
            &&& transfer_state(post.active_transfers@, fa.unique_id) == (FileTransferStateView {
                bytes_transferred: advanced,
                ..t
            })
            &&& r.len() == 2
            &&& (r[0] matches Action::Notify { event } && event@
                == BackendEventView::FileTransferProgress(
                crate::backend_event::FileTransferProgressView {
                    unique_id: uuid_text_of(fa.unique_id),
                    bytes_transferred: advanced,
                    total_bytes: t.total_size,
                    sending: crate::backend_event::FileTransferDirection::Sending,
                },
            ))
            &&& (advanced < t.total_size ==> (r[1] matches Action::ReadFileChunk {
                unique_id,
                chunk_id,
                offset,
                len,
            } && unique_id == fa.unique_id && chunk_id == advanced / t.chunk_len && offset
                == advanced && len == (if t.chunk_len < (t.total_size - advanced) as u64 {
                t.chunk_len
            } else {
                (t.total_size - advanced) as u64
            })))
            &&& (advanced == t.total_size ==> (r[1] matches Action::SendPeer { addr, message }
                && addr == peer_addr && message@ == MessageView::FileDone(
                crate::protocol::FileDoneView {
                    unique_id: fa.unique_id,
                    checksum: vstd::bytes::spec_u64_to_le_bytes(t.checksum),
                },
            )))
        })
    })
}

/// The sender finished: on a live receiving record the declared checksum and
/// the byte count are checked; the verdict goes back to the peer and up to
/// the user, and the record ends `Completed` or `Error`. Anything else is a
/// protocol error.
pub open spec fn post_file_done(
    pre: PeerManager,
    post: PeerManager,
    fd: crate::protocol::FileDoneView,
    peer_addr: PeerAddress,
    r: Seq<Action>,
) -> bool {
    &&& post.running == pre.running
    &&& peers_frame_except(pre.active_peers@, post.active_peers@, peer_addr)
    &&& (!has_peer(pre.active_peers@, peer_addr) ==> post.active_peers == pre.active_peers
        && post.active_transfers == pre.active_transfers && r.len() == 0)
    &&& ((has_peer(pre.active_peers@, peer_addr) && peer_state(pre.active_peers@, peer_addr)
        is Connected) ==> dropped_with(pre, post, peer_addr, Some("Unexpected FileDone"@), r))
    &&& ((has_peer(pre.active_peers@, peer_addr) && peer_state(pre.active_peers@, peer_addr)
        is Disconnecting) ==> dropped_with(pre, post, peer_addr, None, r))
    &&& ((has_peer(pre.active_peers@, peer_addr) && peer_state(pre.active_peers@, peer_addr)
        is Authenticated) ==> {
        let valid = has_transfer(pre.active_transfers@, fd.unique_id) && transfer_state(
            pre.active_transfers@,
            fd.unique_id,
        ).direction is Receiving && transfer_state(pre.active_transfers@, fd.unique_id).status
            is InProgress;
        &&& (!valid ==> dropped_with(pre, post, peer_addr, Some("Unexpected FileDone"@), r))
        &&& (valid ==> {
            let t = transfer_state(pre.active_transfers@, fd.unique_id);
            let success = t.bytes_transferred == t.total_size && fd.checksum
                == vstd::bytes::spec_u64_to_le_bytes(t.checksum);
            &&& transfers_frame_except(pre.active_transfers@, post.active_transfers@, fd.unique_id)
            &&& post.active_peers == pre.active_peers
            &&& has_transfer(post.active_transfers@, fd.unique_id)
            &&& transfer_state(post.active_transfers@, fd.unique_id) == (FileTransferStateView {
                status: if success {
                    FileTransferStatusView::Completed
                } else {
                    FileTransferStatusView::Error("Checksum mismatch"@)
                },
                ..t
            })
            &&& r.len() == 2
            &&& (r[0] matches Action::SendPeer { addr, message } && addr == peer_addr && message@
                == MessageView::FileDoneResult(
                crate::protocol::FileDoneResultView {
                    unique_id: fd.unique_id,
                    success,
                    message: if success {
                        None
                    } else {
                        Some("Checksum mismatch"@)
                    },
                },
            ))
            &&& (success ==> (r[1] matches Action::Notify { event } && event@
                == BackendEventView::FileTransferComplete(
                crate::backend_event::FileTransferCompleteView {
                    unique_id: uuid_text_of(fd.unique_id),
                },
            )))
            &&& (!success ==> (r[1] matches Action::Notify { event } && event@
                == BackendEventView::FileTransferError(
                crate::backend_event::FileTransferErrorView {
                    unique_id: uuid_text_of(fd.unique_id),
                    message: "Checksum mismatch"@,
                },
            )))
        })
    })
}

/// The receiver's verdict on our finished send: the record ends `Completed`
/// on success, `Error` with the sent (or a default) reason otherwise, and
/// the user is told. Anything else is a protocol error.
pub open spec fn post_file_done_result(
    pre: PeerManager,
    post: PeerManager,
    fr: crate::protocol::FileDoneResultView,
    peer_addr: PeerAddress,
    r: Seq<Action>,
) -> bool {
    &&& post.running == pre.running
    &&& peers_frame_except(pre.active_peers@, post.active_peers@, peer_addr)
    &&& (!has_peer(pre.active_peers@, peer_addr) ==> post.active_peers == pre.active_peers
        && post.active_transfers == pre.active_transfers && r.len() == 0)
    &&& ((has_peer(pre.active_peers@, peer_addr) && peer_state(pre.active_peers@, peer_addr)
        is Connected) ==> dropped_with(
        pre,
        post,
        peer_addr,
        Some("Unexpected FileDoneResult"@),
        r,
    ))
    &&& ((has_peer(pre.active_peers@, peer_addr) && peer_state(pre.active_peers@, peer_addr)
        is Disconnecting) ==> dropped_with(pre, post, peer_addr, None, r))
    &&& ((has_peer(pre.active_peers@, peer_addr) && peer_state(pre.active_peers@, peer_addr)
        is Authenticated) ==> {
        let valid = has_transfer(pre.active_transfers@, fr.unique_id) && transfer_state(
            pre.active_transfers@,
            fr.unique_id,
        ).direction is Sending && transfer_state(pre.active_transfers@, fr.unique_id).status
            is InProgress;
        &&& (!valid ==> dropped_with(pre, post, peer_addr, Some("Unexpected FileDoneResult"@), r))
        &&& (valid ==> {
            let t = transfer_state(pre.active_transfers@, fr.unique_id);
            let reason: Seq<char> = match fr.message {
                Some(m) => m,
                None => "File transfer failed"@,
            };
            &&& transfers_frame_except(pre.active_transfers@, post.active_transfers@, fr.unique_id)
            &&& post.active_peers == pre.active_peers
            &&& has_transfer(post.active_transfers@, fr.unique_id)
            &&& transfer_state(post.active_transfers@, fr.unique_id) == (FileTransferStateView {
                status: if fr.success {
                    FileTransferStatusView::Completed
                } else {
                    FileTransferStatusView::Error(reason)
                },
                ..t
            })
            &&& r.len() == 1
            &&& (fr.success ==> (r[0] matches Action::Notify { event } && event@
                == BackendEventView::FileTransferComplete(
                crate::backend_event::FileTransferCompleteView {
                    unique_id: uuid_text_of(fr.unique_id),
                },
            )))
            &&& (!fr.success ==> (r[0] matches Action::Notify { event } && event@
                == BackendEventView::FileTransferError(
                crate::backend_event::FileTransferErrorView {
                    unique_id: uuid_text_of(fr.unique_id),
                    message: reason,
                },
            )))
        })
    })
}

impl PeerManager {
    pub fn handle_file_chunk(
        &mut self,
        file_chunk: crate::protocol::FileChunk,
        peer_addr: PeerAddress,
    ) -> (r: Vec<Action>)
        requires
            old(self).wf(),
        ensures
            final(self).wf(),
            post_file_chunk(*old(self), *final(self), file_chunk@, peer_addr, r@),
    {
        match find_peer_idx(&self.active_peers, &peer_addr) {
            None => Vec::new(),
            Some(i) => {
                proof {
                    lemma_peer_at(self.active_peers@, i as int);
                }
                let state_ref = &self.active_peers[i].state;
                if matches!(state_ref, PeerState::Connected { .. }) {
                    return self.drop_peer(
                        peer_addr,
                        Some(
                            <String as vstd::string::StringExecFns>::from_str(
                                "Peer sent a file chunk before authentication",
                            ),
                        ),
                    );
                }
                if matches!(state_ref, PeerState::Disconnecting { .. }) {
                    return self.drop_peer(peer_addr, None);
                }
                let valid_idx = match find_transfer_idx(
                    &self.active_transfers,
                    file_chunk.unique_id,
                ) {
                    Some(j) => {
                        proof {
                            lemma_transfer_at(self.active_transfers@, j as int);
                        }
                        let t = &self.active_transfers[j];
                        if matches!(t.direction, FileTransferDirection::Receiving) && matches!(
                            t.status,
                            FileTransferStatus::InProgress,
                        ) && file_chunk.data.len() as u64 <= t.total_size - t.bytes_transferred {
                            Some(j)
                        } else {
                            None
                        }
                    },
                    None => None,
                };
                match valid_idx {
                    None => self.drop_peer(
                        peer_addr,
                        Some(
                            <String as vstd::string::StringExecFns>::from_str(
                                "Unexpected FileChunk",
                            ),
                        ),
                    ),
                    Some(j) => {
                        let mut rec = clone_transfer(&self.active_transfers[j]);
                        rec.bytes_transferred = rec.bytes_transferred + file_chunk.data.len()
                            as u64;
                        rec.checksum = crate::peer_manager::add_bytes_x(
                            rec.checksum,
                            &file_chunk.data,
                        );
                        proof {
                            lemma_transfer_update(self.active_transfers@, j as int, rec);
                        }
                        let total = rec.total_size;
                        let advanced = rec.bytes_transferred;
                        self.active_transfers.set(j, rec);
                        let mut r: Vec<Action> = Vec::new();
                        r.push(
                            Action::WriteFileChunk {
                                unique_id: file_chunk.unique_id,
                                data: file_chunk.data,
                            },
                        );
                        r.push(
                            Action::SendPeer {
                                addr: peer_addr,
                                message: Message::FileChunkAck(
                                    crate::protocol::FileChunkAck {
                                        unique_id: file_chunk.unique_id,
                                        chunk_id: file_chunk.chunk_id,
                                    },
                                ),
                            },
                        );
                        r.push(
                            Action::Notify {
                                event: BackendEvent::FileTransferProgress(
                                    crate::backend_event::FileTransferProgress {
                                        unique_id: format_transfer_id(file_chunk.unique_id),
                                        bytes_transferred: advanced,
                                        total_bytes: total,
                                        sending: crate::backend_event::FileTransferDirection::Receiving,
                                    },
                                ),
                            },
                        );
                        r
                    },
                }
            },
        }
    }

    pub fn handle_file_chunk_ack(
        &mut self,
        file_chunk_ack: crate::protocol::FileChunkAck,
        peer_addr: PeerAddress,
    ) -> (r: Vec<Action>)
        requires
            old(self).wf(),
        ensures
            final(self).wf(),
            post_file_chunk_ack(*old(self), *final(self), file_chunk_ack@, peer_addr, r@),
    {
        match find_peer_idx(&self.active_peers, &peer_addr) {
            None => Vec::new(),
            Some(i) => {
                proof {
                    lemma_peer_at(self.active_peers@, i as int);
                }
                let state_ref = &self.active_peers[i].state;
                if matches!(state_ref, PeerState::Connected { .. }) {
                    return self.drop_peer(
                        peer_addr,
                        Some(
                            <String as vstd::string::StringExecFns>::from_str(
                                "Unexpected FileChunkAck",
                            ),
                        ),
                    );
                }
                if matches!(state_ref, PeerState::Disconnecting { .. }) {
                    return self.drop_peer(peer_addr, None);
                }
                let valid_idx = match find_transfer_idx(
                    &self.active_transfers,
                    file_chunk_ack.unique_id,
                ) {
                    Some(j) => {
                        proof {
                            lemma_transfer_at(self.active_transfers@, j as int);
                        }
                        let t = &self.active_transfers[j];
                        if matches!(t.direction, FileTransferDirection::Sending { .. }) && matches!(
                            t.status,
                            FileTransferStatus::InProgress,
                        ) && t.chunk_len > 0 && t.bytes_transferred < t.total_size {
                            Some(j)
                        } else {
                            None
                        }
                    },
                    None => None,
                };
                match valid_idx {
                    None => self.drop_peer(
                        peer_addr,
                        Some(
                            <String as vstd::string::StringExecFns>::from_str(
                                "Unexpected FileChunkAck",
                            ),
                        ),
                    ),
                    Some(j) => {
                        let mut rec = clone_transfer(&self.active_transfers[j]);
                        let remaining = rec.total_size - rec.bytes_transferred;
                        let step = if rec.chunk_len < remaining {
                            rec.chunk_len
                        } else {
                            remaining
                        };
                        rec.bytes_transferred = rec.bytes_transferred + step;
                        let advanced = rec.bytes_transferred;
                        let total = rec.total_size;
                        let chunk_len = rec.chunk_len;
                        let checksum = rec.checksum;
                        proof {
                            lemma_transfer_update(self.active_transfers@, j as int, rec);
                        }
                        self.active_transfers.set(j, rec);
                        let mut r: Vec<Action> = Vec::new();
                        r.push(
                            Action::Notify {
                                event: BackendEvent::FileTransferProgress(
                                    crate::backend_event::FileTransferProgress {
                                        unique_id: format_transfer_id(file_chunk_ack.unique_id),
                                        bytes_transferred: advanced,
                                        total_bytes: total,
                                        sending: crate::backend_event::FileTransferDirection::Sending,
                                    },
                                ),
                            },
                        );
                        if advanced < total {
                            let next_len = if chunk_len < total - advanced {
                                chunk_len
                            } else {
                                total - advanced
                            };
                            r.push(
                                Action::ReadFileChunk {
                                    unique_id: file_chunk_ack.unique_id,
                                    chunk_id: advanced / chunk_len,
                                    offset: advanced,
                                    len: next_len,
                                },
                            );
                        } else {
                            r.push(
                                Action::SendPeer {
                                    addr: peer_addr,
                                    message: Message::FileDone(
                                        crate::protocol::FileDone {
                                            unique_id: file_chunk_ack.unique_id,
                                            checksum: vstd::bytes::u64_to_le_bytes(checksum),
                                        },
                                    ),
                                },
                            );
                        }
                        r
                    },
                }
            },
        }
    }

    pub fn handle_file_done(
        &mut self,
        file_done: crate::protocol::FileDone,
        peer_addr: PeerAddress,
    ) -> (r: Vec<Action>)
        requires
            old(self).wf(),
        ensures
            final(self).wf(),
            post_file_done(*old(self), *final(self), file_done@, peer_addr, r@),
    {
        match find_peer_idx(&self.active_peers, &peer_addr) {
            None => Vec::new(),
            Some(i) => {
                proof {
                    lemma_peer_at(self.active_peers@, i as int);
                }
                let state_ref = &self.active_peers[i].state;
                if matches!(state_ref, PeerState::Connected { .. }) {
                    return self.drop_peer(
                        peer_addr,
                        Some(
                            <String as vstd::string::StringExecFns>::from_str(
                                "Unexpected FileDone",
                            ),
                        ),
                    );
                }
                if matches!(state_ref, PeerState::Disconnecting { .. }) {
                    return self.drop_peer(peer_addr, None);
                }
                let valid_idx = match find_transfer_idx(
                    &self.active_transfers,
                    file_done.unique_id,
                ) {
                    Some(j) => {
                        proof {
                            lemma_transfer_at(self.active_transfers@, j as int);
                        }
                        let t = &self.active_transfers[j];
                        if matches!(t.direction, FileTransferDirection::Receiving) && matches!(
                            t.status,
                            FileTransferStatus::InProgress,
                        ) {
                            Some(j)
                        } else {
                            None
                        }
                    },
                    None => None,
                };
                match valid_idx {
                    None => self.drop_peer(
                        peer_addr,
                        Some(
                            <String as vstd::string::StringExecFns>::from_str(
                                "Unexpected FileDone",
                            ),
                        ),
                    ),
                    Some(j) => {
                        proof {
                            vstd::bytes::lemma_auto_spec_u64_to_from_le_bytes();
                        }
                        let mut rec = clone_transfer(&self.active_transfers[j]);
                        let success = rec.bytes_transferred == rec.total_size
                            && file_done.checksum.len() == 8 && vstd::bytes::u64_from_le_bytes(
                            file_done.checksum.as_slice(),
                        ) == rec.checksum;
                        rec.status = if success {
                            FileTransferStatus::Completed
                        } else {
                            FileTransferStatus::Error(
                                <String as vstd::string::StringExecFns>::from_str(
                                    "Checksum mismatch",
                                ),
                            )
                        };
                        proof {
                            lemma_transfer_update(self.active_transfers@, j as int, rec);
                        }
                        self.active_transfers.set(j, rec);
                        let mut r: Vec<Action> = Vec::new();
                        r.push(
                            Action::SendPeer {
                                addr: peer_addr,
                                message: Message::FileDoneResult(
                                    crate::protocol::FileDoneResult {
                                        unique_id: file_done.unique_id,
                                        success,
                                        message: if success {
                                            None
                                        } else {
                                            Some(
                                                <String as vstd::string::StringExecFns>::from_str(
                                                    "Checksum mismatch",
                                                ),
                                            )
                                        },
                                    },
                                ),
                            },
                        );
                        if success {
                            r.push(
                                Action::Notify {
                                    event: BackendEvent::FileTransferComplete(
                                        crate::backend_event::FileTransferComplete {
                                            unique_id: format_transfer_id(file_done.unique_id),
                                        },
                                    ),
                                },
                            );
                        } else {
                            r.push(
                                Action::Notify {
                                    event: BackendEvent::FileTransferError(
                                        crate::backend_event::FileTransferError {
                                            unique_id: format_transfer_id(file_done.unique_id),
                                            message: <String as vstd::string::StringExecFns>::from_str(
                                                "Checksum mismatch",
                                            ),
                                        },
                                    ),
                                },
                            );
                        }
                        r
                    },
                }
            },
        }
    }

    pub fn handle_file_done_result(
        &mut self,
        file_done_result: crate::protocol::FileDoneResult,
        peer_addr: PeerAddress,
    ) -> (r: Vec<Action>)
        requires
            old(self).wf(),
        ensures
            final(self).wf(),
            post_file_done_result(*old(self), *final(self), file_done_result@, peer_addr, r@),
    {
        match find_peer_idx(&self.active_peers, &peer_addr) {
            None => Vec::new(),
            Some(i) => {
                proof {
                    lemma_peer_at(self.active_peers@, i as int);
                }
                let state_ref = &self.active_peers[i].state;
                if matches!(state_ref, PeerState::Connected { .. }) {
                    return self.drop_peer(
                        peer_addr,
                        Some(
                            <String as vstd::string::StringExecFns>::from_str(
                                "Unexpected FileDoneResult",
                            ),
                        ),
                    );
                }
                if matches!(state_ref, PeerState::Disconnecting { .. }) {
                    return self.drop_peer(peer_addr, None);
                }
                let valid_idx = match find_transfer_idx(
                    &self.active_transfers,
                    file_done_result.unique_id,
                ) {
                    Some(j) => {
                        proof {
                            lemma_transfer_at(self.active_transfers@, j as int);
                        }
                        let t = &self.active_transfers[j];
                        if matches!(t.direction, FileTransferDirection::Sending { .. }) && matches!(
                            t.status,
                            FileTransferStatus::InProgress,
                        ) {
                            Some(j)
                        } else {
                            None
                        }
                    },
                    None => None,
                };
                match valid_idx {
                    None => self.drop_peer(
                        peer_addr,
                        Some(
                            <String as vstd::string::StringExecFns>::from_str(
                                "Unexpected FileDoneResult",
                            ),
                        ),
                    ),
                    Some(j) => {
                        let reason = match &file_done_result.message {
                            Some(m) => m.clone(),
                            None => <String as vstd::string::StringExecFns>::from_str(
                                "File transfer failed",
                            ),
                        };
                        let mut rec = clone_transfer(&self.active_transfers[j]);
                        rec.status = if file_done_result.success {
                            FileTransferStatus::Completed
                        } else {
                            FileTransferStatus::Error(reason.clone())
                        };
                        proof {
                            lemma_transfer_update(self.active_transfers@, j as int, rec);
                        }
                        self.active_transfers.set(j, rec);
                        let mut r: Vec<Action> = Vec::new();
                        if file_done_result.success {
                            r.push(
                                Action::Notify {
                                    event: BackendEvent::FileTransferComplete(
                                        crate::backend_event::FileTransferComplete {
                                            unique_id: format_transfer_id(
                                                file_done_result.unique_id,
                                            ),
                                        },
                                    ),
                                },
                            );
                        } else {
                            r.push(
                                Action::Notify {
                                    event: BackendEvent::FileTransferError(
                                        crate::backend_event::FileTransferError {
                                            unique_id: format_transfer_id(
                                                file_done_result.unique_id,
                                            ),
                                            message: reason,
                                        },
                                    ),
                                },
                            );
                        }
                        r
                    },
                }
            },
        }
    }
}


// ---------------------------------------------------------------------------
// Transfer I/O callbacks
// ---------------------------------------------------------------------------

/// The runtime opened (or created) the transfer's file: the record becomes
/// `InProgress`, and a sending record starts the chunk pump — the first
/// chunk is requested, or for an empty file the final `FileDone` goes out
/// at once.
pub open spec fn post_transfer_file_opened(
    pre: PeerManager,
    post: PeerManager,
    unique_id: u128,
    r: Seq<Action>,
) -> bool {
    &&& post.running == pre.running
    &&& post.active_peers == pre.active_peers
    &&& transfers_frame_except(pre.active_transfers@, post.active_transfers@, unique_id)
    &&& (!has_transfer(pre.active_transfers@, unique_id) ==> post.active_transfers
        == pre.active_transfers && r.len() == 0)
    &&& (has_transfer(pre.active_transfers@, unique_id) ==> {
        let t = transfer_state(pre.active_transfers@, unique_id);
        &&& has_transfer(post.active_transfers@, unique_id)
        &&& transfer_state(post.active_transfers@, unique_id) == (FileTransferStateView {
            status: FileTransferStatusView::InProgress,
            ..t
        })
        &&& (t.direction is Receiving ==> r.len() == 0)
        &&& (t.direction is Sending ==> {
            &&& (t.total_size == 0 ==> r.len() == 1 && (r[0] matches Action::SendPeer {
                addr,
                message,
            } && addr == t.peer_addr && message@ == MessageView::FileDone(
                crate::protocol::FileDoneView {
                    unique_id,
                    checksum: vstd::bytes::spec_u64_to_le_bytes(t.checksum),
                },
            )))
            &&& (t.total_size > 0 && t.chunk_len == 0 ==> r.len() == 0)
            &&& (t.total_size > 0 && t.chunk_len > 0 ==> r.len() == 1 && (
            r[0] matches Action::ReadFileChunk { unique_id: id2, chunk_id, offset, len } && id2
                == unique_id && chunk_id == 0 && offset == 0 && len == (if t.chunk_len
                < t.total_size {
                t.chunk_len
            } else {
                t.total_size
            })))
        })
    })
}

/// The runtime could not open (or create) the transfer's file: the record
/// ends in `Error` and the user is told.
pub open spec fn post_transfer_file_open_failed(
    pre: PeerManager,
    post: PeerManager,
    unique_id: u128,
    error: Seq<char>,
    r: Seq<Action>,
) -> bool {
    &&& post.running == pre.running
    &&& post.active_peers == pre.active_peers
    &&& transfers_frame_except(pre.active_transfers@, post.active_transfers@, unique_id)
    &&& (!has_transfer(pre.active_transfers@, unique_id) ==> post.active_transfers
        == pre.active_transfers && r.len() == 0)
    &&& (has_transfer(pre.active_transfers@, unique_id) ==> {
        &&& has_transfer(post.active_transfers@, unique_id)
        &&& transfer_state(post.active_transfers@, unique_id) == (FileTransferStateView {
            status: FileTransferStatusView::Error(error),
            ..transfer_state(pre.active_transfers@, unique_id)
        })
        &&& r.len() == 1
        &&& (r[0] matches Action::Notify { event } && event@
            == BackendEventView::FileTransferError(
            crate::backend_event::FileTransferErrorView {
                unique_id: uuid_text_of(unique_id),
                message: error,
            },
        ))
    })
}

/// The runtime read a chunk's bytes from the source file: they are folded
/// into the running checksum and sent to the peer with the chunk count.
pub open spec fn post_send_chunk_data(
    pre: PeerManager,
    post: PeerManager,
    unique_id: u128,
    chunk_id: u64,
    data: Seq<u8>,
    r: Seq<Action>,
) -> bool {
    &&& post.running == pre.running
    &&& post.active_peers == pre.active_peers
    &&& transfers_frame_except(pre.active_transfers@, post.active_transfers@, unique_id)
    &&& ({
        let live = has_transfer(pre.active_transfers@, unique_id) && transfer_state(
            pre.active_transfers@,
            unique_id,
        ).direction is Sending && transfer_state(pre.active_transfers@, unique_id).status
            is InProgress;
        &&& (!live ==> post.active_transfers == pre.active_transfers && r.len() == 0)
        &&& (live ==> {
            let t = transfer_state(pre.active_transfers@, unique_id);
            &&& has_transfer(post.active_transfers@, unique_id)
            &&& transfer_state(post.active_transfers@, unique_id) == (FileTransferStateView {
                checksum: crate::peer_manager::add_bytes(t.checksum, data),
                ..t
            })
            &&& r.len() == 1
            &&& (r[0] matches Action::SendPeer { addr, message } && addr == t.peer_addr
                && message@ == MessageView::FileChunk(
                crate::protocol::FileChunkView {
                    unique_id,
                    chunk_id,
                    chunk_count: crate::peer_manager::chunk_count_of(t.total_size, t.chunk_len),
                    data,
                },
            ))
        })
    })
}

impl PeerManager {
    pub fn transfer_file_opened(&mut self, unique_id: u128) -> (r: Vec<Action>)
        requires
            old(self).wf(),
        ensures
            final(self).wf(),
            post_transfer_file_opened(*old(self), *final(self), unique_id, r@),
    {
        match find_transfer_idx(&self.active_transfers, unique_id) {
            None => Vec::new(),
            Some(j) => {
                proof {
                    lemma_transfer_at(self.active_transfers@, j as int);
                }
                let mut rec = clone_transfer(&self.active_transfers[j]);
                rec.status = FileTransferStatus::InProgress;
                let sending = matches!(rec.direction, FileTransferDirection::Sending { .. });
                let total = rec.total_size;
                let chunk_len = rec.chunk_len;
                let checksum = rec.checksum;
                let dest = rec.peer_addr;
                proof {
                    lemma_transfer_update(self.active_transfers@, j as int, rec);
                }
                self.active_transfers.set(j, rec);
                let mut r: Vec<Action> = Vec::new();
                if sending {
                    if total == 0 {
                        r.push(
                            Action::SendPeer {
                                addr: dest,
                                message: Message::FileDone(
                                    crate::protocol::FileDone {
                                        unique_id,
                                        checksum: vstd::bytes::u64_to_le_bytes(checksum),
                                    },
                                ),
                            },
                        );
                    } else if chunk_len > 0 {
                        let first_len = if chunk_len < total {
                            chunk_len
                        } else {
                            total
                        };
                        r.push(
                            Action::ReadFileChunk {
                                unique_id,
                                chunk_id: 0,
                                offset: 0,
                                len: first_len,
                            },
                        );
                    }
                }
                r
            },
        }
    }

    pub fn transfer_file_open_failed(&mut self, unique_id: u128, error: String) -> (r: Vec<
        Action,
    >)
        requires
            old(self).wf(),
        ensures
            final(self).wf(),
            post_transfer_file_open_failed(*old(self), *final(self), unique_id, error@, r@),
    {
        match find_transfer_idx(&self.active_transfers, unique_id) {
            None => Vec::new(),
            Some(j) => {
                proof {
                    lemma_transfer_at(self.active_transfers@, j as int);
                }
                let mut rec = clone_transfer(&self.active_transfers[j]);
                rec.status = FileTransferStatus::Error(error.clone());
                proof {
                    lemma_transfer_update(self.active_transfers@, j as int, rec);
                }
                self.active_transfers.set(j, rec);
                let mut r: Vec<Action> = Vec::new();
                r.push(
                    Action::Notify {
                        event: BackendEvent::FileTransferError(
                            crate::backend_event::FileTransferError {
                                unique_id: format_transfer_id(unique_id),
                                message: error,
                            },
                        ),
                    },
                );
                r
            },
        }
    }

    pub fn send_chunk_data(&mut self, unique_id: u128, chunk_id: u64, data: Vec<u8>) -> (r: Vec<
        Action,
    >)
        requires
            old(self).wf(),
        ensures
            final(self).wf(),
            post_send_chunk_data(*old(self), *final(self), unique_id, chunk_id, data@, r@),
    {
        match find_transfer_idx(&self.active_transfers, unique_id) {
            None => Vec::new(),
            Some(j) => {
                proof {
                    lemma_transfer_at(self.active_transfers@, j as int);
                }
                let live = matches!(
                    self.active_transfers[j].direction,
                    FileTransferDirection::Sending { .. },
                ) && matches!(self.active_transfers[j].status, FileTransferStatus::InProgress);
                if !live {
                    return Vec::new();
                }
                let mut rec = clone_transfer(&self.active_transfers[j]);
                rec.checksum = crate::peer_manager::add_bytes_x(rec.checksum, &data);
                let dest = rec.peer_addr;
                let cc = crate::peer_manager::chunk_count_x(rec.total_size, rec.chunk_len);
                proof {
                    lemma_transfer_update(self.active_transfers@, j as int, rec);
                }
                self.active_transfers.set(j, rec);
                let mut r: Vec<Action> = Vec::new();
                r.push(
                    Action::SendPeer {
                        addr: dest,
                        message: Message::FileChunk(
                            crate::protocol::FileChunk {
                                unique_id,
                                chunk_id,
                                chunk_count: cc,
                                data,
                            },
                        ),
                    },
                );
                r
            },
        }
    }
}

// ---------------------------------------------------------------------------
// Dispatch
// ---------------------------------------------------------------------------

/// The state machine's full inbound contract: one case per protocol
/// message. A keep-alive only schedules the delayed reply decision; every
/// other message is handled by its transition predicate.
pub open spec fn post_handle_message(
    pre: PeerManager,
    post: PeerManager,
    m: MessageView,
    peer_addr: PeerAddress,
    r: Seq<Action>,
) -> bool {
    match m {
        MessageView::KeepAlive => post == pre && r.len() == 1 && (
        r[0] matches Action::ScheduleKeepAlive { addr } && addr == peer_addr),
        MessageView::ConnectRequest(ci) => post_connect_request(pre, post, ci, peer_addr, r),
        MessageView::ConnectResponse(cr) => post_connect_response(pre, post, cr, peer_addr, r),
        MessageView::DisconnectRequest(dr) => post_disconnect_request(pre, post, dr, peer_addr, r),
        MessageView::DisconnectAck => post_disconnect_ack(pre, post, peer_addr, r),
        MessageView::ImmediateConnectionClose(dr) => post_immediate_connection_close(
            pre,
            post,
            dr,
            peer_addr,
            r,
        ),
        MessageView::FileOfferRequest(fo) => post_file_offer_request(pre, post, fo, peer_addr, r),
        MessageView::FileOfferResponse(fr) => post_file_offer_response_msg(
            pre,
            post,
            fr,
            peer_addr,
            r,
        ),
        MessageView::FileChunk(fc) => post_file_chunk(pre, post, fc, peer_addr, r),
        MessageView::FileChunkAck(fa) => post_file_chunk_ack(pre, post, fa, peer_addr, r),
        MessageView::FileDone(fd) => post_file_done(pre, post, fd, peer_addr, r),
        MessageView::FileDoneResult(fr) => post_file_done_result(pre, post, fr, peer_addr, r),
    }
}

impl PeerManager {
    /// Dispatch one decoded message from a peer to its transition.
    pub fn handle_message(&mut self, message: Message, peer_addr: PeerAddress) -> (r: Vec<Action>)
        requires
            old(self).wf(),
        ensures
            final(self).wf(),
            post_handle_message(*old(self), *final(self), message@, peer_addr, r@),
    {
        match message {
            Message::KeepAlive => {
                let mut r: Vec<Action> = Vec::new();
                r.push(Action::ScheduleKeepAlive { addr: peer_addr });
                r
            },
            Message::ConnectRequest(ci) => self.handle_connect_request(ci, peer_addr),
            Message::ConnectResponse(cr) => self.handle_connect_response(cr, peer_addr),
            Message::DisconnectRequest(dr) => self.handle_disconnect_request(dr, peer_addr),
            Message::DisconnectAck => self.handle_disconnect_ack(peer_addr),
            Message::ImmediateConnectionClose(dr) => self.handle_immediate_connection_close(
                dr,
                peer_addr,
            ),
            Message::FileOfferRequest(fo) => self.handle_file_offer_request(fo, peer_addr),
            Message::FileOfferResponse(fr) => self.handle_file_offer_response(fr, peer_addr),
            Message::FileChunk(fc) => self.handle_file_chunk(fc, peer_addr),
            Message::FileChunkAck(fa) => self.handle_file_chunk_ack(fa, peer_addr),
            Message::FileDone(fd) => self.handle_file_done(fd, peer_addr),
            Message::FileDoneResult(fr) => self.handle_file_done_result(fr, peer_addr),
        }
    }
}


// ---------------------------------------------------------------------------
// Reader framing decisions
// ---------------------------------------------------------------------------

impl PeerManager {
    /// Reader decision on a received 4-byte length header, taken before any
    /// buffer is allocated: a length over [`crate::MAX_MESSAGE_SIZE`] is a
    /// protocol violation and the peer is dropped. Returns whether the
    /// reader may continue.
    pub fn handle_frame_len(&mut self, peer_addr: PeerAddress, len: u32) -> (r: (bool, Vec<
        Action,
    >))
        requires
            old(self).wf(),
        ensures
            final(self).wf(),
            final(self).running == old(self).running,
            peers_frame_except(old(self).active_peers@, final(self).active_peers@, peer_addr),
            len as nat <= crate::MAX_MESSAGE_SIZE ==> r.0 && final(self).active_peers == old(
                self,
            ).active_peers && final(self).active_transfers == old(self).active_transfers
                && r.1@.len() == 0,
            len as nat > crate::MAX_MESSAGE_SIZE ==> !r.0 && dropped_with(
                *old(self),
                *final(self),
                peer_addr,
                Some("message larger than maximum size"@),
                r.1@,
            ),
    {
        if len as usize <= crate::MAX_MESSAGE_SIZE {
            (true, Vec::new())
        } else {
            let acts = self.drop_peer(
                peer_addr,
                Some(
                    <String as vstd::string::StringExecFns>::from_str(
                        "message larger than maximum size",
                    ),
                ),
            );
            (false, acts)
        }
    }

    /// Reader decision on a received frame payload: decode it; a decode
    /// failure or a payload that the message does not exactly consume is a
    /// protocol violation and the peer is dropped; otherwise the message is
    /// dispatched. Returns whether the reader may continue.
    pub fn handle_frame_payload(&mut self, peer_addr: PeerAddress, payload: Vec<u8>) -> (r: (
        bool,
        Vec<Action>,
    ))
        requires
            old(self).wf(),
        ensures
            final(self).wf(),
            match crate::codec::dec_message(payload@, 0) {
                Some((m, n)) => if n == payload@.len() {
                    r.0 && post_handle_message(*old(self), *final(self), m, peer_addr, r.1@)
                } else {
                    !r.0 && dropped_with(
                        *old(self),
                        *final(self),
                        peer_addr,
                        Some("Peer sent a message with mismatched length"@),
                        r.1@,
                    )
                },
                None => !r.0 && dropped_with(
                    *old(self),
                    *final(self),
                    peer_addr,
                    Some("Failed to deserialize peer message"@),
                    r.1@,
                ),
            },
    {
        match crate::codec::decode_message(&payload) {
            Some((message, consumed)) => {
                if consumed == payload.len() {
                    let acts = self.handle_message(message, peer_addr);
                    (true, acts)
                } else {
                    let acts = self.drop_peer(
                        peer_addr,
                        Some(
                            <String as vstd::string::StringExecFns>::from_str(
                                "Peer sent a message with mismatched length",
                            ),
                        ),
                    );
                    (false, acts)
                }
            },
            None => {
                let acts = self.drop_peer(
                    peer_addr,
                    Some(
                        <String as vstd::string::StringExecFns>::from_str(
                            "Failed to deserialize peer message",
                        ),
                    ),
                );
                (false, acts)
            },
        }
    }
}

} // verus!


