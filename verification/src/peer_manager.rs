//! The peer session engine's state: the registry of live peers, the table of
//! file transfers, and the running flag.
//!
//! The engine is a state machine over plain values. Every operation mutates
//! the state and returns the list of [`Action`]s the surrounding runtime must
//! perform: messages to enqueue on a peer's outbox, notifications to the user
//! interface, sessions to close, and I/O to start. The runtime performs the
//! I/O and feeds results back through further engine calls.

use vstd::prelude::*;
use vstd::assert_seqs_equal;

use crate::address::{PeerAddress, format_ip, spec_ip_text};
use crate::backend_event::{BackendEvent, BackendEventView, ConnectionCloseOrBroken,
    ConnectionCloseOrBrokenView, ConnectionInfoView};
use crate::protocol::{Message, opt_string_view};

verus! {

/// What is known of a peer's identity.
#[derive(Debug, Clone, PartialEq, Eq)]
pub struct PeerInfo {
    pub name: String,
    pub backend_version: String,
}

pub struct PeerInfoView {
    pub name: Seq<char>,
    pub backend_version: Seq<char>,
}

impl View for PeerInfo {
    type V = PeerInfoView;

    open spec fn view(&self) -> PeerInfoView {
        PeerInfoView { name: self.name@, backend_version: self.backend_version@ }
    }
}

impl From<crate::protocol::ConnectionInfo> for PeerInfo {
    fn from(info: crate::protocol::ConnectionInfo) -> (r: PeerInfo) {
        PeerInfo { name: info.name, backend_version: info.backend_version }
    }
}

impl vstd::std_specs::convert::FromSpecImpl<crate::protocol::ConnectionInfo> for PeerInfo {
    open spec fn obeys_from_spec() -> bool {
        true
    }

    open spec fn from_spec(info: crate::protocol::ConnectionInfo) -> PeerInfo {
        PeerInfo { name: info.name, backend_version: info.backend_version }
    }
}

/// Lifecycle state of one peer session.
#[derive(Debug, Clone, PartialEq, Eq)]
pub enum PeerState {
    /// TCP established, not yet authenticated; identity present once the
    /// peer's connect request arrived.
    Connected { peer_info: Option<PeerInfo> },
    /// Connect request exchange completed and accepted by the user.
    Authenticated { peer_info: PeerInfo },
    /// A disconnect was requested; awaiting teardown.
    Disconnecting { reason: Option<String>, peer_info: PeerInfo },
}

pub enum PeerStateView {
    Connected { peer_info: Option<PeerInfoView> },
    Authenticated { peer_info: PeerInfoView },
    Disconnecting { reason: Option<Seq<char>>, peer_info: PeerInfoView },
}

pub open spec fn opt_peer_info_view(o: Option<PeerInfo>) -> Option<PeerInfoView> {
    match o {
        Some(p) => Some(p@),
        None => None,
    }
}

impl View for PeerState {
    type V = PeerStateView;

    open spec fn view(&self) -> PeerStateView {
        match self {
            PeerState::Connected { peer_info } => PeerStateView::Connected {
                peer_info: opt_peer_info_view(*peer_info),
            },
            PeerState::Authenticated { peer_info } => PeerStateView::Authenticated {
                peer_info: peer_info@,
            },
            PeerState::Disconnecting { reason, peer_info } => PeerStateView::Disconnecting {
                reason: opt_string_view(*reason),
                peer_info: peer_info@,
            },
        }
    }
}

/// One live session in the registry.
#[derive(Debug, Clone, PartialEq, Eq)]
pub struct Peer {
    pub addr: PeerAddress,
    pub state: PeerState,
}

pub struct PeerView {
    pub addr: PeerAddress,
    pub state: PeerStateView,
}

impl View for Peer {
    type V = PeerView;

    open spec fn view(&self) -> PeerView {
        PeerView { addr: self.addr, state: self.state@ }
    }
}

/// Whether a transfer sends a local file or receives a remote one.
#[derive(Debug, Clone, PartialEq, Eq)]
pub enum FileTransferDirection {
    Sending { file_path: String },
    Receiving,
}

pub enum FileTransferDirectionView {
    Sending { file_path: Seq<char> },
    Receiving,
}

impl View for FileTransferDirection {
    type V = FileTransferDirectionView;

    open spec fn view(&self) -> FileTransferDirectionView {
        match self {
            FileTransferDirection::Sending { file_path } => FileTransferDirectionView::Sending {
                file_path: file_path@,
            },
            FileTransferDirection::Receiving => FileTransferDirectionView::Receiving,
        }
    }
}

/// Status of one transfer. The file handle itself lives with the runtime,
/// keyed by the transfer id; the engine tracks only the status.
#[derive(Debug, Clone, PartialEq, Eq)]
pub enum FileTransferStatus {
    WaitingForPeerResponse,
    InProgress,
    Completed,
    Cancelled,
    Rejected,
    Error(String),
}

pub enum FileTransferStatusView {
    WaitingForPeerResponse,
    InProgress,
    Completed,
    Cancelled,
    Rejected,
    Error(Seq<char>),
}

impl View for FileTransferStatus {
    type V = FileTransferStatusView;

    open spec fn view(&self) -> FileTransferStatusView {
        match self {
            FileTransferStatus::WaitingForPeerResponse => FileTransferStatusView::WaitingForPeerResponse,
            FileTransferStatus::InProgress => FileTransferStatusView::InProgress,
            FileTransferStatus::Completed => FileTransferStatusView::Completed,
            FileTransferStatus::Cancelled => FileTransferStatusView::Cancelled,
            FileTransferStatus::Rejected => FileTransferStatusView::Rejected,
            FileTransferStatus::Error(e) => FileTransferStatusView::Error(e@),
        }
    }
}

/// Bookkeeping for one file transfer. `checksum` is the running sum checksum
/// of the bytes moved so far.
#[derive(Debug, Clone, PartialEq, Eq)]
pub struct FileTransferState {
    pub unique_id: u128,
    pub peer_addr: PeerAddress,
    pub direction: FileTransferDirection,
    pub filename: String,
    pub total_size: u64,
    pub bytes_transferred: u64,
    pub chunk_len: u64,
    pub status: FileTransferStatus,
    pub checksum: u64,
}

pub struct FileTransferStateView {
    pub unique_id: u128,
    pub peer_addr: PeerAddress,
    pub direction: FileTransferDirectionView,
    pub filename: Seq<char>,
    pub total_size: u64,
    pub bytes_transferred: u64,
    pub chunk_len: u64,
    pub status: FileTransferStatusView,
    pub checksum: u64,
}

impl View for FileTransferState {
    type V = FileTransferStateView;

    open spec fn view(&self) -> FileTransferStateView {
        FileTransferStateView {
            unique_id: self.unique_id,
            peer_addr: self.peer_addr,
            direction: self.direction@,
            filename: self.filename@,
            total_size: self.total_size,
            bytes_transferred: self.bytes_transferred,
            chunk_len: self.chunk_len,
            status: self.status@,
            checksum: self.checksum,
        }
    }
}

/// What the runtime must do after an engine step.
#[derive(Debug, Clone, PartialEq, Eq)]
pub enum Action {
    /// Enqueue a message on this peer's outbox.
    SendPeer { addr: PeerAddress, message: Message },
    /// Enqueue this final message on the peer's outbox, then report the
    /// outcome through `drop_peer`: with no override message on success,
    /// with the send error's text on failure.
    SendPeerThenDrop { addr: PeerAddress, message: Message },
    /// Deliver a notification to the user interface.
    Notify { event: BackendEvent },
    /// Open a TCP connection to this address, then register it with
    /// `handle_connection` and report back through `connect_poll`.
    OpenConnection { addr: PeerAddress },
    /// Drop this peer's outbox handle, ending its writer task.
    CloseSession { addr: PeerAddress },
    /// Wait the keep-alive delay, then call `handle_keep_alive`.
    ScheduleKeepAlive { addr: PeerAddress },
    /// Bind a TCP listener, then report through `listener_bound` or
    /// `listener_failed`.
    BindListener { bind_addr: String },
    /// Open this source file, read its size, and report through
    /// `transmit_file_with_size` or `transmit_file_failed`.
    PrepareFileSend { path: String, filename: String, addr: PeerAddress },
    /// Open this source file for reading and report through
    /// `transfer_file_opened` or `transfer_file_open_failed`.
    OpenFileSource { unique_id: u128, path: String },
    /// Create this target file for writing and report through
    /// `transfer_file_opened` or `transfer_file_open_failed`.
    CreateFileTarget { unique_id: u128, filename: String },
    /// Read the chunk's bytes from the source file and hand them to
    /// `send_chunk_data`.
    ReadFileChunk { unique_id: u128, chunk_id: u64, offset: u64, len: u64 },
    /// Append these bytes to the transfer's target file.
    WriteFileChunk { unique_id: u128, data: Vec<u8> },
}

pub enum ActionView {
    SendPeer { addr: PeerAddress, message: crate::protocol::MessageView },
    SendPeerThenDrop { addr: PeerAddress, message: crate::protocol::MessageView },
    Notify { event: BackendEventView },
    OpenConnection { addr: PeerAddress },
    CloseSession { addr: PeerAddress },
    ScheduleKeepAlive { addr: PeerAddress },
    BindListener { bind_addr: Seq<char> },
    PrepareFileSend { path: Seq<char>, filename: Seq<char>, addr: PeerAddress },
    OpenFileSource { unique_id: u128, path: Seq<char> },
    CreateFileTarget { unique_id: u128, filename: Seq<char> },
    ReadFileChunk { unique_id: u128, chunk_id: u64, offset: u64, len: u64 },
    WriteFileChunk { unique_id: u128, data: Seq<u8> },
}

impl View for Action {
    type V = ActionView;

    open spec fn view(&self) -> ActionView {
        match self {
            Action::SendPeer { addr, message } => ActionView::SendPeer {
                addr: *addr,
                message: message@,
            },
            Action::SendPeerThenDrop { addr, message } => ActionView::SendPeerThenDrop {
                addr: *addr,
                message: message@,
            },
            Action::Notify { event } => ActionView::Notify { event: event@ },
            Action::OpenConnection { addr } => ActionView::OpenConnection { addr: *addr },
            Action::CloseSession { addr } => ActionView::CloseSession { addr: *addr },
            Action::ScheduleKeepAlive { addr } => ActionView::ScheduleKeepAlive { addr: *addr },
            Action::BindListener { bind_addr } => ActionView::BindListener {
                bind_addr: bind_addr@,
            },
            Action::PrepareFileSend { path, filename, addr } => ActionView::PrepareFileSend {
                path: path@,
                filename: filename@,
                addr: *addr,
            },
            Action::OpenFileSource { unique_id, path } => ActionView::OpenFileSource {
                unique_id: *unique_id,
                path: path@,
            },
            Action::CreateFileTarget { unique_id, filename } => ActionView::CreateFileTarget {
                unique_id: *unique_id,
                filename: filename@,
            },
            Action::ReadFileChunk { unique_id, chunk_id, offset, len } => ActionView::ReadFileChunk {
                unique_id: *unique_id,
                chunk_id: *chunk_id,
                offset: *offset,
                len: *len,
            },
            Action::WriteFileChunk { unique_id, data } => ActionView::WriteFileChunk {
                unique_id: *unique_id,
                data: data@,
            },
        }
    }
}

// ---------------------------------------------------------------------------
// Registry model
// ---------------------------------------------------------------------------

pub open spec fn has_peer(s: Seq<Peer>, a: PeerAddress) -> bool {
    exists|i: int| 0 <= i < s.len() && s[i].addr == a
}

pub open spec fn peer_at(s: Seq<Peer>, a: PeerAddress) -> int {
    choose|i: int| 0 <= i < s.len() && s[i].addr == a
}

pub open spec fn peer_state(s: Seq<Peer>, a: PeerAddress) -> PeerStateView
    recommends
        has_peer(s, a),
{
    s[peer_at(s, a)].state@
}

pub open spec fn peers_unique(s: Seq<Peer>) -> bool {
    forall|i: int, j: int| 0 <= i < j < s.len() ==> s[i].addr != s[j].addr
}

pub open spec fn has_transfer(s: Seq<FileTransferState>, id: u128) -> bool {
    exists|i: int| 0 <= i < s.len() && s[i].unique_id == id
}

pub open spec fn transfer_at(s: Seq<FileTransferState>, id: u128) -> int {
    choose|i: int| 0 <= i < s.len() && s[i].unique_id == id
}

pub open spec fn transfer_state(s: Seq<FileTransferState>, id: u128) -> FileTransferStateView
    recommends
        has_transfer(s, id),
{
    s[transfer_at(s, id)]@
}

pub open spec fn transfers_unique(s: Seq<FileTransferState>) -> bool {
    forall|i: int, j: int| 0 <= i < j < s.len() ==> s[i].unique_id != s[j].unique_id
}

/// Every transfer record respects its size bound.
pub open spec fn transfers_bounded(s: Seq<FileTransferState>) -> bool {
    forall|i: int| 0 <= i < s.len() ==> #[trigger] s[i].bytes_transferred <= s[i].total_size
}

/// The peer session engine: the registry of peers, the transfer table, and
/// whether the listener is running.
#[derive(Debug)]
pub struct PeerManager {
    pub active_peers: Vec<Peer>,
    pub active_transfers: Vec<FileTransferState>,
    pub running: bool,
}

impl PeerManager {
    /// Engine state well-formedness: addresses and transfer ids are unique
    /// keys, and no transfer has moved more bytes than its total size.
    pub open spec fn wf(self) -> bool {
        &&& peers_unique(self.active_peers@)
        &&& transfers_unique(self.active_transfers@)
        &&& transfers_bounded(self.active_transfers@)
    }

    /// A fresh engine: no peers, no transfers, stopped.
    pub fn new() -> (r: PeerManager)
        ensures
            r.wf(),
            r.active_peers@.len() == 0,
            r.active_transfers@.len() == 0,
            !r.running,
    {
        PeerManager { active_peers: Vec::new(), active_transfers: Vec::new(), running: false }
    }

    /// Whether the listener is running (the shutdown slot is occupied).
    pub fn is_running(&self) -> (r: bool)
        ensures
            r == self.running,
    {
        self.running
    }
}

// ---------------------------------------------------------------------------
// Association-list lemmas
// ---------------------------------------------------------------------------

pub proof fn lemma_peer_remove(s: Seq<Peer>, i: int)
    requires
        peers_unique(s),
        0 <= i < s.len(),
    ensures
        peers_unique(s.remove(i)),
        !has_peer(s.remove(i), s[i].addr),
        forall|a: PeerAddress| a != s[i].addr ==> has_peer(s.remove(i), a) == has_peer(s, a),
        forall|a: PeerAddress| a != s[i].addr && has_peer(s, a) ==> peer_state(s.remove(i), a)
            == peer_state(s, a),
{
    let t = s.remove(i);
    assert forall|a: PeerAddress| a != s[i].addr && has_peer(s, a) implies has_peer(t, a)
        && peer_state(t, a) == peer_state(s, a) by {
        let j = peer_at(s, a);
        let j2: int = if j < i {
            j
        } else {
            j - 1
        };
        assert(t[j2].addr == a);
        assert(has_peer(t, a));
        let k = peer_at(t, a);
        assert(t[k].addr == a);
        let korig: int = if k < i {
            k
        } else {
            k + 1
        };
        assert(s[korig].addr == a);
        assert(korig == j);
    }
    assert forall|a: PeerAddress| has_peer(t, a) implies a == s[i].addr || has_peer(s, a) by {
        let k = peer_at(t, a);
        let korig: int = if k < i {
            k
        } else {
            k + 1
        };
        assert(s[korig].addr == a);
    }
    assert(!has_peer(t, s[i].addr)) by {
        if has_peer(t, s[i].addr) {
            let k = peer_at(t, s[i].addr);
            let korig: int = if k < i {
                k
            } else {
                k + 1
            };
            assert(s[korig].addr == s[i].addr);
            assert(korig != i);
        }
    }
}

pub proof fn lemma_peer_update(s: Seq<Peer>, i: int, p: Peer)
    requires
        peers_unique(s),
        0 <= i < s.len(),
        p.addr == s[i].addr,
    ensures
        peers_unique(s.update(i, p)),
        forall|a: PeerAddress| has_peer(s.update(i, p), a) == has_peer(s, a),
        has_peer(s, p.addr) ==> peer_state(s.update(i, p), p.addr) == p.state@,
        forall|a: PeerAddress| a != p.addr && has_peer(s, a) ==> peer_state(s.update(i, p), a)
            == peer_state(s, a),
{
    let t = s.update(i, p);
    assert forall|a: PeerAddress| has_peer(t, a) == has_peer(s, a) by {
        if has_peer(s, a) {
            let j = peer_at(s, a);
            assert(t[j].addr == a);
        }
        if has_peer(t, a) {
            let j = peer_at(t, a);
            assert(s[j].addr == a);
        }
    }
    assert(has_peer(s, p.addr) ==> peer_state(t, p.addr) == p.state@) by {
        if has_peer(s, p.addr) {
            let k = peer_at(t, p.addr);
            assert(t[k].addr == p.addr);
            if k != i {
                assert(s[k].addr == p.addr && s[i].addr == p.addr);
            }
        }
    }
    assert forall|a: PeerAddress| a != p.addr && has_peer(s, a) implies peer_state(t, a)
        == peer_state(s, a) by {
        let j = peer_at(s, a);
        assert(j != i);
        assert(t[j].addr == a);
        let k = peer_at(t, a);
        assert(t[k].addr == a);
        if k != j {
            if k == i {
                assert(t[i].addr == p.addr);
            } else {
                assert(s[k].addr == a);
            }
        }
    }
}

pub proof fn lemma_peer_push(s: Seq<Peer>, p: Peer)
    requires
        peers_unique(s),
        !has_peer(s, p.addr),
    ensures
        peers_unique(s.push(p)),
        has_peer(s.push(p), p.addr),
        peer_state(s.push(p), p.addr) == p.state@,
        forall|a: PeerAddress| a != p.addr ==> has_peer(s.push(p), a) == has_peer(s, a),
        forall|a: PeerAddress| a != p.addr && has_peer(s, a) ==> peer_state(s.push(p), a)
            == peer_state(s, a),
{
    let t = s.push(p);
    assert(t[s.len() as int].addr == p.addr);
    assert(peers_unique(t)) by {
        assert forall|i: int, j: int| 0 <= i < j < t.len() implies t[i].addr != t[j].addr by {
            if j == s.len() as int {
                assert(t[i].addr == s[i].addr);
                if t[i].addr == p.addr {
                    assert(has_peer(s, p.addr));
                }
            }
        }
    }
    assert(peer_state(t, p.addr) == p.state@) by {
        let k = peer_at(t, p.addr);
        assert(t[k].addr == p.addr);
        if k != s.len() as int {
            assert(s[k].addr == p.addr);
        }
    }
    assert forall|a: PeerAddress| a != p.addr && has_peer(s, a) implies has_peer(t, a)
        && peer_state(t, a) == peer_state(s, a) by {
        let j = peer_at(s, a);
        assert(t[j].addr == a);
        let k = peer_at(t, a);
        assert(t[k].addr == a);
        if k != j {
            if k == s.len() as int {
            } else {
                assert(s[k].addr == a);
            }
        }
    }
    assert forall|a: PeerAddress| a != p.addr && has_peer(t, a) implies has_peer(s, a) by {
        let k = peer_at(t, a);
        assert(t[k].addr == a);
        assert(k != s.len() as int);
        assert(s[k].addr == a);
    }
}

pub proof fn lemma_transfer_update(s: Seq<FileTransferState>, i: int, p: FileTransferState)
    requires
        transfers_unique(s),
        0 <= i < s.len(),
        p.unique_id == s[i].unique_id,
    ensures
        transfers_unique(s.update(i, p)),
        forall|id: u128| has_transfer(s.update(i, p), id) == has_transfer(s, id),
        has_transfer(s, p.unique_id) ==> transfer_state(s.update(i, p), p.unique_id) == p@,
        forall|id: u128| id != p.unique_id && has_transfer(s, id) ==> transfer_state(
            s.update(i, p),
            id,
        ) == transfer_state(s, id),
{
    let t = s.update(i, p);
    assert forall|id: u128| has_transfer(t, id) == has_transfer(s, id) by {
        if has_transfer(s, id) {
            let j = transfer_at(s, id);
            assert(t[j].unique_id == id);
        }
        if has_transfer(t, id) {
            let j = transfer_at(t, id);
            assert(s[j].unique_id == id);
        }
    }
    assert(has_transfer(s, p.unique_id) ==> transfer_state(t, p.unique_id) == p@) by {
        if has_transfer(s, p.unique_id) {
            let k = transfer_at(t, p.unique_id);
            assert(t[k].unique_id == p.unique_id);
            if k != i {
                assert(s[k].unique_id == p.unique_id && s[i].unique_id == p.unique_id);
            }
        }
    }
    assert forall|id: u128| id != p.unique_id && has_transfer(s, id) implies transfer_state(t, id)
        == transfer_state(s, id) by {
        let j = transfer_at(s, id);
        assert(j != i);
        assert(t[j].unique_id == id);
        let k = transfer_at(t, id);
        assert(t[k].unique_id == id);
        if k != j {
            if k == i {
                assert(t[i].unique_id == p.unique_id);
            } else {
                assert(s[k].unique_id == id);
            }
        }
    }
}

pub proof fn lemma_transfer_push(s: Seq<FileTransferState>, p: FileTransferState)
    requires
        transfers_unique(s),
        !has_transfer(s, p.unique_id),
    ensures
        transfers_unique(s.push(p)),
        has_transfer(s.push(p), p.unique_id),
        transfer_state(s.push(p), p.unique_id) == p@,
        forall|id: u128| id != p.unique_id ==> has_transfer(s.push(p), id) == has_transfer(s, id),
        forall|id: u128| id != p.unique_id && has_transfer(s, id) ==> transfer_state(
            s.push(p),
            id,
        ) == transfer_state(s, id),
{
    let t = s.push(p);
    assert(t[s.len() as int].unique_id == p.unique_id);
    assert(transfers_unique(t)) by {
        assert forall|i: int, j: int| 0 <= i < j < t.len() implies t[i].unique_id
            != t[j].unique_id by {
            if j == s.len() as int {
                assert(t[i].unique_id == s[i].unique_id);
                if t[i].unique_id == p.unique_id {
                    assert(has_transfer(s, p.unique_id));
                }
            }
        }
    }
    assert(transfer_state(t, p.unique_id) == p@) by {
        let k = transfer_at(t, p.unique_id);
        assert(t[k].unique_id == p.unique_id);
        if k != s.len() as int {
            assert(s[k].unique_id == p.unique_id);
        }
    }
    assert forall|id: u128| id != p.unique_id && has_transfer(s, id) implies has_transfer(t, id)
        && transfer_state(t, id) == transfer_state(s, id) by {
        let j = transfer_at(s, id);
        assert(t[j].unique_id == id);
        let k = transfer_at(t, id);
        assert(t[k].unique_id == id);
        if k != j && k != s.len() as int {
            assert(s[k].unique_id == id);
        }
    }
    assert forall|id: u128| id != p.unique_id && has_transfer(t, id) implies has_transfer(
        s,
        id,
    ) by {
        let k = transfer_at(t, id);
        assert(t[k].unique_id == id);
        assert(k != s.len() as int);
        assert(s[k].unique_id == id);
    }
}

pub proof fn lemma_transfer_remove(s: Seq<FileTransferState>, i: int)
    requires
        transfers_unique(s),
        0 <= i < s.len(),
    ensures
        transfers_unique(s.remove(i)),
        !has_transfer(s.remove(i), s[i].unique_id),
        forall|id: u128| id != s[i].unique_id ==> has_transfer(s.remove(i), id) == has_transfer(
            s,
            id,
        ),
        forall|id: u128| id != s[i].unique_id && has_transfer(s, id) ==> transfer_state(
            s.remove(i),
            id,
        ) == transfer_state(s, id),
{
    let t = s.remove(i);
    assert forall|id: u128| id != s[i].unique_id && has_transfer(s, id) implies has_transfer(t, id)
        && transfer_state(t, id) == transfer_state(s, id) by {
        let j = transfer_at(s, id);
        let j2: int = if j < i {
            j
        } else {
            j - 1
        };
        assert(t[j2].unique_id == id);
        let k = transfer_at(t, id);
        assert(t[k].unique_id == id);
        let korig: int = if k < i {
            k
        } else {
            k + 1
        };
        assert(s[korig].unique_id == id);
        assert(korig == j);
    }
    assert forall|id: u128| has_transfer(t, id) implies id == s[i].unique_id || has_transfer(
        s,
        id,
    ) by {
        let k = transfer_at(t, id);
        let korig: int = if k < i {
            k
        } else {
            k + 1
        };
        assert(s[korig].unique_id == id);
    }
    assert(!has_transfer(t, s[i].unique_id)) by {
        if has_transfer(t, s[i].unique_id) {
            let k = transfer_at(t, s[i].unique_id);
            let korig: int = if k < i {
                k
            } else {
                k + 1
            };
            assert(s[korig].unique_id == s[i].unique_id);
            assert(korig != i);
        }
    }
}


pub proof fn lemma_peer_at(s: Seq<Peer>, i: int)
    requires
        peers_unique(s),
        0 <= i < s.len(),
    ensures
        has_peer(s, s[i].addr),
        peer_at(s, s[i].addr) == i,
        peer_state(s, s[i].addr) == s[i].state@,
{
    assert(has_peer(s, s[i].addr)) by {
        assert(0 <= i < s.len() && s[i].addr == s[i].addr);
    }
    let j = peer_at(s, s[i].addr);
    if j != i {
        assert(s[j].addr == s[i].addr);
    }
}

pub proof fn lemma_transfer_at(s: Seq<FileTransferState>, i: int)
    requires
        transfers_unique(s),
        0 <= i < s.len(),
    ensures
        has_transfer(s, s[i].unique_id),
        transfer_at(s, s[i].unique_id) == i,
        transfer_state(s, s[i].unique_id) == s[i]@,
{
    assert(has_transfer(s, s[i].unique_id)) by {
        assert(0 <= i < s.len() && s[i].unique_id == s[i].unique_id);
    }
    let j = transfer_at(s, s[i].unique_id);
    if j != i {
        assert(s[j].unique_id == s[i].unique_id);
    }
}

// ---------------------------------------------------------------------------
// Lookups
// ---------------------------------------------------------------------------

pub(crate) fn find_peer_idx(peers: &Vec<Peer>, addr: &PeerAddress) -> (r: Option<usize>)
    ensures
        match r {
            Some(i) => i < peers@.len() && peers@[i as int].addr == *addr && has_peer(
                peers@,
                *addr,
            ),
            None => !has_peer(peers@, *addr),
        },
{
    let mut i: usize = 0;
    while i < peers.len()
        invariant
            i <= peers@.len(),
            forall|j: int| 0 <= j < i ==> peers@[j].addr != *addr,
        decreases peers@.len() - i,
    {
        if peers[i].addr == *addr {
            return Some(i);
        }
        i = i + 1;
    }
    None
}

pub(crate) fn find_transfer_idx(transfers: &Vec<FileTransferState>, id: u128) -> (r: Option<
    usize,
>)
    ensures
        match r {
            Some(i) => i < transfers@.len() && transfers@[i as int].unique_id == id && has_transfer(
                transfers@,
                id,
            ),
            None => !has_transfer(transfers@, id),
        },
{
    let mut i: usize = 0;
    while i < transfers.len()
        invariant
            i <= transfers@.len(),
            forall|j: int| 0 <= j < i ==> transfers@[j].unique_id != id,
        decreases transfers@.len() - i,
    {
        if transfers[i].unique_id == id {
            return Some(i);
        }
        i = i + 1;
    }
    None
}

// ---------------------------------------------------------------------------
// Dropping a peer
// ---------------------------------------------------------------------------

/// The identity block shown to the user for a peer, with the reserved
/// identity string empty.
pub open spec fn conn_info_of(info: PeerInfoView, ip: Seq<char>) -> ConnectionInfoView {
    ConnectionInfoView {
        name: info.name,
        ip,
        backend_version: info.backend_version,
        identitiy: Seq::empty(),
    }
}

/// The at-most-one notification a peer's removal emits: `ConnectionBroken`
/// for an authenticated peer, `ConnectionClose` for a disconnecting one
/// (the override message wins over the stored reason), none for a peer that
/// was never fully admitted.
pub open spec fn drop_peer_event(
    state: PeerStateView,
    addr: PeerAddress,
    message: Option<Seq<char>>,
) -> Option<BackendEventView> {
    match state {
        PeerStateView::Connected { .. } => None,
        PeerStateView::Authenticated { peer_info } => Some(
            BackendEventView::ConnectionBroken(
                ConnectionCloseOrBrokenView {
                    connection_info: conn_info_of(peer_info, spec_ip_text(addr.ip)),
                    message,
                },
            ),
        ),
        PeerStateView::Disconnecting { peer_info, reason } => Some(
            BackendEventView::ConnectionClose(
                ConnectionCloseOrBrokenView {
                    connection_info: conn_info_of(peer_info, spec_ip_text(addr.ip)),
                    message: if message is Some {
                        message
                    } else {
                        reason
                    },
                },
            ),
        ),
    }
}

/// The registry after dropping `a`: unchanged if absent, else with `a`'s
/// entry removed.
pub open spec fn drop_peer_spec_peers(s: Seq<Peer>, a: PeerAddress) -> Seq<Peer> {
    if has_peer(s, a) {
        s.remove(peer_at(s, a))
    } else {
        s
    }
}

/// The notification dropping `a` emits, if any.
pub open spec fn drop_peer_spec_event(
    s: Seq<Peer>,
    a: PeerAddress,
    message: Option<Seq<char>>,
) -> Option<BackendEventView> {
    if has_peer(s, a) {
        drop_peer_event(peer_state(s, a), a, message)
    } else {
        None
    }
}

/// Exactly-once removal: once a peer has been dropped, dropping the same
/// address again can never emit a notification. Together with
/// [`PeerManager::drop_peer`]'s contract this bounds the notifications for
/// one address over a session's lifetime to at most one.
pub proof fn lemma_drop_peer_at_most_once(
    s: Seq<Peer>,
    a: PeerAddress,
    m1: Option<Seq<char>>,
    m2: Option<Seq<char>>,
)
    requires
        peers_unique(s),
    ensures
        drop_peer_spec_event(drop_peer_spec_peers(s, a), a, m2) is None,
{
    if has_peer(s, a) {
        let i = peer_at(s, a);
        lemma_peer_remove(s, i);
    }
}

/// Registry states: a peer is always in one of the three lifecycle states,
/// and an authenticated or disconnecting peer always carries its identity.
pub open spec fn peer_info_of(s: PeerStateView) -> Option<PeerInfoView> {
    match s {
        PeerStateView::Connected { peer_info } => peer_info,
        PeerStateView::Authenticated { peer_info } => Some(peer_info),
        PeerStateView::Disconnecting { peer_info, .. } => Some(peer_info),
    }
}

pub proof fn lemma_peer_state_cases(s: PeerStateView)
    ensures
        s is Connected || s is Authenticated || s is Disconnecting,
        s is Authenticated || s is Disconnecting ==> peer_info_of(s) is Some,
{
}

/// Every transfer record in a well-formed engine respects its size bound.
pub proof fn lemma_transfer_bytes_bounded(pm: PeerManager, id: u128)
    requires
        pm.wf(),
        has_transfer(pm.active_transfers@, id),
    ensures
        transfer_state(pm.active_transfers@, id).bytes_transferred <= transfer_state(
            pm.active_transfers@,
            id,
        ).total_size,
{
    let i = transfer_at(pm.active_transfers@, id);
    assert(pm.active_transfers@[i].bytes_transferred <= pm.active_transfers@[i].total_size);
}

impl PeerInfo {
    /// The identity block shown to the user, with the given address's IP as
    /// its text.
    pub fn into_connection_info(&self, peer_addr: PeerAddress) -> (r:
        crate::backend_event::ConnectionInfo)
        ensures
            r@ == conn_info_of(self@, spec_ip_text(peer_addr.ip)),
    {
        crate::backend_event::ConnectionInfo {
            name: self.name.clone(),
            ip: format_ip(&peer_addr.ip),
            backend_version: self.backend_version.clone(),
            identitiy: String::new(),
        }
    }
}

/// Copy a transfer direction.
pub(crate) fn clone_direction(d: &FileTransferDirection) -> (r: FileTransferDirection)
    ensures
        r == *d,
{
    match d {
        FileTransferDirection::Sending { file_path } => FileTransferDirection::Sending {
            file_path: file_path.clone(),
        },
        FileTransferDirection::Receiving => FileTransferDirection::Receiving,
    }
}

/// Copy a transfer status.
pub(crate) fn clone_status(s: &FileTransferStatus) -> (r: FileTransferStatus)
    ensures
        r == *s,
{
    match s {
        FileTransferStatus::WaitingForPeerResponse => FileTransferStatus::WaitingForPeerResponse,
        FileTransferStatus::InProgress => FileTransferStatus::InProgress,
        FileTransferStatus::Completed => FileTransferStatus::Completed,
        FileTransferStatus::Cancelled => FileTransferStatus::Cancelled,
        FileTransferStatus::Rejected => FileTransferStatus::Rejected,
        FileTransferStatus::Error(e) => FileTransferStatus::Error(e.clone()),
    }
}

/// Copy a transfer record.
pub(crate) fn clone_transfer(t: &FileTransferState) -> (r: FileTransferState)
    ensures
        r == *t,
{
    FileTransferState {
        unique_id: t.unique_id,
        peer_addr: t.peer_addr,
        direction: clone_direction(&t.direction),
        filename: t.filename.clone(),
        total_size: t.total_size,
        bytes_transferred: t.bytes_transferred,
        chunk_len: t.chunk_len,
        status: clone_status(&t.status),
        checksum: t.checksum,
    }
}

/// The transfer table after a peer's removal: exactly the records of other
/// peers survive, unchanged.
pub open spec fn transfers_dropped_for(
    old_s: Seq<FileTransferState>,
    new_s: Seq<FileTransferState>,
    a: PeerAddress,
) -> bool {
    &&& forall|id: u128| has_transfer(new_s, id) <==> (has_transfer(old_s, id) && transfer_state(
        old_s,
        id,
    ).peer_addr != a)
    &&& forall|id: u128| has_transfer(new_s, id) ==> transfer_state(new_s, id) == transfer_state(
        old_s,
        id,
    )
}

/// The records that survive a peer's removal: those of other peers.
pub open spec fn keeps_other_peers(a: PeerAddress) -> spec_fn(FileTransferState) -> bool {
    |t: FileTransferState| t.peer_addr != a
}

/// Filtering a well-formed transfer table by peer keeps it well-formed and
/// realises [`transfers_dropped_for`].
proof fn lemma_transfers_filter(s: Seq<FileTransferState>, a: PeerAddress)
    requires
        transfers_unique(s),
        transfers_bounded(s),
    ensures
        transfers_unique(s.filter(keeps_other_peers(a))),
        transfers_bounded(s.filter(keeps_other_peers(a))),
        transfers_dropped_for(s, s.filter(keeps_other_peers(a)), a),
    decreases s.len(),
{
    reveal(Seq::filter);
    let pred = keeps_other_peers(a);
    let f = s.filter(pred);
    if s.len() == 0 {
        assert(forall|id: u128| !has_transfer(s, id));
        assert(forall|id: u128| !has_transfer(f, id));
    } else {
        let s1 = s.drop_last();
        let x = s.last();
        assert(transfers_unique(s1)) by {
            assert(forall|i: int| 0 <= i < s1.len() ==> s1[i] == s[i]);
        }
        assert(transfers_bounded(s1)) by {
            assert(forall|i: int| 0 <= i < s1.len() ==> #[trigger] s1[i].bytes_transferred
                == s[i].bytes_transferred && s1[i].total_size == s[i].total_size);
        }
        lemma_transfers_filter(s1, a);
        let f1 = s1.filter(pred);
        assert(!has_transfer(s1, x.unique_id)) by {
            if has_transfer(s1, x.unique_id) {
                let j = transfer_at(s1, x.unique_id);
                assert(s1[j].unique_id == x.unique_id);
                assert(s[j].unique_id == s[s.len() - 1].unique_id);
            }
        }
        lemma_transfer_push(s1, x);
        assert(s1.push(x) =~= s);
        if pred(x) {
            assert(f == f1.push(x));
            assert(!has_transfer(f1, x.unique_id)) by {
                if has_transfer(f1, x.unique_id) {
                    assert(has_transfer(s1, x.unique_id));
                }
            }
            lemma_transfer_push(f1, x);
            assert(transfers_bounded(f)) by {
                assert(x.bytes_transferred <= x.total_size) by {
                    assert(s[s.len() - 1].bytes_transferred <= s[s.len() - 1].total_size);
                }
                assert(forall|i: int| 0 <= i < f.len() ==> #[trigger] f[i].bytes_transferred
                    <= f[i].total_size) by {
                    assert(forall|i: int| 0 <= i < f1.len() ==> f[i] == f1[i]);
                    assert(f[f.len() - 1] == x);
                }
            }
            assert forall|id: u128| has_transfer(f, id) implies (has_transfer(s, id)
                && transfer_state(s, id).peer_addr != a) by {
                if id == x.unique_id {
                    assert(transfer_state(s, id) == x@);
                } else {
                    assert(has_transfer(f1, id));
                    assert(has_transfer(s1, id));
                    assert(transfer_state(s, id) == transfer_state(s1, id));
                }
            }
            assert forall|id: u128| (has_transfer(s, id) && transfer_state(s, id).peer_addr != a)
                implies has_transfer(f, id) by {
                if id != x.unique_id {
                    assert(has_transfer(s1, id));
                    assert(transfer_state(s1, id) == transfer_state(s, id));
                    assert(has_transfer(f1, id));
                }
            }
            assert forall|id: u128| has_transfer(f, id) implies transfer_state(f, id)
                == transfer_state(s, id) by {
                if id == x.unique_id {
                    assert(transfer_state(f, id) == x@);
                    assert(transfer_state(s, id) == x@);
                } else {
                    assert(has_transfer(f1, id));
                    assert(transfer_state(f, id) == transfer_state(f1, id));
                    assert(transfer_state(f1, id) == transfer_state(s1, id));
                    assert(transfer_state(s, id) == transfer_state(s1, id));
                }
            }
        } else {
            assert(f == f1);
            assert forall|id: u128| has_transfer(f, id) implies (has_transfer(s, id)
                && transfer_state(s, id).peer_addr != a && transfer_state(f, id)
                == transfer_state(s, id)) by {
                assert(has_transfer(s1, id));
                assert(id != x.unique_id);
                assert(transfer_state(s, id) == transfer_state(s1, id));
            }
            assert forall|id: u128| (has_transfer(s, id) && transfer_state(s, id).peer_addr != a)
                implies has_transfer(f, id) by {
                if id == x.unique_id {
                    assert(transfer_state(s, id) == x@);
                } else {
                    assert(has_transfer(s1, id));
                    assert(transfer_state(s1, id) == transfer_state(s, id));
                }
            }
        }
    }
}

impl PeerManager {
    /// Destroy every transfer record of this peer, as a peer's removal
    /// demands.
    fn remove_peer_transfers(&mut self, peer_addr: PeerAddress)
        requires
            old(self).wf(),
        ensures
            final(self).wf(),
            final(self).running == old(self).running,
            final(self).active_peers == old(self).active_peers,
            transfers_dropped_for(
                old(self).active_transfers@,
                final(self).active_transfers@,
                peer_addr,
            ),
    {
        let ghost orig = self.active_transfers@;
        let ghost pred = keeps_other_peers(peer_addr);
        let mut kept: Vec<FileTransferState> = Vec::new();
        let mut k: usize = 0;
        proof {
            reveal(Seq::filter);
            assert(kept@ =~= orig.subrange(0, 0).filter(pred));
        }
        while k < self.active_transfers.len()
            invariant
                self.active_transfers@ == orig,
                transfers_unique(orig),
                transfers_bounded(orig),
                k <= orig.len(),
                pred == keeps_other_peers(peer_addr),
                kept@ == orig.subrange(0, k as int).filter(pred),
            decreases orig.len() - k,
        {
            let ghost pre_sub = orig.subrange(0, k as int);
            let ghost post_sub = orig.subrange(0, k as int + 1);
            proof {
                assert(post_sub.drop_last() =~= pre_sub);
                assert(post_sub.last() == orig[k as int]);
            }
            if !(self.active_transfers[k].peer_addr == peer_addr) {
                let rec = clone_transfer(&self.active_transfers[k]);
                kept.push(rec);
                proof {
                    reveal(Seq::filter);
                    assert(pred(post_sub.last()));
                    assert(post_sub.filter(pred) == pre_sub.filter(pred).push(orig[k as int]));
                }
            } else {
                proof {
                    reveal(Seq::filter);
                    assert(!pred(post_sub.last()));
                    assert(post_sub.filter(pred) == pre_sub.filter(pred));
                }
            }
            k = k + 1;
        }
        proof {
            assert(orig.subrange(0, orig.len() as int) =~= orig);
            lemma_transfers_filter(orig, peer_addr);
        }
        self.active_transfers = kept;
    }
}

impl PeerManager {
    /// Remove a peer from the registry, destroy its transfer records, and
    /// say what must follow: the at-most-one upward notification per
    /// [`drop_peer_event`], then the session teardown. Dropping an absent
    /// address still destroys any records left under it.
    pub fn drop_peer(&mut self, peer_addr: PeerAddress, message: Option<String>) -> (r: Vec<
        Action,
    >)
        requires
            old(self).wf(),
        ensures
            final(self).wf(),
            final(self).running == old(self).running,
            transfers_dropped_for(
                old(self).active_transfers@,
                final(self).active_transfers@,
                peer_addr,
            ),
            final(self).active_peers@ == drop_peer_spec_peers(old(self).active_peers@, peer_addr),
            !has_peer(final(self).active_peers@, peer_addr),
            forall|a: PeerAddress| a != peer_addr ==> has_peer(final(self).active_peers@, a)
                == has_peer(old(self).active_peers@, a),
            forall|a: PeerAddress| a != peer_addr && has_peer(old(self).active_peers@, a)
                ==> peer_state(final(self).active_peers@, a) == peer_state(
                old(self).active_peers@,
                a,
            ),
            ({
                let ev = drop_peer_spec_event(
                    old(self).active_peers@,
                    peer_addr,
                    opt_string_view(message),
                );
                match ev {
                    Some(e) => r@.len() == 2 && (r@[0] matches Action::Notify { event }
                        && event@ == e) && (r@[1] matches Action::CloseSession { addr }
                        && addr == peer_addr),
                    None => if has_peer(old(self).active_peers@, peer_addr) {
                        r@.len() == 1 && (r@[0] matches Action::CloseSession { addr } && addr
                            == peer_addr)
                    } else {
                        r@.len() == 0
                    },
                }
            }),
    {
        self.remove_peer_transfers(peer_addr);
        let mut r: Vec<Action> = Vec::new();
        match find_peer_idx(&self.active_peers, &peer_addr) {
            None => r,
            Some(i) => {
                proof {
                    lemma_peer_at(self.active_peers@, i as int);
                    lemma_peer_remove(self.active_peers@, i as int);
                }
                let removed = self.active_peers.remove(i);
                match removed.state {
                    PeerState::Connected { .. } => {},
                    PeerState::Authenticated { peer_info } => {
                        let ci = peer_info.into_connection_info(peer_addr);
                        r.push(
                            Action::Notify {
                                event: BackendEvent::ConnectionBroken(
                                    ConnectionCloseOrBroken { connection_info: ci, message },
                                ),
                            },
                        );
                    },
                    PeerState::Disconnecting { reason, peer_info } => {
                        let ci = peer_info.into_connection_info(peer_addr);
                        let msg = match message {
                            Some(m) => Some(m),
                            None => reason,
                        };
                        r.push(
                            Action::Notify {
                                event: BackendEvent::ConnectionClose(
                                    ConnectionCloseOrBroken { connection_info: ci, message: msg },
                                ),
                            },
                        );
                    },
                }
                r.push(Action::CloseSession { addr: peer_addr });
                r
            },
        }
    }

    /// Register a fresh session in `Connected` state with no identity yet,
    /// as both the accept path and the outbound connect path do. An existing
    /// entry under the same address is replaced.
    pub fn handle_connection(&mut self, peer_addr: PeerAddress)
        requires
            old(self).wf(),
        ensures
            final(self).wf(),
            final(self).running == old(self).running,
            final(self).active_transfers == old(self).active_transfers,
            has_peer(final(self).active_peers@, peer_addr),
            peer_state(final(self).active_peers@, peer_addr) == (PeerStateView::Connected {
                peer_info: None::<PeerInfoView>,
            }),
            forall|a: PeerAddress| a != peer_addr ==> has_peer(final(self).active_peers@, a)
                == has_peer(old(self).active_peers@, a),
            forall|a: PeerAddress| a != peer_addr && has_peer(old(self).active_peers@, a)
                ==> peer_state(final(self).active_peers@, a) == peer_state(
                old(self).active_peers@,
                a,
            ),
    {
        let fresh = Peer { addr: peer_addr, state: PeerState::Connected { peer_info: None } };
        match find_peer_idx(&self.active_peers, &peer_addr) {
            Some(i) => {
                proof {
                    lemma_peer_update(self.active_peers@, i as int, fresh);
                }
                self.active_peers.set(i, fresh);
            },
            None => {
                proof {
                    lemma_peer_push(self.active_peers@, fresh);
                }
                self.active_peers.push(fresh);
            },
        }
    }

    /// Validate an outbound connection attempt: it is allowed only while the
    /// engine runs and the address is not already registered. The caller
    /// opens the TCP connection on `Ok`.
    pub fn connect(&self, peer_addr: PeerAddress) -> (r: Result<(), String>)
        ensures
            r is Ok <==> self.running && !has_peer(self.active_peers@, peer_addr),
            !self.running ==> (r matches Err(e) && e@ == "PeerManager is shut down"@),
            self.running && has_peer(self.active_peers@, peer_addr) ==> (r matches Err(e) && e@
                == "Already connected to peer"@),
    {
        if !self.running {
            return Err(<String as vstd::string::StringExecFns>::from_str("PeerManager is shut down"));
        }
        match find_peer_idx(&self.active_peers, &peer_addr) {
            Some(_) => Err(<String as vstd::string::StringExecFns>::from_str("Already connected to peer")),
            None => Ok(()),
        }
    }

    /// The keep-alive reply decision, taken after the reply delay: answer
    /// with a `KeepAlive` only if the peer is still registered.
    pub fn handle_keep_alive(&self, peer_addr: PeerAddress) -> (r: Vec<Action>)
        ensures
            has_peer(self.active_peers@, peer_addr) ==> r@.len() == 1 && (r@[0]
                matches Action::SendPeer { addr, message } && addr == peer_addr && message@
                == crate::protocol::MessageView::KeepAlive),
            !has_peer(self.active_peers@, peer_addr) ==> r@.len() == 0,
    {
        let mut r: Vec<Action> = Vec::new();
        match find_peer_idx(&self.active_peers, &peer_addr) {
            Some(_) => {
                r.push(Action::SendPeer { addr: peer_addr, message: Message::KeepAlive });
            },
            None => {},
        }
        r
    }
}


// ---------------------------------------------------------------------------
// Engine lifecycle
// ---------------------------------------------------------------------------

/// View of a list of actions.
pub open spec fn acts_view(s: Seq<Action>) -> Seq<ActionView> {
    s.map_values(|a: Action| a@)
}

/// The farewell sent to every peer during shutdown.
pub open spec fn shutdown_farewell() -> crate::protocol::MessageView {
    crate::protocol::MessageView::ImmediateConnectionClose(
        crate::protocol::DisconnectRequestView { message: Some("Peer is shutting down"@) },
    )
}

/// What tearing down one peer during shutdown must produce: the farewell,
/// the peer's drop notification if one is owed, and the session teardown.
pub open spec fn shutdown_peer_actions(p: Peer) -> Seq<ActionView> {
    seq![ActionView::SendPeer { addr: p.addr, message: shutdown_farewell() }] + (match drop_peer_event(
        p.state@,
        p.addr,
        None,
    ) {
        Some(e) => seq![
            ActionView::Notify { event: e },
            ActionView::CloseSession { addr: p.addr },
        ],
        None => seq![ActionView::CloseSession { addr: p.addr }],
    })
}

/// Shutdown's full action list, peer by peer in registry order.
pub open spec fn shutdown_actions(s: Seq<Peer>) -> Seq<ActionView>
    decreases s.len(),
{
    if s.len() == 0 {
        Seq::empty()
    } else {
        shutdown_peer_actions(s[0]) + shutdown_actions(s.drop_first())
    }
}

/// The transfer table after a full drain: exactly the records whose peer
/// was not in the registry survive, unchanged.
pub open spec fn transfers_after_shutdown(
    orig_t: Seq<FileTransferState>,
    orig_p: Seq<Peer>,
    now: Seq<FileTransferState>,
) -> bool {
    &&& forall|id: u128| has_transfer(now, id) <==> (has_transfer(orig_t, id) && !has_peer(
        orig_p,
        transfer_state(orig_t, id).peer_addr,
    ))
    &&& forall|id: u128| has_transfer(now, id) ==> transfer_state(now, id) == transfer_state(
        orig_t,
        id,
    )
}

impl PeerManager {
    /// Stop the engine: flip the running flag, then drain the registry,
    /// sending each peer the farewell and dropping it. Stopping an already
    /// stopped engine only warns.
    pub fn shutdown(&mut self) -> (r: Vec<Action>)
        requires
            old(self).wf(),
        ensures
            final(self).wf(),
            !final(self).running,
            old(self).running ==> final(self).active_peers@.len() == 0 && acts_view(r@)
                == shutdown_actions(old(self).active_peers@) && transfers_after_shutdown(
                old(self).active_transfers@,
                old(self).active_peers@,
                final(self).active_transfers@,
            ),
            !old(self).running ==> final(self).active_peers == old(self).active_peers
                && final(self).active_transfers == old(self).active_transfers && r@.len()
                == 1 && (r@[0] matches Action::Notify { event } && event@
                == BackendEventView::BackendWarning(
                crate::backend_event::BackendWarningView {
                    message:
                        "PeerManager has already been shutdown, or never started. Aborting shutdown."@,
                },
            )),
    {
        let mut r: Vec<Action> = Vec::new();
        if !self.running {
            r.push(
                Action::Notify {
                    event: BackendEvent::BackendWarning(
                        crate::backend_event::BackendWarning {
                            message: <String as vstd::string::StringExecFns>::from_str(
                                "PeerManager has already been shutdown, or never started. Aborting shutdown.",
                            ),
                        },
                    ),
                },
            );
            return r;
        }
        self.running = false;
        let ghost orig = self.active_peers@;
        let ghost orig_t = self.active_transfers@;
        proof {
            assert_seqs_equal!(acts_view(r@) + shutdown_actions(self.active_peers@)
                == shutdown_actions(orig));
        }
        while self.active_peers.len() > 0
            invariant
                self.wf(),
                !self.running,
                acts_view(r@) + shutdown_actions(self.active_peers@) == shutdown_actions(orig),
                forall|a: PeerAddress| has_peer(self.active_peers@, a) ==> has_peer(orig, a),
                forall|id: u128| has_transfer(self.active_transfers@, id) <==> (has_transfer(
                    orig_t,
                    id,
                ) && (!has_peer(orig, transfer_state(orig_t, id).peer_addr) || has_peer(
                    self.active_peers@,
                    transfer_state(orig_t, id).peer_addr,
                ))),
                forall|id: u128| has_transfer(self.active_transfers@, id) ==> transfer_state(
                    self.active_transfers@,
                    id,
                ) == transfer_state(orig_t, id),
            decreases self.active_peers@.len(),
        {
            let ghost peers_before = self.active_peers@;
            let ghost r_before = r@;
            let p_addr = self.active_peers[0].addr;
            let ghost p_head = self.active_peers@[0];
            r.push(
                Action::SendPeer {
                    addr: p_addr,
                    message: Message::ImmediateConnectionClose(
                        crate::protocol::DisconnectRequest {
                            message: Some(
                                <String as vstd::string::StringExecFns>::from_str(
                                    "Peer is shutting down",
                                ),
                            ),
                        },
                    ),
                },
            );
            proof {
                lemma_peer_at(self.active_peers@, 0);
            }
            let ghost t_before = self.active_transfers@;
            let mut dropped = self.drop_peer(p_addr, None);
            let ghost d = dropped@;
            r.append(&mut dropped);
            proof {
                assert(peers_before.remove(0) == peers_before.drop_first()) by {
                    assert_seqs_equal!(peers_before.remove(0) == peers_before.drop_first());
                }
                assert(self.active_peers@ == peers_before.drop_first());
                assert(shutdown_actions(peers_before) == shutdown_peer_actions(p_head)
                    + shutdown_actions(peers_before.drop_first()));
                assert_seqs_equal!(acts_view(r@)
                    == acts_view(r_before) + shutdown_peer_actions(p_head));
                assert_seqs_equal!(acts_view(r@) + shutdown_actions(self.active_peers@)
                    == shutdown_actions(orig));
                assert forall|id: u128| has_transfer(self.active_transfers@, id) implies (
                has_transfer(orig_t, id) && (!has_peer(orig, transfer_state(orig_t, id).peer_addr)
                    || has_peer(self.active_peers@, transfer_state(orig_t, id).peer_addr))) by {
                    assert(has_transfer(t_before, id));
                    assert(transfer_state(t_before, id).peer_addr != p_addr);
                    assert(transfer_state(t_before, id) == transfer_state(orig_t, id));
                    let q = transfer_state(orig_t, id).peer_addr;
                    assert(q != p_addr);
                    if has_peer(peers_before, q) {
                        let j = peer_at(peers_before, q);
                        assert(peers_before[j].addr == q);
                        assert(j != 0);
                        assert(self.active_peers@[j - 1].addr == q);
                        assert(has_peer(self.active_peers@, q));
                    }
                }
                assert forall|id: u128| (has_transfer(orig_t, id) && (!has_peer(
                    orig,
                    transfer_state(orig_t, id).peer_addr,
                ) || has_peer(
                    self.active_peers@,
                    transfer_state(orig_t, id).peer_addr,
                ))) implies has_transfer(self.active_transfers@, id) by {
                    let q = transfer_state(orig_t, id).peer_addr;
                    if !has_peer(orig, q) {
                        assert(!has_peer(peers_before, q)) by {
                            if has_peer(peers_before, q) {
                                let j = peer_at(peers_before, q);
                                assert(peers_before[j].addr == q);
                            }
                        }
                        assert(q != p_addr) by {
                            assert(peers_before[0].addr == p_addr);
                            if q == p_addr {
                                assert(has_peer(peers_before, q));
                            }
                        }
                        assert(has_transfer(t_before, id));
                        assert(transfer_state(t_before, id) == transfer_state(orig_t, id));
                    } else {
                        let j = peer_at(self.active_peers@, q);
                        assert(self.active_peers@[j].addr == q);
                        assert(peers_before[j + 1].addr == q);
                        assert(has_peer(peers_before, q));
                        assert(q != p_addr) by {
                            assert(!has_peer(self.active_peers@, p_addr));
                        }
                        assert(has_transfer(t_before, id));
                        assert(transfer_state(t_before, id) == transfer_state(orig_t, id));
                    }
                }
            }
        }
        proof {
            assert forall|id: u128| has_transfer(self.active_transfers@, id) <==> (has_transfer(
                orig_t,
                id,
            ) && !has_peer(orig, transfer_state(orig_t, id).peer_addr)) by {
                assert(!has_peer(self.active_peers@, transfer_state(orig_t, id).peer_addr));
            }
        }
        r
    }

    /// Record that the listener came up: the engine is now running.
    pub fn listener_bound(&mut self)
        requires
            old(self).wf(),
        ensures
            final(self).wf(),
            final(self).running,
            final(self).active_peers == old(self).active_peers,
            final(self).active_transfers == old(self).active_transfers,
    {
        self.running = true;
    }
}


// ---------------------------------------------------------------------------
// Transfer arithmetic
// ---------------------------------------------------------------------------

/// The stream checksum: a wrapping 64-bit sum of all bytes, folded left.
pub open spec fn add_bytes(acc: u64, s: Seq<u8>) -> u64
    decreases s.len(),
{
    if s.len() == 0 {
        acc
    } else {
        add_bytes(acc.wrapping_add(s[0] as u64), s.drop_first())
    }
}

/// Fold the bytes of `data` into the running checksum.
pub(crate) fn add_bytes_x(acc: u64, data: &Vec<u8>) -> (r: u64)
    ensures
        r == add_bytes(acc, data@),
{
    let mut a: u64 = acc;
    let mut k: usize = 0;
    proof {
        assert_seqs_equal!(data@.subrange(0, data@.len() as int) == data@);
    }
    while k < data.len()
        invariant
            k <= data@.len(),
            add_bytes(a, data@.subrange(k as int, data@.len() as int)) == add_bytes(acc, data@),
        decreases data@.len() - k,
    {
        proof {
            assert_seqs_equal!(data@.subrange(k as int, data@.len() as int).drop_first()
                == data@.subrange(k + 1 as int, data@.len() as int));
            assert(data@.subrange(k as int, data@.len() as int)[0] == data@[k as int]);
        }
        a = a.wrapping_add(data[k] as u64);
        k = k + 1;
    }
    proof {
        assert(data@.subrange(k as int, data@.len() as int).len() == 0);
    }
    a
}

/// Number of chunks a transfer of `total` bytes takes at `chunk_len` bytes
/// per chunk (zero when either is zero).
pub open spec fn chunk_count_of(total: u64, chunk_len: u64) -> u64 {
    if chunk_len == 0 || total == 0 {
        0
    } else {
        (((total - 1) / (chunk_len as int)) + 1) as u64
    }
}

/// Compute the chunk count.
pub(crate) fn chunk_count_x(total: u64, chunk_len: u64) -> (r: u64)
    ensures
        r == chunk_count_of(total, chunk_len),
{
    if chunk_len == 0 || total == 0 {
        0
    } else {
        proof {
            vstd::arithmetic::div_mod::lemma_div_is_ordered_by_denominator(
                total - 1,
                1,
                chunk_len as int,
            );
            vstd::arithmetic::div_mod::lemma_div_basics(total - 1);
        }
        (total - 1) / chunk_len + 1
    }
}

} // verus!



