//! Wire protocol message types.
//!
//! A frame on the wire is a 4-byte big-endian length header followed by that
//! many payload bytes; the payload encodes one [`Message`]. Each exec type
//! has a ghost view (`...View`) over mathematical sequences, and contracts
//! throughout the crate speak of those views.

use vstd::prelude::*;

verus! {

/// Reserved cryptographic identity block. Carried by the protocol but not
/// interpreted anywhere yet.
#[derive(Debug, Clone, PartialEq, Eq)]
pub struct EcdsaConnectionInfo {
    pub public_key: Vec<u8>,
    pub signature: Vec<u8>,
    pub nonce: Vec<u8>,
}

/// Identity a peer presents in a `ConnectRequest` or a `Permit`.
#[derive(Debug, Clone, PartialEq, Eq)]
pub struct ConnectionInfo {
    pub name: String,
    pub backend_version: String,
}

/// Grant or refusal of a connection request.
#[derive(Debug, Clone, PartialEq, Eq)]
pub enum ConnectionPermit {
    Permit { identitiy: ConnectionInfo },
    Deny,
}

/// Response to a `ConnectRequest`.
#[derive(Debug, Clone, PartialEq, Eq)]
pub struct ConnectionResponse {
    pub permit: ConnectionPermit,
    pub message: Option<String>,
}

/// Request to end the session, optionally with a reason.
#[derive(Debug, Clone, PartialEq, Eq)]
pub struct DisconnectRequest {
    pub message: Option<String>,
}

/// Offer to send a file: display name, transfer id, total size and the
/// sender's chosen chunk length.
#[derive(Debug, Clone, PartialEq, Eq)]
pub struct FileOffer {
    pub filename: String,
    pub unique_id: u128,
    pub size: u64,
    pub chunk_len: u64,
}

/// Accept or reject a file offer.
#[derive(Debug, Clone, PartialEq, Eq)]
pub struct FileOfferResponse {
    pub unique_id: u128,
    pub accept: bool,
}

/// One chunk of file data, with its index and the total chunk count.
#[derive(Debug, Clone, PartialEq, Eq)]
pub struct FileChunk {
    pub unique_id: u128,
    pub chunk_id: u64,
    pub chunk_count: u64,
    pub data: Vec<u8>,
}

/// Acknowledgement of one received chunk.
#[derive(Debug, Clone, PartialEq, Eq)]
pub struct FileChunkAck {
    pub unique_id: u128,
    pub chunk_id: u64,
}

/// Sender's final message: all chunks sent, with the stream checksum.
#[derive(Debug, Clone, PartialEq, Eq)]
pub struct FileDone {
    pub unique_id: u128,
    pub checksum: Vec<u8>,
}

/// Receiver's verdict on a finished transfer.
#[derive(Debug, Clone, PartialEq, Eq)]
pub struct FileDoneResult {
    pub unique_id: u128,
    pub success: bool,
    pub message: Option<String>,
}

/// The protocol message sum type. Wire tags follow declaration order,
/// starting at zero.
#[derive(Debug, Clone, PartialEq, Eq)]
pub enum Message {
    KeepAlive,
    ConnectRequest(ConnectionInfo),
    ConnectResponse(ConnectionResponse),
    DisconnectRequest(DisconnectRequest),
    DisconnectAck,
    ImmediateConnectionClose(DisconnectRequest),
    FileOfferRequest(FileOffer),
    FileOfferResponse(FileOfferResponse),
    FileChunk(FileChunk),
    FileChunkAck(FileChunkAck),
    FileDone(FileDone),
    FileDoneResult(FileDoneResult),
}

// ---------------------------------------------------------------------------
// Ghost views
// ---------------------------------------------------------------------------

pub struct EcdsaConnectionInfoView {
    pub public_key: Seq<u8>,
    pub signature: Seq<u8>,
    pub nonce: Seq<u8>,
}

pub struct ConnectionInfoView {
    pub name: Seq<char>,
    pub backend_version: Seq<char>,
}

pub enum ConnectionPermitView {
    Permit { identitiy: ConnectionInfoView },
    Deny,
}

pub struct ConnectionResponseView {
    pub permit: ConnectionPermitView,
    pub message: Option<Seq<char>>,
}

pub struct DisconnectRequestView {
    pub message: Option<Seq<char>>,
}

pub struct FileOfferView {
    pub filename: Seq<char>,
    pub unique_id: u128,
    pub size: u64,
    pub chunk_len: u64,
}

pub struct FileOfferResponseView {
    pub unique_id: u128,
    pub accept: bool,
}

pub struct FileChunkView {
    pub unique_id: u128,
    pub chunk_id: u64,
    pub chunk_count: u64,
    pub data: Seq<u8>,
}

pub struct FileChunkAckView {
    pub unique_id: u128,
    pub chunk_id: u64,
}

pub struct FileDoneView {
    pub unique_id: u128,
    pub checksum: Seq<u8>,
}

pub struct FileDoneResultView {
    pub unique_id: u128,
    pub success: bool,
    pub message: Option<Seq<char>>,
}

pub enum MessageView {
    KeepAlive,
    ConnectRequest(ConnectionInfoView),
    ConnectResponse(ConnectionResponseView),
    DisconnectRequest(DisconnectRequestView),
    DisconnectAck,
    ImmediateConnectionClose(DisconnectRequestView),
    FileOfferRequest(FileOfferView),
    FileOfferResponse(FileOfferResponseView),
    FileChunk(FileChunkView),
    FileChunkAck(FileChunkAckView),
    FileDone(FileDoneView),
    FileDoneResult(FileDoneResultView),
}

/// View of an optional string as an optional character sequence.
pub open spec fn opt_string_view(o: Option<String>) -> Option<Seq<char>> {
    match o {
        Some(s) => Some(s@),
        None => None,
    }
}

impl View for EcdsaConnectionInfo {
    type V = EcdsaConnectionInfoView;

    open spec fn view(&self) -> EcdsaConnectionInfoView {
        EcdsaConnectionInfoView {
            public_key: self.public_key@,
            signature: self.signature@,
            nonce: self.nonce@,
        }
    }
}

impl View for ConnectionInfo {
    type V = ConnectionInfoView;

    open spec fn view(&self) -> ConnectionInfoView {
        ConnectionInfoView { name: self.name@, backend_version: self.backend_version@ }
    }
}

impl View for ConnectionPermit {
    type V = ConnectionPermitView;

    open spec fn view(&self) -> ConnectionPermitView {
        match self {
            ConnectionPermit::Permit { identitiy } => ConnectionPermitView::Permit {
                identitiy: identitiy@,
            },
            ConnectionPermit::Deny => ConnectionPermitView::Deny,
        }
    }
}

impl View for ConnectionResponse {
    type V = ConnectionResponseView;

    open spec fn view(&self) -> ConnectionResponseView {
        ConnectionResponseView { permit: self.permit@, message: opt_string_view(self.message) }
    }
}

impl View for DisconnectRequest {
    type V = DisconnectRequestView;

    open spec fn view(&self) -> DisconnectRequestView {
        DisconnectRequestView { message: opt_string_view(self.message) }
    }
}

impl View for FileOffer {
    type V = FileOfferView;

    open spec fn view(&self) -> FileOfferView {
        FileOfferView {
            filename: self.filename@,
            unique_id: self.unique_id,
            size: self.size,
            chunk_len: self.chunk_len,
        }
    }
}

impl View for FileOfferResponse {
    type V = FileOfferResponseView;

    open spec fn view(&self) -> FileOfferResponseView {
        FileOfferResponseView { unique_id: self.unique_id, accept: self.accept }
    }
}

impl View for FileChunk {
    type V = FileChunkView;

    open spec fn view(&self) -> FileChunkView {
        FileChunkView {
            unique_id: self.unique_id,
            chunk_id: self.chunk_id,
            chunk_count: self.chunk_count,
            data: self.data@,
        }
    }
}

impl View for FileChunkAck {
    type V = FileChunkAckView;

    open spec fn view(&self) -> FileChunkAckView {
        FileChunkAckView { unique_id: self.unique_id, chunk_id: self.chunk_id }
    }
}

impl View for FileDone {
    type V = FileDoneView;

    open spec fn view(&self) -> FileDoneView {
        FileDoneView { unique_id: self.unique_id, checksum: self.checksum@ }
    }
}

impl View for FileDoneResult {
    type V = FileDoneResultView;

    open spec fn view(&self) -> FileDoneResultView {
        FileDoneResultView {
            unique_id: self.unique_id,
            success: self.success,
            message: opt_string_view(self.message),
        }
    }
}

impl View for Message {
    type V = MessageView;

    open spec fn view(&self) -> MessageView {
        match self {
            Message::KeepAlive => MessageView::KeepAlive,
            Message::ConnectRequest(ci) => MessageView::ConnectRequest(ci@),
            Message::ConnectResponse(cr) => MessageView::ConnectResponse(cr@),
            Message::DisconnectRequest(dr) => MessageView::DisconnectRequest(dr@),
            Message::DisconnectAck => MessageView::DisconnectAck,
            Message::ImmediateConnectionClose(dr) => MessageView::ImmediateConnectionClose(dr@),
            Message::FileOfferRequest(fo) => MessageView::FileOfferRequest(fo@),
            Message::FileOfferResponse(fr) => MessageView::FileOfferResponse(fr@),
            Message::FileChunk(fc) => MessageView::FileChunk(fc@),
            Message::FileChunkAck(fa) => MessageView::FileChunkAck(fa@),
            Message::FileDone(fd) => MessageView::FileDone(fd@),
            Message::FileDoneResult(fr) => MessageView::FileDoneResult(fr@),
        }
    }
}

} // verus!
