//! Commands the user interface sends into the engine.

use vstd::prelude::*;

verus! {

/// Request to connect to a peer at the given `"host:port"` text.
#[derive(Debug, Clone, PartialEq, Eq)]
pub struct ConnectRequest {
    pub ip: String,
}

/// Request to disconnect from a connected peer.
#[derive(Debug, Clone, PartialEq, Eq)]
pub struct DisconnectRequest {
    pub ip: String,
    pub message: Option<String>,
}

/// The user's answer to a peer's connection request.
#[derive(Debug, Clone, PartialEq, Eq)]
pub struct ConnectionRequestResponse {
    pub ip: String,
    pub accept: bool,
    pub message: Option<String>,
}

/// Request to send a file to a peer.
#[derive(Debug, Clone, PartialEq, Eq)]
pub struct TransmitFile {
    pub ip: String,
    pub path: String,
    pub filename: String,
}

/// The user's answer to a file offer; the id is the transfer id's text form.
#[derive(Debug, Clone, PartialEq, Eq)]
pub struct FileOfferResponse {
    pub unique_id: String,
    pub accept: bool,
}

/// Request to cancel a running transfer.
#[derive(Debug, Clone, PartialEq, Eq)]
pub struct CancelFileTransfer {
    pub unique_id: String,
    pub message: Option<String>,
}

/// Engine start-up configuration: the listener's `"host:port"` bind text.
#[derive(Debug, Clone, PartialEq, Eq)]
pub struct BackendStartupConfig {
    pub bind_addr: String,
}

/// The command sum type the user interface sends to the engine.
#[derive(Debug, Clone, PartialEq, Eq)]
pub enum FrontendEvent {
    ConnectRequest(ConnectRequest),
    DisconnectRequest(DisconnectRequest),
    ConnectionRequestResponse(ConnectionRequestResponse),
    TransmitFile(TransmitFile),
    FileOfferResponse(FileOfferResponse),
    CancelFileTransfer(CancelFileTransfer),
    FrontendReady(BackendStartupConfig),
    Start(BackendStartupConfig),
    Restart(BackendStartupConfig),
    Shutdown,
}

// ---------------------------------------------------------------------------
// Ghost views
// ---------------------------------------------------------------------------

pub struct ConnectRequestView {
    pub ip: Seq<char>,
}

pub struct DisconnectRequestView {
    pub ip: Seq<char>,
    pub message: Option<Seq<char>>,
}

pub struct ConnectionRequestResponseView {
    pub ip: Seq<char>,
    pub accept: bool,
    pub message: Option<Seq<char>>,
}

pub struct TransmitFileView {
    pub ip: Seq<char>,
    pub path: Seq<char>,
    pub filename: Seq<char>,
}

pub struct FileOfferResponseView {
    pub unique_id: Seq<char>,
    pub accept: bool,
}

pub struct CancelFileTransferView {
    pub unique_id: Seq<char>,
    pub message: Option<Seq<char>>,
}

pub struct BackendStartupConfigView {
    pub bind_addr: Seq<char>,
}

pub enum FrontendEventView {
    ConnectRequest(ConnectRequestView),
    DisconnectRequest(DisconnectRequestView),
    ConnectionRequestResponse(ConnectionRequestResponseView),
    TransmitFile(TransmitFileView),
    FileOfferResponse(FileOfferResponseView),
    CancelFileTransfer(CancelFileTransferView),
    FrontendReady(BackendStartupConfigView),
    Start(BackendStartupConfigView),
    Restart(BackendStartupConfigView),
    Shutdown,
}

impl View for ConnectRequest {
    type V = ConnectRequestView;

    open spec fn view(&self) -> ConnectRequestView {
        ConnectRequestView { ip: self.ip@ }
    }
}

impl View for DisconnectRequest {
    type V = DisconnectRequestView;

    open spec fn view(&self) -> DisconnectRequestView {
        DisconnectRequestView { ip: self.ip@, message: crate::protocol::opt_string_view(self.message) }
    }
}

impl View for ConnectionRequestResponse {
    type V = ConnectionRequestResponseView;

    open spec fn view(&self) -> ConnectionRequestResponseView {
        ConnectionRequestResponseView {
            ip: self.ip@,
            accept: self.accept,
            message: crate::protocol::opt_string_view(self.message),
        }
    }
}

impl View for TransmitFile {
    type V = TransmitFileView;

    open spec fn view(&self) -> TransmitFileView {
        TransmitFileView { ip: self.ip@, path: self.path@, filename: self.filename@ }
    }
}

impl View for FileOfferResponse {
    type V = FileOfferResponseView;

    open spec fn view(&self) -> FileOfferResponseView {
        FileOfferResponseView { unique_id: self.unique_id@, accept: self.accept }
    }
}

impl View for CancelFileTransfer {
    type V = CancelFileTransferView;

    open spec fn view(&self) -> CancelFileTransferView {
        CancelFileTransferView {
            unique_id: self.unique_id@,
            message: crate::protocol::opt_string_view(self.message),
        }
    }
}

impl View for BackendStartupConfig {
    type V = BackendStartupConfigView;

    open spec fn view(&self) -> BackendStartupConfigView {
        BackendStartupConfigView { bind_addr: self.bind_addr@ }
    }
}

impl View for FrontendEvent {
    type V = FrontendEventView;

    open spec fn view(&self) -> FrontendEventView {
        match self {
            FrontendEvent::ConnectRequest(x) => FrontendEventView::ConnectRequest(x@),
            FrontendEvent::DisconnectRequest(x) => FrontendEventView::DisconnectRequest(x@),
            FrontendEvent::ConnectionRequestResponse(x) => FrontendEventView::ConnectionRequestResponse(
                x@,
            ),
            FrontendEvent::TransmitFile(x) => FrontendEventView::TransmitFile(x@),
            FrontendEvent::FileOfferResponse(x) => FrontendEventView::FileOfferResponse(x@),
            FrontendEvent::CancelFileTransfer(x) => FrontendEventView::CancelFileTransfer(x@),
            FrontendEvent::FrontendReady(x) => FrontendEventView::FrontendReady(x@),
            FrontendEvent::Start(x) => FrontendEventView::Start(x@),
            FrontendEvent::Restart(x) => FrontendEventView::Restart(x@),
            FrontendEvent::Shutdown => FrontendEventView::Shutdown,
        }
    }
}

} // verus!
