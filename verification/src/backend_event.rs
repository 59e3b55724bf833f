//! Notifications the engine sends up to the user interface.

use vstd::prelude::*;

use crate::frontend_event::{FrontendEvent, FrontendEventView};
use crate::protocol::opt_string_view;

verus! {

/// A backend error report.
#[derive(Debug, Clone, PartialEq, Eq)]
pub struct BackendError {
    pub message: String,
}

/// A fatal backend failure; the engine stops after sending it.
#[derive(Debug, Clone, PartialEq, Eq)]
pub struct BackendFatal {
    pub message: String,
}

/// Engine identification, sent when the engine is ready.
#[derive(Debug, Clone, PartialEq, Eq)]
pub struct BackendInfo {
    pub version: String,
}

/// A backend warning report.
#[derive(Debug, Clone, PartialEq, Eq)]
pub struct BackendWarning {
    pub message: String,
}

/// A command that could not be carried out, echoed with the reason.
#[derive(Debug, Clone, PartialEq, Eq)]
pub struct BadFrontendEvent {
    pub event: FrontendEvent,
    pub error: String,
}

/// A peer's identity as shown to the user. The identity string is a
/// reserved placeholder and stays empty.
#[derive(Debug, Clone, PartialEq, Eq)]
pub struct ConnectionInfo {
    pub name: String,
    pub ip: String,
    pub backend_version: String,
    pub identitiy: String,
}

/// Outcome of a connection request, ours or the peer's.
#[derive(Debug, Clone, PartialEq, Eq)]
pub struct ConnectionRequestResponse {
    pub accept: bool,
    pub ip: String,
    pub reason: Option<String>,
}

/// A session that ended: orderly (`ConnectionClose`) or not (`ConnectionBroken`).
#[derive(Debug, Clone, PartialEq, Eq)]
pub struct ConnectionCloseOrBroken {
    pub connection_info: ConnectionInfo,
    pub message: Option<String>,
}

/// A file offer received from a peer; the id is the transfer id's text form.
#[derive(Debug, Clone, PartialEq, Eq)]
pub struct FileOffer {
    pub peer: ConnectionInfo,
    pub filename: String,
    pub unique_id: String,
    pub size: u64,
}

/// A finished transfer.
#[derive(Debug, Clone, PartialEq, Eq)]
pub struct FileTransferComplete {
    pub unique_id: String,
}

/// A failed transfer.
#[derive(Debug, Clone, PartialEq, Eq)]
pub struct FileTransferError {
    pub unique_id: String,
    pub message: String,
}

/// Whether a transfer sends or receives, as shown to the user.
#[derive(Debug, Clone, Copy, PartialEq, Eq, Structural)]
pub enum FileTransferDirection {
    Sending,
    Receiving,
}

/// Progress of a running transfer.
#[derive(Debug, Clone, PartialEq, Eq)]
pub struct FileTransferProgress {
    pub unique_id: String,
    pub bytes_transferred: u64,
    pub total_bytes: u64,
    pub sending: FileTransferDirection,
}

/// A general message to the user.
#[derive(Debug, Clone, PartialEq, Eq)]
pub struct BackendMessage {
    pub message: String,
}

/// The notification sum type the engine sends to the user interface.
#[derive(Debug, Clone, PartialEq, Eq)]
pub enum BackendEvent {
    BackendError(BackendError),
    BackendFatal(BackendFatal),
    BackendReady(BackendInfo),
    FatalLostComms(BackendFatal),
    BackendShutdown,
    BackendWarning(BackendWarning),
    BadFrontendEvent(BadFrontendEvent),
    ConnectRequest(ConnectionInfo),
    ConnectionRequestResponse(ConnectionRequestResponse),
    AutoConnectionClose(ConnectionInfo),
    ConnectionClose(ConnectionCloseOrBroken),
    ConnectionBroken(ConnectionCloseOrBroken),
    FileOffer(FileOffer),
    FileTransferComplete(FileTransferComplete),
    FileTransferError(FileTransferError),
    FileTransferProgress(FileTransferProgress),
    Message(BackendMessage),
}

// ---------------------------------------------------------------------------
// Ghost views
// ---------------------------------------------------------------------------

pub struct BackendErrorView {
    pub message: Seq<char>,
}

pub struct BackendFatalView {
    pub message: Seq<char>,
}

pub struct BackendInfoView {
    pub version: Seq<char>,
}

pub struct BackendWarningView {
    pub message: Seq<char>,
}

pub struct BadFrontendEventView {
    pub event: FrontendEventView,
    pub error: Seq<char>,
}

pub struct ConnectionInfoView {
    pub name: Seq<char>,
    pub ip: Seq<char>,
    pub backend_version: Seq<char>,
    pub identitiy: Seq<char>,
}

pub struct ConnectionRequestResponseView {
    pub accept: bool,
    pub ip: Seq<char>,
    pub reason: Option<Seq<char>>,
}

pub struct ConnectionCloseOrBrokenView {
    pub connection_info: ConnectionInfoView,
    pub message: Option<Seq<char>>,
}

pub struct FileOfferView {
    pub peer: ConnectionInfoView,
    pub filename: Seq<char>,
    pub unique_id: Seq<char>,
    pub size: u64,
}

pub struct FileTransferCompleteView {
    pub unique_id: Seq<char>,
}

pub struct FileTransferErrorView {
    pub unique_id: Seq<char>,
    pub message: Seq<char>,
}

pub struct FileTransferProgressView {
    pub unique_id: Seq<char>,
    pub bytes_transferred: u64,
    pub total_bytes: u64,
    pub sending: FileTransferDirection,
}

pub struct BackendMessageView {
    pub message: Seq<char>,
}

pub enum BackendEventView {
    BackendError(BackendErrorView),
    BackendFatal(BackendFatalView),
    BackendReady(BackendInfoView),
    FatalLostComms(BackendFatalView),
    BackendShutdown,
    BackendWarning(BackendWarningView),
    BadFrontendEvent(BadFrontendEventView),
    ConnectRequest(ConnectionInfoView),
    ConnectionRequestResponse(ConnectionRequestResponseView),
    AutoConnectionClose(ConnectionInfoView),
    ConnectionClose(ConnectionCloseOrBrokenView),
    ConnectionBroken(ConnectionCloseOrBrokenView),
    FileOffer(FileOfferView),
    FileTransferComplete(FileTransferCompleteView),
    FileTransferError(FileTransferErrorView),
    FileTransferProgress(FileTransferProgressView),
    Message(BackendMessageView),
}

impl View for BackendError {
    type V = BackendErrorView;

    open spec fn view(&self) -> BackendErrorView {
        BackendErrorView { message: self.message@ }
    }
}

impl View for BackendFatal {
    type V = BackendFatalView;

    open spec fn view(&self) -> BackendFatalView {
        BackendFatalView { message: self.message@ }
    }
}

impl View for BackendInfo {
    type V = BackendInfoView;

    open spec fn view(&self) -> BackendInfoView {
        BackendInfoView { version: self.version@ }
    }
}

impl View for BackendWarning {
    type V = BackendWarningView;

    open spec fn view(&self) -> BackendWarningView {
        BackendWarningView { message: self.message@ }
    }
}

impl View for BadFrontendEvent {
    type V = BadFrontendEventView;

    open spec fn view(&self) -> BadFrontendEventView {
        BadFrontendEventView { event: self.event@, error: self.error@ }
    }
}

impl View for ConnectionInfo {
    type V = ConnectionInfoView;

    open spec fn view(&self) -> ConnectionInfoView {
        ConnectionInfoView {
            name: self.name@,
            ip: self.ip@,
            backend_version: self.backend_version@,
            identitiy: self.identitiy@,
        }
    }
}

impl View for ConnectionRequestResponse {
    type V = ConnectionRequestResponseView;

    open spec fn view(&self) -> ConnectionRequestResponseView {
        ConnectionRequestResponseView {
            accept: self.accept,
            ip: self.ip@,
            reason: opt_string_view(self.reason),
        }
    }
}

impl View for ConnectionCloseOrBroken {
    type V = ConnectionCloseOrBrokenView;

    open spec fn view(&self) -> ConnectionCloseOrBrokenView {
        ConnectionCloseOrBrokenView {
            connection_info: self.connection_info@,
            message: opt_string_view(self.message),
        }
    }
}

impl View for FileOffer {
    type V = FileOfferView;

    open spec fn view(&self) -> FileOfferView {
        FileOfferView {
            peer: self.peer@,
            filename: self.filename@,
            unique_id: self.unique_id@,
            size: self.size,
        }
    }
}

impl View for FileTransferComplete {
    type V = FileTransferCompleteView;

    open spec fn view(&self) -> FileTransferCompleteView {
        FileTransferCompleteView { unique_id: self.unique_id@ }
    }
}

impl View for FileTransferError {
    type V = FileTransferErrorView;

    open spec fn view(&self) -> FileTransferErrorView {
        FileTransferErrorView { unique_id: self.unique_id@, message: self.message@ }
    }
}

impl View for FileTransferProgress {
    type V = FileTransferProgressView;

    open spec fn view(&self) -> FileTransferProgressView {
        FileTransferProgressView {
            unique_id: self.unique_id@,
            bytes_transferred: self.bytes_transferred,
            total_bytes: self.total_bytes,
            sending: self.sending,
        }
    }
}

impl View for BackendMessage {
    type V = BackendMessageView;

    open spec fn view(&self) -> BackendMessageView {
        BackendMessageView { message: self.message@ }
    }
}

impl View for BackendEvent {
    type V = BackendEventView;

    open spec fn view(&self) -> BackendEventView {
        match self {
            BackendEvent::BackendError(x) => BackendEventView::BackendError(x@),
            BackendEvent::BackendFatal(x) => BackendEventView::BackendFatal(x@),
            BackendEvent::BackendReady(x) => BackendEventView::BackendReady(x@),
            BackendEvent::FatalLostComms(x) => BackendEventView::FatalLostComms(x@),
            BackendEvent::BackendShutdown => BackendEventView::BackendShutdown,
            BackendEvent::BackendWarning(x) => BackendEventView::BackendWarning(x@),
            BackendEvent::BadFrontendEvent(x) => BackendEventView::BadFrontendEvent(x@),
            BackendEvent::ConnectRequest(x) => BackendEventView::ConnectRequest(x@),
            BackendEvent::ConnectionRequestResponse(x) => BackendEventView::ConnectionRequestResponse(
                x@,
            ),
            BackendEvent::AutoConnectionClose(x) => BackendEventView::AutoConnectionClose(x@),
            BackendEvent::ConnectionClose(x) => BackendEventView::ConnectionClose(x@),
            BackendEvent::ConnectionBroken(x) => BackendEventView::ConnectionBroken(x@),
            BackendEvent::FileOffer(x) => BackendEventView::FileOffer(x@),
            BackendEvent::FileTransferComplete(x) => BackendEventView::FileTransferComplete(x@),
            BackendEvent::FileTransferError(x) => BackendEventView::FileTransferError(x@),
            BackendEvent::FileTransferProgress(x) => BackendEventView::FileTransferProgress(x@),
            BackendEvent::Message(x) => BackendEventView::Message(x@),
        }
    }
}

} // verus!
