//! Peer-to-peer file-transfer session engine.
//!
//! The crate verifies the core of a peer session daemon: the length-prefixed
//! wire protocol and its codec, the per-peer connection state machine, the
//! registries of peers and file transfers, and the routing decisions that
//! turn user commands and inbound peer messages into state changes and
//! outbound actions. Network and file I/O stay outside; the engine consumes
//! and produces plain values.

use vstd::prelude::*;

pub mod address;
pub mod backend_event;
pub mod codec;
pub mod frontend_event;
pub mod frontend_manager;
pub mod ids;
pub mod message_handlers;
pub mod peer_manager;
pub mod protocol;

verus! {

/// Maximum wire payload size in bytes (10 MiB). A frame whose length header
/// exceeds this is a protocol violation and the connection is dropped.
pub const MAX_MESSAGE_SIZE: usize = 1024 * 1024 * 10;

} // verus!
