//! Wire codec behaviour: round trips, exact bytes, and rejection of
//! malformed payloads.

use kuaip2p::codec::{decode_message, encode_frame, encode_message, parse_frame_len};
use kuaip2p::protocol::{ConnectionInfo, ConnectionPermit, ConnectionResponse, DisconnectRequest,
    FileChunk, FileChunkAck, FileDone, FileDoneResult, FileOffer, FileOfferResponse, Message};
use kuaip2p::MAX_MESSAGE_SIZE;

fn round_trip(m: Message) {
    let bytes = encode_message(&m);
    let (back, consumed) = decode_message(&bytes).expect("decode failed");
    assert_eq!(back, m);
    assert_eq!(consumed, bytes.len());
}

#[test]
fn keep_alive_is_one_zero_byte() {
    let bytes = encode_message(&Message::KeepAlive);
    assert_eq!(bytes, vec![0u8]);
}

#[test]
fn disconnect_ack_is_one_byte_tag_four() {
    let bytes = encode_message(&Message::DisconnectAck);
    assert_eq!(bytes, vec![4u8]);
}

#[test]
fn file_chunk_ack_exact_bytes() {
    let m = Message::FileChunkAck(FileChunkAck { unique_id: 1, chunk_id: 2 });
    let bytes = encode_message(&m);
    let mut expected = vec![9u8];
    expected.push(1);
    expected.extend_from_slice(&[0; 15]);
    expected.push(2);
    assert_eq!(bytes, expected);
}

#[test]
fn varint_boundaries_exact_bytes() {
    // size fields use the variable-length integer encoding
    let enc = |size: u64| {
        let m = Message::FileOfferRequest(FileOffer {
            filename: String::new(),
            unique_id: 0,
            size,
            chunk_len: 0,
        });
        encode_message(&m)
    };
    // tag 6, empty filename (len 0), 16 id bytes, then size, then chunk_len 0
    let prefix: Vec<u8> = {
        let mut p = vec![6u8, 0u8];
        p.extend_from_slice(&[0; 16]);
        p
    };
    let mut e250 = prefix.clone();
    e250.extend_from_slice(&[250, 0]);
    assert_eq!(enc(250), e250);
    let mut e251 = prefix.clone();
    e251.extend_from_slice(&[251, 251, 0, 0]);
    assert_eq!(enc(251), e251);
    let mut e65536 = prefix.clone();
    e65536.extend_from_slice(&[252, 0, 0, 1, 0, 0]);
    assert_eq!(enc(65536), e65536);
    let mut ebig = prefix.clone();
    ebig.extend_from_slice(&[253, 0, 0, 0, 0, 1, 0, 0, 0, 0]);
    assert_eq!(enc(1u64 << 32), ebig);
}

#[test]
fn round_trip_every_variant() {
    round_trip(Message::KeepAlive);
    round_trip(Message::ConnectRequest(ConnectionInfo {
        name: "A".to_string(),
        backend_version: "1.0.0".to_string(),
    }));
    round_trip(Message::ConnectResponse(ConnectionResponse {
        permit: ConnectionPermit::Permit {
            identitiy: ConnectionInfo {
                name: "B".to_string(),
                backend_version: "1.0.0".to_string(),
            },
        },
        message: Some("welcome".to_string()),
    }));
    round_trip(Message::ConnectResponse(ConnectionResponse {
        permit: ConnectionPermit::Deny,
        message: None,
    }));
    round_trip(Message::DisconnectRequest(DisconnectRequest {
        message: Some("bye".to_string()),
    }));
    round_trip(Message::DisconnectAck);
    round_trip(Message::ImmediateConnectionClose(DisconnectRequest { message: None }));
    round_trip(Message::FileOfferRequest(FileOffer {
        filename: "x".to_string(),
        unique_id: 0xa1a2a3a4b1b2c1c2d1d2d3d4d5d6d7d8,
        size: 3145728,
        chunk_len: 1048576,
    }));
    round_trip(Message::FileOfferResponse(FileOfferResponse {
        unique_id: 7,
        accept: true,
    }));
    round_trip(Message::FileChunk(FileChunk {
        unique_id: 7,
        chunk_id: 0,
        chunk_count: 3,
        data: vec![1, 2, 3, 255, 0],
    }));
    round_trip(Message::FileChunkAck(FileChunkAck { unique_id: 7, chunk_id: 0 }));
    round_trip(Message::FileDone(FileDone { unique_id: 7, checksum: vec![1; 8] }));
    round_trip(Message::FileDoneResult(FileDoneResult {
        unique_id: 7,
        success: false,
        message: Some("Checksum mismatch".to_string()),
    }));
}

#[test]
fn round_trip_non_ascii_strings() {
    round_trip(Message::ConnectRequest(ConnectionInfo {
        name: "p\u{e9}er \u{1F980}".to_string(),
        backend_version: "2.0".to_string(),
    }));
}

#[test]
fn decode_rejects_empty_and_bad_tag() {
    assert!(decode_message(&vec![]).is_none());
    assert!(decode_message(&vec![12u8]).is_none());
    assert!(decode_message(&vec![254u8]).is_none());
}

#[test]
fn decode_rejects_bad_bool_byte() {
    // DisconnectRequest with an option marker of 2
    assert!(decode_message(&vec![3u8, 2u8]).is_none());
}

#[test]
fn decode_rejects_invalid_utf8_name() {
    // ConnectRequest, name of length 1 with an invalid UTF-8 byte
    assert!(decode_message(&vec![1u8, 1u8, 0xFF, 0u8]).is_none());
}

#[test]
fn decode_reports_exact_consumption() {
    let mut bytes = encode_message(&Message::KeepAlive);
    bytes.push(99);
    let (m, consumed) = decode_message(&bytes).expect("decode failed");
    assert_eq!(m, Message::KeepAlive);
    assert_eq!(consumed, 1);
    assert!(consumed != bytes.len());
}

#[test]
fn frame_has_big_endian_length_header() {
    let m = Message::ConnectRequest(ConnectionInfo {
        name: "A".to_string(),
        backend_version: "1.0.0".to_string(),
    });
    let payload = encode_message(&m);
    let frame = encode_frame(&m).expect("frame refused");
    assert_eq!(frame.len(), payload.len() + 4);
    let n = payload.len() as u32;
    assert_eq!(frame[0], (n >> 24) as u8);
    assert_eq!(frame[1], (n >> 16) as u8);
    assert_eq!(frame[2], (n >> 8) as u8);
    assert_eq!(frame[3], n as u8);
    assert_eq!(&frame[4..], &payload[..]);
    let header: Vec<u8> = frame[0..4].to_vec();
    assert_eq!(parse_frame_len(&header) as usize, payload.len());
}

#[test]
fn frame_refuses_oversize_payload() {
    let m = Message::FileChunk(FileChunk {
        unique_id: 1,
        chunk_id: 0,
        chunk_count: 1,
        data: vec![0u8; MAX_MESSAGE_SIZE + 1],
    });
    assert!(encode_frame(&m).is_none());
}

#[test]
fn frame_accepts_payload_at_limit() {
    // 10 MiB of data plus the envelope still fits under the limit check only
    // if the whole payload does; a payload just below the bound passes.
    let m = Message::FileChunk(FileChunk {
        unique_id: 1,
        chunk_id: 0,
        chunk_count: 1,
        data: vec![0u8; MAX_MESSAGE_SIZE - 64],
    });
    let frame = encode_frame(&m).expect("frame refused");
    assert!(frame.len() <= MAX_MESSAGE_SIZE + 4);
}
