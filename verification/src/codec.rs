//! Wire codec: a deterministic binary encoding of [`Message`].
//!
//! Integers are little-endian; lengths and integer fields use a
//! variable-length encoding: a value below 251 is a single byte, otherwise a
//! marker byte (251, 252 or 253) is followed by the value as a little-endian
//! u16, u32 or u64. Strings are a length followed by their UTF-8 bytes; byte
//! arrays are a length followed by the raw bytes; options are a 0/1 byte
//! optionally followed by the payload; transfer ids are 16 little-endian
//! bytes. A message is a variant tag (as a variable-length integer) followed
//! by its fields in declaration order.
//!
//! The spec-level encoder and decoder below define the format; the exec
//! functions are proved to match them, and decoding an encoding returns the
//! original message (see [`lemma_codec_round_trip`]).

use vstd::prelude::*;
use vstd::bytes::*;
use vstd::seq_lib::*;
use vstd::utf8::{valid_utf8, decode_utf8, encode_utf8, encode_utf8_valid_utf8,
    encode_utf8_decode_utf8};
use vstd::string::StrSliceExecFns;
use vstd::slice::slice_subrange;
use vstd::assert_seqs_equal;

use crate::protocol::{Message, MessageView, ConnectionInfo, ConnectionInfoView, ConnectionPermit,
    ConnectionPermitView, ConnectionResponse, ConnectionResponseView, DisconnectRequest,
    DisconnectRequestView, FileOffer, FileOfferView, FileOfferResponse, FileOfferResponseView,
    FileChunk, FileChunkView, FileChunkAck, FileChunkAckView, FileDone, FileDoneView,
    FileDoneResult, FileDoneResultView, opt_string_view};

verus! {

/// Largest value a variable-length integer field can carry.
pub open spec fn fits_varint(n: nat) -> bool {
    n <= u64::MAX
}

// ---------------------------------------------------------------------------
// Spec-level encoders
// ---------------------------------------------------------------------------

pub open spec fn enc_varint(v: u64) -> Seq<u8> {
    if v < 251 {
        seq![v as u8]
    } else if v <= 0xFFFF {
        seq![251u8] + spec_u16_to_le_bytes(v as u16)
    } else if v <= 0xFFFF_FFFF {
        seq![252u8] + spec_u32_to_le_bytes(v as u32)
    } else {
        seq![253u8] + spec_u64_to_le_bytes(v)
    }
}

pub open spec fn enc_bool(v: bool) -> Seq<u8> {
    seq![if v { 1u8 } else { 0u8 }]
}

pub open spec fn enc_id(v: u128) -> Seq<u8> {
    spec_u128_to_le_bytes(v)
}

pub open spec fn enc_bytes(s: Seq<u8>) -> Seq<u8> {
    enc_varint(s.len() as u64) + s
}

pub open spec fn enc_string(s: Seq<char>) -> Seq<u8> {
    enc_bytes(encode_utf8(s))
}

pub open spec fn enc_opt_string(o: Option<Seq<char>>) -> Seq<u8> {
    match o {
        None => seq![0u8],
        Some(s) => seq![1u8] + enc_string(s),
    }
}

pub open spec fn enc_connection_info(c: ConnectionInfoView) -> Seq<u8> {
    enc_string(c.name) + enc_string(c.backend_version)
}

pub open spec fn enc_connection_response(c: ConnectionResponseView) -> Seq<u8> {
    (match c.permit {
        ConnectionPermitView::Permit { identitiy } => seq![0u8] + enc_connection_info(identitiy),
        ConnectionPermitView::Deny => seq![1u8],
    }) + enc_opt_string(c.message)
}

pub open spec fn enc_disconnect_request(d: DisconnectRequestView) -> Seq<u8> {
    enc_opt_string(d.message)
}

pub open spec fn enc_file_offer(f: FileOfferView) -> Seq<u8> {
    enc_string(f.filename) + enc_id(f.unique_id) + enc_varint(f.size) + enc_varint(f.chunk_len)
}

pub open spec fn enc_file_offer_response(f: FileOfferResponseView) -> Seq<u8> {
    enc_id(f.unique_id) + enc_bool(f.accept)
}

pub open spec fn enc_file_chunk(f: FileChunkView) -> Seq<u8> {
    enc_id(f.unique_id) + enc_varint(f.chunk_id) + enc_varint(f.chunk_count) + enc_bytes(f.data)
}

pub open spec fn enc_file_chunk_ack(f: FileChunkAckView) -> Seq<u8> {
    enc_id(f.unique_id) + enc_varint(f.chunk_id)
}

pub open spec fn enc_file_done(f: FileDoneView) -> Seq<u8> {
    enc_id(f.unique_id) + enc_bytes(f.checksum)
}

pub open spec fn enc_file_done_result(f: FileDoneResultView) -> Seq<u8> {
    enc_id(f.unique_id) + enc_bool(f.success) + enc_opt_string(f.message)
}

pub open spec fn message_tag(m: MessageView) -> u64 {
    match m {
        MessageView::KeepAlive => 0,
        MessageView::ConnectRequest(_) => 1,
        MessageView::ConnectResponse(_) => 2,
        MessageView::DisconnectRequest(_) => 3,
        MessageView::DisconnectAck => 4,
        MessageView::ImmediateConnectionClose(_) => 5,
        MessageView::FileOfferRequest(_) => 6,
        MessageView::FileOfferResponse(_) => 7,
        MessageView::FileChunk(_) => 8,
        MessageView::FileChunkAck(_) => 9,
        MessageView::FileDone(_) => 10,
        MessageView::FileDoneResult(_) => 11,
    }
}

pub open spec fn enc_message_body(m: MessageView) -> Seq<u8> {
    match m {
        MessageView::KeepAlive => Seq::empty(),
        MessageView::ConnectRequest(ci) => enc_connection_info(ci),
        MessageView::ConnectResponse(cr) => enc_connection_response(cr),
        MessageView::DisconnectRequest(dr) => enc_disconnect_request(dr),
        MessageView::DisconnectAck => Seq::empty(),
        MessageView::ImmediateConnectionClose(dr) => enc_disconnect_request(dr),
        MessageView::FileOfferRequest(fo) => enc_file_offer(fo),
        MessageView::FileOfferResponse(fr) => enc_file_offer_response(fr),
        MessageView::FileChunk(fc) => enc_file_chunk(fc),
        MessageView::FileChunkAck(fa) => enc_file_chunk_ack(fa),
        MessageView::FileDone(fd) => enc_file_done(fd),
        MessageView::FileDoneResult(fr) => enc_file_done_result(fr),
    }
}

pub open spec fn enc_message(m: MessageView) -> Seq<u8> {
    enc_varint(message_tag(m)) + enc_message_body(m)
}

// ---------------------------------------------------------------------------
// Well-formedness: every variable-length field must fit the length encoding.
// Exec values always satisfy this; ghost values may not.
// ---------------------------------------------------------------------------

pub open spec fn wf_string(s: Seq<char>) -> bool {
    fits_varint(encode_utf8(s).len())
}

pub open spec fn wf_opt_string(o: Option<Seq<char>>) -> bool {
    match o {
        None => true,
        Some(s) => wf_string(s),
    }
}

pub open spec fn wf_message(m: MessageView) -> bool {
    match m {
        MessageView::KeepAlive => true,
        MessageView::ConnectRequest(ci) => wf_string(ci.name) && wf_string(ci.backend_version),
        MessageView::ConnectResponse(cr) => wf_opt_string(cr.message) && (match cr.permit {
            ConnectionPermitView::Permit { identitiy } => wf_string(identitiy.name) && wf_string(
                identitiy.backend_version,
            ),
            ConnectionPermitView::Deny => true,
        }),
        MessageView::DisconnectRequest(dr) => wf_opt_string(dr.message),
        MessageView::DisconnectAck => true,
        MessageView::ImmediateConnectionClose(dr) => wf_opt_string(dr.message),
        MessageView::FileOfferRequest(fo) => wf_string(fo.filename),
        MessageView::FileOfferResponse(_) => true,
        MessageView::FileChunk(fc) => fits_varint(fc.data.len()),
        MessageView::FileChunkAck(_) => true,
        MessageView::FileDone(fd) => fits_varint(fd.checksum.len()),
        MessageView::FileDoneResult(fr) => wf_opt_string(fr.message),
    }
}

// ---------------------------------------------------------------------------
// Spec-level decoders. Each takes the whole byte sequence and a position and
// returns the decoded value with the position just past it, or None.
// ---------------------------------------------------------------------------

pub open spec fn dec_varint(b: Seq<u8>, i: int) -> Option<(u64, int)> {
    if 0 <= i < b.len() {
        let t = b[i];
        if t < 251 {
            Some(((t as u64), i + 1))
        } else if t == 251 {
            if i + 3 <= b.len() {
                Some(((spec_u16_from_le_bytes(b.subrange(i + 1, i + 3)) as u64), i + 3))
            } else {
                None
            }
        } else if t == 252 {
            if i + 5 <= b.len() {
                Some(((spec_u32_from_le_bytes(b.subrange(i + 1, i + 5)) as u64), i + 5))
            } else {
                None
            }
        } else if t == 253 {
            if i + 9 <= b.len() {
                Some((spec_u64_from_le_bytes(b.subrange(i + 1, i + 9)), i + 9))
            } else {
                None
            }
        } else {
            None
        }
    } else {
        None
    }
}

pub open spec fn dec_bool(b: Seq<u8>, i: int) -> Option<(bool, int)> {
    if 0 <= i < b.len() {
        if b[i] == 0u8 {
            Some((false, i + 1))
        } else if b[i] == 1u8 {
            Some((true, i + 1))
        } else {
            None
        }
    } else {
        None
    }
}

pub open spec fn dec_id(b: Seq<u8>, i: int) -> Option<(u128, int)> {
    if 0 <= i && i + 16 <= b.len() {
        Some((spec_u128_from_le_bytes(b.subrange(i, i + 16)), i + 16))
    } else {
        None
    }
}

pub open spec fn dec_bytes(b: Seq<u8>, i: int) -> Option<(Seq<u8>, int)> {
    match dec_varint(b, i) {
        None => None,
        Some((n, j)) => if j + n <= b.len() {
            Some((b.subrange(j, j + n), j + n))
        } else {
            None
        },
    }
}

pub open spec fn dec_string(b: Seq<u8>, i: int) -> Option<(Seq<char>, int)> {
    match dec_bytes(b, i) {
        None => None,
        Some((bs, j)) => if valid_utf8(bs) {
            Some((decode_utf8(bs), j))
        } else {
            None
        },
    }
}

pub open spec fn dec_opt_string(b: Seq<u8>, i: int) -> Option<(Option<Seq<char>>, int)> {
    match dec_bool(b, i) {
        None => None,
        Some((present, j)) => if present {
            match dec_string(b, j) {
                None => None,
                Some((s, k)) => Some((Some(s), k)),
            }
        } else {
            Some((None, j))
        },
    }
}

pub open spec fn dec_connection_info(b: Seq<u8>, i: int) -> Option<(ConnectionInfoView, int)> {
    match dec_string(b, i) {
        None => None,
        Some((name, j)) => match dec_string(b, j) {
            None => None,
            Some((ver, k)) => Some((ConnectionInfoView { name, backend_version: ver }, k)),
        },
    }
}

pub open spec fn dec_connection_response(b: Seq<u8>, i: int) -> Option<
    (ConnectionResponseView, int),
> {
    match dec_bool(b, i) {
        None => None,
        Some((deny, j)) => if !deny {
            match dec_connection_info(b, j) {
                None => None,
                Some((ci, k)) => match dec_opt_string(b, k) {
                    None => None,
                    Some((msg, l)) => Some(
                        (
                            ConnectionResponseView {
                                permit: ConnectionPermitView::Permit { identitiy: ci },
                                message: msg,
                            },
                            l,
                        ),
                    ),
                },
            }
        } else {
            match dec_opt_string(b, j) {
                None => None,
                Some((msg, l)) => Some(
                    (
                        ConnectionResponseView {
                            permit: ConnectionPermitView::Deny,
                            message: msg,
                        },
                        l,
                    ),
                ),
            }
        },
    }
}

pub open spec fn dec_disconnect_request(b: Seq<u8>, i: int) -> Option<
    (DisconnectRequestView, int),
> {
    match dec_opt_string(b, i) {
        None => None,
        Some((msg, j)) => Some((DisconnectRequestView { message: msg }, j)),
    }
}

pub open spec fn dec_file_offer(b: Seq<u8>, i: int) -> Option<(FileOfferView, int)> {
    match dec_string(b, i) {
        None => None,
        Some((filename, j)) => match dec_id(b, j) {
            None => None,
            Some((id, k)) => match dec_varint(b, k) {
                None => None,
                Some((size, l)) => match dec_varint(b, l) {
                    None => None,
                    Some((chunk_len, m)) => Some(
                        (FileOfferView { filename, unique_id: id, size, chunk_len }, m),
                    ),
                },
            },
        },
    }
}

pub open spec fn dec_file_offer_response(b: Seq<u8>, i: int) -> Option<
    (FileOfferResponseView, int),
> {
    match dec_id(b, i) {
        None => None,
        Some((id, j)) => match dec_bool(b, j) {
            None => None,
            Some((accept, k)) => Some((FileOfferResponseView { unique_id: id, accept }, k)),
        },
    }
}

pub open spec fn dec_file_chunk(b: Seq<u8>, i: int) -> Option<(FileChunkView, int)> {
    match dec_id(b, i) {
        None => None,
        Some((id, j)) => match dec_varint(b, j) {
            None => None,
            Some((chunk_id, k)) => match dec_varint(b, k) {
                None => None,
                Some((chunk_count, l)) => match dec_bytes(b, l) {
                    None => None,
                    Some((data, m)) => Some(
                        (FileChunkView { unique_id: id, chunk_id, chunk_count, data }, m),
                    ),
                },
            },
        },
    }
}

pub open spec fn dec_file_chunk_ack(b: Seq<u8>, i: int) -> Option<(FileChunkAckView, int)> {
    match dec_id(b, i) {
        None => None,
        Some((id, j)) => match dec_varint(b, j) {
            None => None,
            Some((chunk_id, k)) => Some((FileChunkAckView { unique_id: id, chunk_id }, k)),
        },
    }
}

pub open spec fn dec_file_done(b: Seq<u8>, i: int) -> Option<(FileDoneView, int)> {
    match dec_id(b, i) {
        None => None,
        Some((id, j)) => match dec_bytes(b, j) {
            None => None,
            Some((checksum, k)) => Some((FileDoneView { unique_id: id, checksum }, k)),
        },
    }
}

pub open spec fn dec_file_done_result(b: Seq<u8>, i: int) -> Option<(FileDoneResultView, int)> {
    match dec_id(b, i) {
        None => None,
        Some((id, j)) => match dec_bool(b, j) {
            None => None,
            Some((success, k)) => match dec_opt_string(b, k) {
                None => None,
                Some((msg, l)) => Some(
                    (FileDoneResultView { unique_id: id, success, message: msg }, l),
                ),
            },
        },
    }
}

pub open spec fn dec_message(b: Seq<u8>, i: int) -> Option<(MessageView, int)> {
    match dec_varint(b, i) {
        None => None,
        Some((tag, j)) => if tag == 0 {
            Some((MessageView::KeepAlive, j))
        } else if tag == 1 {
            match dec_connection_info(b, j) {
                None => None,
                Some((ci, k)) => Some((MessageView::ConnectRequest(ci), k)),
            }
        } else if tag == 2 {
            match dec_connection_response(b, j) {
                None => None,
                Some((cr, k)) => Some((MessageView::ConnectResponse(cr), k)),
            }
        } else if tag == 3 {
            match dec_disconnect_request(b, j) {
                None => None,
                Some((dr, k)) => Some((MessageView::DisconnectRequest(dr), k)),
            }
        } else if tag == 4 {
            Some((MessageView::DisconnectAck, j))
        } else if tag == 5 {
            match dec_disconnect_request(b, j) {
                None => None,
                Some((dr, k)) => Some((MessageView::ImmediateConnectionClose(dr), k)),
            }
        } else if tag == 6 {
            match dec_file_offer(b, j) {
                None => None,
                Some((fo, k)) => Some((MessageView::FileOfferRequest(fo), k)),
            }
        } else if tag == 7 {
            match dec_file_offer_response(b, j) {
                None => None,
                Some((fr, k)) => Some((MessageView::FileOfferResponse(fr), k)),
            }
        } else if tag == 8 {
            match dec_file_chunk(b, j) {
                None => None,
                Some((fc, k)) => Some((MessageView::FileChunk(fc), k)),
            }
        } else if tag == 9 {
            match dec_file_chunk_ack(b, j) {
                None => None,
                Some((fa, k)) => Some((MessageView::FileChunkAck(fa), k)),
            }
        } else if tag == 10 {
            match dec_file_done(b, j) {
                None => None,
                Some((fd, k)) => Some((MessageView::FileDone(fd), k)),
            }
        } else if tag == 11 {
            match dec_file_done_result(b, j) {
                None => None,
                Some((fr, k)) => Some((MessageView::FileDoneResult(fr), k)),
            }
        } else {
            None
        },
    }
}

// ---------------------------------------------------------------------------
// Round-trip lemmas: an encoding placed anywhere inside a byte sequence
// decodes to the value it encodes and consumes exactly its own length.
// ---------------------------------------------------------------------------

/// Splitting a known subrange of `b` into its two concatenated halves.
pub proof fn lemma_split_at(b: Seq<u8>, i: int, s1: Seq<u8>, s2: Seq<u8>)
    requires
        0 <= i,
        i + s1.len() + s2.len() <= b.len(),
        b.subrange(i, i + s1.len() + s2.len()) == s1 + s2,
    ensures
        b.subrange(i, i + s1.len()) == s1,
        b.subrange(i + s1.len(), i + s1.len() + s2.len()) == s2,
{
    let n1 = s1.len() as int;
    let n2 = s2.len() as int;
    assert_seqs_equal!(b.subrange(i, i + n1) == s1, k => {
        assert(b.subrange(i, i + n1 + n2)[k] == (s1 + s2)[k]);
    });
    assert_seqs_equal!(b.subrange(i + n1, i + n1 + n2) == s2, k => {
        assert(b.subrange(i, i + n1 + n2)[n1 + k] == (s1 + s2)[n1 + k]);
    });
}

pub proof fn lemma_dec_varint(b: Seq<u8>, i: int, v: u64)
    requires
        0 <= i,
        i + enc_varint(v).len() <= b.len(),
        b.subrange(i, i + enc_varint(v).len()) == enc_varint(v),
    ensures
        dec_varint(b, i) == Some((v, i + enc_varint(v).len())),
{
    lemma_auto_spec_u16_to_from_le_bytes();
    lemma_auto_spec_u32_to_from_le_bytes();
    lemma_auto_spec_u64_to_from_le_bytes();
    let e = enc_varint(v);
    let n = e.len() as int;
    assert(b[i] == e[0]) by {
        assert(b.subrange(i, i + n)[0] == e[0]);
    }
    if v < 251 {
        assert(b[i] == v as u8);
    } else if v <= 0xFFFF {
        assert(b[i] == 251u8);
        assert_seqs_equal!(b.subrange(i + 1, i + 3) == spec_u16_to_le_bytes(v as u16), k => {
            assert(b.subrange(i, i + n)[1 + k] == e[1 + k]);
        });
    } else if v <= 0xFFFF_FFFF {
        assert(b[i] == 252u8);
        assert_seqs_equal!(b.subrange(i + 1, i + 5) == spec_u32_to_le_bytes(v as u32), k => {
            assert(b.subrange(i, i + n)[1 + k] == e[1 + k]);
        });
    } else {
        assert(b[i] == 253u8);
        assert_seqs_equal!(b.subrange(i + 1, i + 9) == spec_u64_to_le_bytes(v), k => {
            assert(b.subrange(i, i + n)[1 + k] == e[1 + k]);
        });
    }
}

pub proof fn lemma_dec_bool(b: Seq<u8>, i: int, v: bool)
    requires
        0 <= i,
        i + 1 <= b.len(),
        b.subrange(i, i + 1) == enc_bool(v),
    ensures
        dec_bool(b, i) == Some((v, i + 1)),
{
    assert(b.subrange(i, i + 1)[0] == enc_bool(v)[0]);
}

pub proof fn lemma_dec_id(b: Seq<u8>, i: int, v: u128)
    requires
        0 <= i,
        i + enc_id(v).len() <= b.len(),
        b.subrange(i, i + enc_id(v).len()) == enc_id(v),
    ensures
        enc_id(v).len() == 16,
        dec_id(b, i) == Some((v, i + 16)),
{
    lemma_auto_spec_u128_to_from_le_bytes();
    assert(b.subrange(i, i + 16) == spec_u128_to_le_bytes(v));
}

pub proof fn lemma_dec_bytes(b: Seq<u8>, i: int, s: Seq<u8>)
    requires
        0 <= i,
        fits_varint(s.len()),
        i + enc_bytes(s).len() <= b.len(),
        b.subrange(i, i + enc_bytes(s).len()) == enc_bytes(s),
    ensures
        dec_bytes(b, i) == Some((s, i + enc_bytes(s).len())),
{
    let ev = enc_varint(s.len() as u64);
    lemma_split_at(b, i, ev, s);
    lemma_dec_varint(b, i, s.len() as u64);
    let j = i + ev.len() as int;
    assert(b.subrange(j, j + s.len()) == s);
}

pub proof fn lemma_dec_string(b: Seq<u8>, i: int, s: Seq<char>)
    requires
        0 <= i,
        wf_string(s),
        i + enc_string(s).len() <= b.len(),
        b.subrange(i, i + enc_string(s).len()) == enc_string(s),
    ensures
        dec_string(b, i) == Some((s, i + enc_string(s).len())),
{
    let u = encode_utf8(s);
    lemma_dec_bytes(b, i, u);
    encode_utf8_valid_utf8(s);
    encode_utf8_decode_utf8(s);
}

pub proof fn lemma_dec_opt_string(b: Seq<u8>, i: int, o: Option<Seq<char>>)
    requires
        0 <= i,
        wf_opt_string(o),
        i + enc_opt_string(o).len() <= b.len(),
        b.subrange(i, i + enc_opt_string(o).len()) == enc_opt_string(o),
    ensures
        dec_opt_string(b, i) == Some((o, i + enc_opt_string(o).len())),
{
    match o {
        None => {
            assert(b.subrange(i, i + 1)[0] == enc_opt_string(o)[0]);
            lemma_dec_bool(b, i, false);
        },
        Some(s) => {
            lemma_split_at(b, i, seq![1u8], enc_string(s));
            lemma_dec_bool(b, i, true);
            lemma_dec_string(b, i + 1, s);
        },
    }
}

pub proof fn lemma_dec_connection_info(b: Seq<u8>, i: int, c: ConnectionInfoView)
    requires
        0 <= i,
        wf_string(c.name),
        wf_string(c.backend_version),
        i + enc_connection_info(c).len() <= b.len(),
        b.subrange(i, i + enc_connection_info(c).len()) == enc_connection_info(c),
    ensures
        dec_connection_info(b, i) == Some((c, i + enc_connection_info(c).len())),
{
    let e1 = enc_string(c.name);
    let e2 = enc_string(c.backend_version);
    lemma_split_at(b, i, e1, e2);
    lemma_dec_string(b, i, c.name);
    lemma_dec_string(b, i + e1.len(), c.backend_version);
}

pub proof fn lemma_dec_connection_response(b: Seq<u8>, i: int, c: ConnectionResponseView)
    requires
        0 <= i,
        wf_opt_string(c.message),
        (c.permit matches ConnectionPermitView::Permit { identitiy } ==> wf_string(identitiy.name)
            && wf_string(identitiy.backend_version)),
        i + enc_connection_response(c).len() <= b.len(),
        b.subrange(i, i + enc_connection_response(c).len()) == enc_connection_response(c),
    ensures
        dec_connection_response(b, i) == Some((c, i + enc_connection_response(c).len())),
{
    match c.permit {
        ConnectionPermitView::Permit { identitiy } => {
            let ep = seq![0u8] + enc_connection_info(identitiy);
            let em = enc_opt_string(c.message);
            lemma_split_at(b, i, ep, em);
            lemma_split_at(b, i, seq![0u8], enc_connection_info(identitiy));
            lemma_dec_bool(b, i, false);
            lemma_dec_connection_info(b, i + 1, identitiy);
            lemma_dec_opt_string(b, i + ep.len(), c.message);
        },
        ConnectionPermitView::Deny => {
            lemma_split_at(b, i, seq![1u8], enc_opt_string(c.message));
            lemma_dec_bool(b, i, true);
            lemma_dec_opt_string(b, i + 1, c.message);
        },
    }
}

pub proof fn lemma_dec_disconnect_request(b: Seq<u8>, i: int, d: DisconnectRequestView)
    requires
        0 <= i,
        wf_opt_string(d.message),
        i + enc_disconnect_request(d).len() <= b.len(),
        b.subrange(i, i + enc_disconnect_request(d).len()) == enc_disconnect_request(d),
    ensures
        dec_disconnect_request(b, i) == Some((d, i + enc_disconnect_request(d).len())),
{
    lemma_dec_opt_string(b, i, d.message);
}

pub proof fn lemma_dec_file_offer(b: Seq<u8>, i: int, f: FileOfferView)
    requires
        0 <= i,
        wf_string(f.filename),
        i + enc_file_offer(f).len() <= b.len(),
        b.subrange(i, i + enc_file_offer(f).len()) == enc_file_offer(f),
    ensures
        dec_file_offer(b, i) == Some((f, i + enc_file_offer(f).len())),
{
    let e1 = enc_string(f.filename);
    let e2 = enc_id(f.unique_id);
    let e3 = enc_varint(f.size);
    let e4 = enc_varint(f.chunk_len);
    lemma_split_at(b, i, e1 + e2 + e3, e4);
    lemma_split_at(b, i, e1 + e2, e3);
    lemma_split_at(b, i, e1, e2);
    lemma_dec_string(b, i, f.filename);
    lemma_dec_id(b, i + e1.len(), f.unique_id);
    lemma_dec_varint(b, i + e1.len() + e2.len(), f.size);
    lemma_dec_varint(b, i + e1.len() + e2.len() + e3.len(), f.chunk_len);
}

pub proof fn lemma_dec_file_offer_response(b: Seq<u8>, i: int, f: FileOfferResponseView)
    requires
        0 <= i,
        i + enc_file_offer_response(f).len() <= b.len(),
        b.subrange(i, i + enc_file_offer_response(f).len()) == enc_file_offer_response(f),
    ensures
        dec_file_offer_response(b, i) == Some((f, i + enc_file_offer_response(f).len())),
{
    let e1 = enc_id(f.unique_id);
    lemma_split_at(b, i, e1, enc_bool(f.accept));
    lemma_dec_id(b, i, f.unique_id);
    lemma_dec_bool(b, i + e1.len(), f.accept);
}

pub proof fn lemma_dec_file_chunk(b: Seq<u8>, i: int, f: FileChunkView)
    requires
        0 <= i,
        fits_varint(f.data.len()),
        i + enc_file_chunk(f).len() <= b.len(),
        b.subrange(i, i + enc_file_chunk(f).len()) == enc_file_chunk(f),
    ensures
        dec_file_chunk(b, i) == Some((f, i + enc_file_chunk(f).len())),
{
    let e1 = enc_id(f.unique_id);
    let e2 = enc_varint(f.chunk_id);
    let e3 = enc_varint(f.chunk_count);
    let e4 = enc_bytes(f.data);
    lemma_split_at(b, i, e1 + e2 + e3, e4);
    lemma_split_at(b, i, e1 + e2, e3);
    lemma_split_at(b, i, e1, e2);
    lemma_dec_id(b, i, f.unique_id);
    lemma_dec_varint(b, i + e1.len(), f.chunk_id);
    lemma_dec_varint(b, i + e1.len() + e2.len(), f.chunk_count);
    lemma_dec_bytes(b, i + e1.len() + e2.len() + e3.len(), f.data);
}

pub proof fn lemma_dec_file_chunk_ack(b: Seq<u8>, i: int, f: FileChunkAckView)
    requires
        0 <= i,
        i + enc_file_chunk_ack(f).len() <= b.len(),
        b.subrange(i, i + enc_file_chunk_ack(f).len()) == enc_file_chunk_ack(f),
    ensures
        dec_file_chunk_ack(b, i) == Some((f, i + enc_file_chunk_ack(f).len())),
{
    let e1 = enc_id(f.unique_id);
    lemma_split_at(b, i, e1, enc_varint(f.chunk_id));
    lemma_dec_id(b, i, f.unique_id);
    lemma_dec_varint(b, i + e1.len(), f.chunk_id);
}

pub proof fn lemma_dec_file_done(b: Seq<u8>, i: int, f: FileDoneView)
    requires
        0 <= i,
        fits_varint(f.checksum.len()),
        i + enc_file_done(f).len() <= b.len(),
        b.subrange(i, i + enc_file_done(f).len()) == enc_file_done(f),
    ensures
        dec_file_done(b, i) == Some((f, i + enc_file_done(f).len())),
{
    let e1 = enc_id(f.unique_id);
    lemma_split_at(b, i, e1, enc_bytes(f.checksum));
    lemma_dec_id(b, i, f.unique_id);
    lemma_dec_bytes(b, i + e1.len(), f.checksum);
}

pub proof fn lemma_dec_file_done_result(b: Seq<u8>, i: int, f: FileDoneResultView)
    requires
        0 <= i,
        wf_opt_string(f.message),
        i + enc_file_done_result(f).len() <= b.len(),
        b.subrange(i, i + enc_file_done_result(f).len()) == enc_file_done_result(f),
    ensures
        dec_file_done_result(b, i) == Some((f, i + enc_file_done_result(f).len())),
{
    let e1 = enc_id(f.unique_id);
    let e2 = enc_bool(f.success);
    let e3 = enc_opt_string(f.message);
    lemma_split_at(b, i, e1 + e2, e3);
    lemma_split_at(b, i, e1, e2);
    lemma_dec_id(b, i, f.unique_id);
    lemma_dec_bool(b, i + e1.len(), f.success);
    lemma_dec_opt_string(b, i + e1.len() + e2.len(), f.message);
}

pub proof fn lemma_dec_message(b: Seq<u8>, i: int, m: MessageView)
    requires
        0 <= i,
        wf_message(m),
        i + enc_message(m).len() <= b.len(),
        b.subrange(i, i + enc_message(m).len()) == enc_message(m),
    ensures
        dec_message(b, i) == Some((m, i + enc_message(m).len())),
{
    let et = enc_varint(message_tag(m));
    let eb = enc_message_body(m);
    lemma_split_at(b, i, et, eb);
    lemma_dec_varint(b, i, message_tag(m));
    let j = i + et.len() as int;
    match m {
        MessageView::KeepAlive => {},
        MessageView::ConnectRequest(ci) => {
            lemma_dec_connection_info(b, j, ci);
        },
        MessageView::ConnectResponse(cr) => {
            lemma_dec_connection_response(b, j, cr);
        },
        MessageView::DisconnectRequest(dr) => {
            lemma_dec_disconnect_request(b, j, dr);
        },
        MessageView::DisconnectAck => {},
        MessageView::ImmediateConnectionClose(dr) => {
            lemma_dec_disconnect_request(b, j, dr);
        },
        MessageView::FileOfferRequest(fo) => {
            lemma_dec_file_offer(b, j, fo);
        },
        MessageView::FileOfferResponse(fr) => {
            lemma_dec_file_offer_response(b, j, fr);
        },
        MessageView::FileChunk(fc) => {
            lemma_dec_file_chunk(b, j, fc);
        },
        MessageView::FileChunkAck(fa) => {
            lemma_dec_file_chunk_ack(b, j, fa);
        },
        MessageView::FileDone(fd) => {
            lemma_dec_file_done(b, j, fd);
        },
        MessageView::FileDoneResult(fr) => {
            lemma_dec_file_done_result(b, j, fr);
        },
    }
}

/// Codec round trip: decoding the encoding of any well-formed message yields
/// that message back and consumes the whole encoding.
pub proof fn lemma_codec_round_trip(m: MessageView)
    requires
        wf_message(m),
    ensures
        dec_message(enc_message(m), 0) == Some((m, enc_message(m).len() as int)),
{
    let e = enc_message(m);
    assert(e.subrange(0, e.len() as int) == e) by {
        assert_seqs_equal!(e.subrange(0, e.len() as int) == e);
    }
    lemma_dec_message(e, 0, m);
}

// ---------------------------------------------------------------------------
// Exec encoder
// ---------------------------------------------------------------------------

fn enc_varint_x(out: &mut Vec<u8>, v: u64)
    ensures
        final(out)@ == old(out)@ + enc_varint(v),
{
    if v < 251 {
        out.push(v as u8);
        assert(out@ == old(out)@ + enc_varint(v)) by {
            assert_seqs_equal!(old(out)@.push(v as u8) == old(out)@ + enc_varint(v));
        }
    } else if v <= 0xFFFF {
        out.push(251u8);
        let mut bs = u16_to_le_bytes(v as u16);
        out.append(&mut bs);
        assert(out@ == old(out)@ + enc_varint(v)) by {
            assert_seqs_equal!(old(out)@.push(251u8) + spec_u16_to_le_bytes(v as u16)
                == old(out)@ + enc_varint(v));
        }
    } else if v <= 0xFFFF_FFFF {
        out.push(252u8);
        let mut bs = u32_to_le_bytes(v as u32);
        out.append(&mut bs);
        assert(out@ == old(out)@ + enc_varint(v)) by {
            assert_seqs_equal!(old(out)@.push(252u8) + spec_u32_to_le_bytes(v as u32)
                == old(out)@ + enc_varint(v));
        }
    } else {
        out.push(253u8);
        let mut bs = u64_to_le_bytes(v);
        out.append(&mut bs);
        assert(out@ == old(out)@ + enc_varint(v)) by {
            assert_seqs_equal!(old(out)@.push(253u8) + spec_u64_to_le_bytes(v)
                == old(out)@ + enc_varint(v));
        }
    }
}

fn enc_bool_x(out: &mut Vec<u8>, v: bool)
    ensures
        final(out)@ == old(out)@ + enc_bool(v),
{
    out.push(if v { 1u8 } else { 0u8 });
    proof {
        assert_seqs_equal!(out@ == old(out)@ + enc_bool(v));
    }
}

fn enc_id_x(out: &mut Vec<u8>, v: u128)
    ensures
        final(out)@ == old(out)@ + enc_id(v),
{
    let mut bs = u128_to_le_bytes(v);
    out.append(&mut bs);
}

fn enc_raw_x(out: &mut Vec<u8>, s: &Vec<u8>)
    ensures
        final(out)@ == old(out)@ + s@,
{
    let mut k: usize = 0;
    while k < s.len()
        invariant
            k <= s@.len(),
            out@ == old(out)@ + s@.subrange(0, k as int),
        decreases s@.len() - k,
    {
        out.push(s[k]);
        proof {
            assert_seqs_equal!(out@ == old(out)@ + s@.subrange(0, k + 1 as int));
        }
        k = k + 1;
    }
    proof {
        assert_seqs_equal!(s@.subrange(0, s@.len() as int) == s@);
    }
}

fn enc_bytes_x(out: &mut Vec<u8>, s: &Vec<u8>)
    ensures
        final(out)@ == old(out)@ + enc_bytes(s@),
{
    enc_varint_x(out, s.len() as u64);
    enc_raw_x(out, s);
    proof {
        assert_seqs_equal!(out@ == old(out)@ + enc_bytes(s@));
    }
}

fn enc_string_x(out: &mut Vec<u8>, s: &String)
    ensures
        final(out)@ == old(out)@ + enc_string(s@),
{
    let bs = s.as_str().as_bytes_vec();
    enc_bytes_x(out, &bs);
}

fn enc_opt_string_x(out: &mut Vec<u8>, o: &Option<String>)
    ensures
        final(out)@ == old(out)@ + enc_opt_string(opt_string_view(*o)),
{
    match o {
        None => {
            out.push(0u8);
            proof {
                assert_seqs_equal!(out@
                    == old(out)@ + enc_opt_string(opt_string_view(*o)));
            }
        },
        Some(s) => {
            out.push(1u8);
            enc_string_x(out, s);
            proof {
                assert_seqs_equal!(out@
                    == old(out)@ + enc_opt_string(opt_string_view(*o)));
            }
        },
    }
}

fn enc_connection_info_x(out: &mut Vec<u8>, c: &ConnectionInfo)
    ensures
        final(out)@ == old(out)@ + enc_connection_info(c@),
{
    enc_string_x(out, &c.name);
    enc_string_x(out, &c.backend_version);
    proof {
        assert_seqs_equal!(out@ == old(out)@ + enc_connection_info(c@));
    }
}

fn enc_connection_response_x(out: &mut Vec<u8>, c: &ConnectionResponse)
    ensures
        final(out)@ == old(out)@ + enc_connection_response(c@),
{
    match &c.permit {
        ConnectionPermit::Permit { identitiy } => {
            out.push(0u8);
            enc_connection_info_x(out, identitiy);
        },
        ConnectionPermit::Deny => {
            out.push(1u8);
        },
    }
    enc_opt_string_x(out, &c.message);
    proof {
        assert_seqs_equal!(out@ == old(out)@ + enc_connection_response(c@));
    }
}

fn enc_disconnect_request_x(out: &mut Vec<u8>, d: &DisconnectRequest)
    ensures
        final(out)@ == old(out)@ + enc_disconnect_request(d@),
{
    enc_opt_string_x(out, &d.message);
}

fn enc_file_offer_x(out: &mut Vec<u8>, f: &FileOffer)
    ensures
        final(out)@ == old(out)@ + enc_file_offer(f@),
{
    enc_string_x(out, &f.filename);
    enc_id_x(out, f.unique_id);
    enc_varint_x(out, f.size);
    enc_varint_x(out, f.chunk_len);
    proof {
        assert_seqs_equal!(out@ == old(out)@ + enc_file_offer(f@));
    }
}

fn enc_file_offer_response_x(out: &mut Vec<u8>, f: &FileOfferResponse)
    ensures
        final(out)@ == old(out)@ + enc_file_offer_response(f@),
{
    enc_id_x(out, f.unique_id);
    enc_bool_x(out, f.accept);
    proof {
        assert_seqs_equal!(out@ == old(out)@ + enc_file_offer_response(f@));
    }
}

fn enc_file_chunk_x(out: &mut Vec<u8>, f: &FileChunk)
    ensures
        final(out)@ == old(out)@ + enc_file_chunk(f@),
{
    enc_id_x(out, f.unique_id);
    enc_varint_x(out, f.chunk_id);
    enc_varint_x(out, f.chunk_count);
    enc_bytes_x(out, &f.data);
    proof {
        assert_seqs_equal!(out@ == old(out)@ + enc_file_chunk(f@));
    }
}

fn enc_file_chunk_ack_x(out: &mut Vec<u8>, f: &FileChunkAck)
    ensures
        final(out)@ == old(out)@ + enc_file_chunk_ack(f@),
{
    enc_id_x(out, f.unique_id);
    enc_varint_x(out, f.chunk_id);
    proof {
        assert_seqs_equal!(out@ == old(out)@ + enc_file_chunk_ack(f@));
    }
}

fn enc_file_done_x(out: &mut Vec<u8>, f: &FileDone)
    ensures
        final(out)@ == old(out)@ + enc_file_done(f@),
{
    enc_id_x(out, f.unique_id);
    enc_bytes_x(out, &f.checksum);
    proof {
        assert_seqs_equal!(out@ == old(out)@ + enc_file_done(f@));
    }
}

fn enc_file_done_result_x(out: &mut Vec<u8>, f: &FileDoneResult)
    ensures
        final(out)@ == old(out)@ + enc_file_done_result(f@),
{
    enc_id_x(out, f.unique_id);
    enc_bool_x(out, f.success);
    enc_opt_string_x(out, &f.message);
    proof {
        assert_seqs_equal!(out@ == old(out)@ + enc_file_done_result(f@));
    }
}

/// Encode a message into its wire payload bytes.
pub fn encode_message(m: &Message) -> (r: Vec<u8>)
    ensures
        r@ == enc_message(m@),
{
    let mut out: Vec<u8> = Vec::new();
    match m {
        Message::KeepAlive => {
            enc_varint_x(&mut out, 0);
        },
        Message::ConnectRequest(ci) => {
            enc_varint_x(&mut out, 1);
            enc_connection_info_x(&mut out, ci);
        },
        Message::ConnectResponse(cr) => {
            enc_varint_x(&mut out, 2);
            enc_connection_response_x(&mut out, cr);
        },
        Message::DisconnectRequest(dr) => {
            enc_varint_x(&mut out, 3);
            enc_disconnect_request_x(&mut out, dr);
        },
        Message::DisconnectAck => {
            enc_varint_x(&mut out, 4);
        },
        Message::ImmediateConnectionClose(dr) => {
            enc_varint_x(&mut out, 5);
            enc_disconnect_request_x(&mut out, dr);
        },
        Message::FileOfferRequest(fo) => {
            enc_varint_x(&mut out, 6);
            enc_file_offer_x(&mut out, fo);
        },
        Message::FileOfferResponse(fr) => {
            enc_varint_x(&mut out, 7);
            enc_file_offer_response_x(&mut out, fr);
        },
        Message::FileChunk(fc) => {
            enc_varint_x(&mut out, 8);
            enc_file_chunk_x(&mut out, fc);
        },
        Message::FileChunkAck(fa) => {
            enc_varint_x(&mut out, 9);
            enc_file_chunk_ack_x(&mut out, fa);
        },
        Message::FileDone(fd) => {
            enc_varint_x(&mut out, 10);
            enc_file_done_x(&mut out, fd);
        },
        Message::FileDoneResult(fr) => {
            enc_varint_x(&mut out, 11);
            enc_file_done_result_x(&mut out, fr);
        },
    }
    proof {
        assert_seqs_equal!(out@ == enc_message(m@));
    }
    out
}


// ---------------------------------------------------------------------------
// Exec decoder
// ---------------------------------------------------------------------------

/// Relies on core::str::from_utf8: it returns `Ok` exactly on valid UTF-8
/// input, and the resulting string's bytes are the input bytes.
#[verifier::external_body]
fn bytes_to_string(v: &[u8]) -> (r: Option<String>)
    ensures
        r matches Some(s) ==> valid_utf8(v@) && s@ == decode_utf8(v@),
        r is None ==> !valid_utf8(v@),
{
    match core::str::from_utf8(v) {
        Ok(s) => Some(s.to_owned()),
        Err(_) => None,
    }
}

fn dec_varint_x(b: &Vec<u8>, i: usize) -> (r: Option<(u64, usize)>)
    requires
        i <= b@.len(),
    ensures
        match r {
            Some((v, j)) => dec_varint(b@, i as int) == Some((v, j as int)) && i < j <= b@.len(),
            None => dec_varint(b@, i as int) is None,
        },
{
    if i >= b.len() {
        return None;
    }
    let t = b[i];
    if t < 251 {
        Some((t as u64, i + 1))
    } else if t == 251 {
        if b.len() - i >= 3 {
            let v = u16_from_le_bytes(slice_subrange(b.as_slice(), i + 1, i + 3));
            Some((v as u64, i + 3))
        } else {
            None
        }
    } else if t == 252 {
        if b.len() - i >= 5 {
            let v = u32_from_le_bytes(slice_subrange(b.as_slice(), i + 1, i + 5));
            Some((v as u64, i + 5))
        } else {
            None
        }
    } else if t == 253 {
        if b.len() - i >= 9 {
            let v = u64_from_le_bytes(slice_subrange(b.as_slice(), i + 1, i + 9));
            Some((v, i + 9))
        } else {
            None
        }
    } else {
        None
    }
}

fn dec_bool_x(b: &Vec<u8>, i: usize) -> (r: Option<(bool, usize)>)
    requires
        i <= b@.len(),
    ensures
        match r {
            Some((v, j)) => dec_bool(b@, i as int) == Some((v, j as int)) && i < j <= b@.len(),
            None => dec_bool(b@, i as int) is None,
        },
{
    if i >= b.len() {
        return None;
    }
    let t = b[i];
    if t == 0 {
        Some((false, i + 1))
    } else if t == 1 {
        Some((true, i + 1))
    } else {
        None
    }
}

fn dec_id_x(b: &Vec<u8>, i: usize) -> (r: Option<(u128, usize)>)
    requires
        i <= b@.len(),
    ensures
        match r {
            Some((v, j)) => dec_id(b@, i as int) == Some((v, j as int)) && i < j <= b@.len(),
            None => dec_id(b@, i as int) is None,
        },
{
    if b.len() - i >= 16 {
        let v = u128_from_le_bytes(slice_subrange(b.as_slice(), i, i + 16));
        Some((v, i + 16))
    } else {
        None
    }
}

fn dec_bytes_x(b: &Vec<u8>, i: usize) -> (r: Option<(Vec<u8>, usize)>)
    requires
        i <= b@.len(),
    ensures
        match r {
            Some((v, j)) => dec_bytes(b@, i as int) == Some((v@, j as int)) && i < j <= b@.len(),
            None => dec_bytes(b@, i as int) is None,
        },
{
    match dec_varint_x(b, i) {
        None => None,
        Some((n, j)) => {
            if n <= (b.len() - j) as u64 {
                let k = j + (n as usize);
                let v = vstd::slice::slice_to_vec(slice_subrange(b.as_slice(), j, k));
                Some((v, k))
            } else {
                None
            }
        },
    }
}

fn dec_string_x(b: &Vec<u8>, i: usize) -> (r: Option<(String, usize)>)
    requires
        i <= b@.len(),
    ensures
        match r {
            Some((v, j)) => dec_string(b@, i as int) == Some((v@, j as int)) && i < j <= b@.len(),
            None => dec_string(b@, i as int) is None,
        },
{
    match dec_bytes_x(b, i) {
        None => None,
        Some((bs, j)) => match bytes_to_string(bs.as_slice()) {
            None => None,
            Some(s) => Some((s, j)),
        },
    }
}

fn dec_opt_string_x(b: &Vec<u8>, i: usize) -> (r: Option<(Option<String>, usize)>)
    requires
        i <= b@.len(),
    ensures
        match r {
            Some((v, j)) => dec_opt_string(b@, i as int) == Some((opt_string_view(v), j as int))
                && i < j <= b@.len(),
            None => dec_opt_string(b@, i as int) is None,
        },
{
    match dec_bool_x(b, i) {
        None => None,
        Some((present, j)) => {
            if present {
                match dec_string_x(b, j) {
                    None => None,
                    Some((s, k)) => Some((Some(s), k)),
                }
            } else {
                Some((None, j))
            }
        },
    }
}

fn dec_connection_info_x(b: &Vec<u8>, i: usize) -> (r: Option<(ConnectionInfo, usize)>)
    requires
        i <= b@.len(),
    ensures
        match r {
            Some((v, j)) => dec_connection_info(b@, i as int) == Some((v@, j as int)) && i < j
                <= b@.len(),
            None => dec_connection_info(b@, i as int) is None,
        },
{
    match dec_string_x(b, i) {
        None => None,
        Some((name, j)) => match dec_string_x(b, j) {
            None => None,
            Some((ver, k)) => Some((ConnectionInfo { name, backend_version: ver }, k)),
        },
    }
}

fn dec_connection_response_x(b: &Vec<u8>, i: usize) -> (r: Option<(ConnectionResponse, usize)>)
    requires
        i <= b@.len(),
    ensures
        match r {
            Some((v, j)) => dec_connection_response(b@, i as int) == Some((v@, j as int)) && i < j
                <= b@.len(),
            None => dec_connection_response(b@, i as int) is None,
        },
{
    match dec_bool_x(b, i) {
        None => None,
        Some((deny, j)) => {
            if !deny {
                match dec_connection_info_x(b, j) {
                    None => None,
                    Some((ci, k)) => match dec_opt_string_x(b, k) {
                        None => None,
                        Some((msg, l)) => Some(
                            (
                                ConnectionResponse {
                                    permit: ConnectionPermit::Permit { identitiy: ci },
                                    message: msg,
                                },
                                l,
                            ),
                        ),
                    },
                }
            } else {
                match dec_opt_string_x(b, j) {
                    None => None,
                    Some((msg, l)) => Some(
                        (ConnectionResponse { permit: ConnectionPermit::Deny, message: msg }, l),
                    ),
                }
            }
        },
    }
}

fn dec_disconnect_request_x(b: &Vec<u8>, i: usize) -> (r: Option<(DisconnectRequest, usize)>)
    requires
        i <= b@.len(),
    ensures
        match r {
            Some((v, j)) => dec_disconnect_request(b@, i as int) == Some((v@, j as int)) && i < j
                <= b@.len(),
            None => dec_disconnect_request(b@, i as int) is None,
        },
{
    match dec_opt_string_x(b, i) {
        None => None,
        Some((msg, j)) => Some((DisconnectRequest { message: msg }, j)),
    }
}

fn dec_file_offer_x(b: &Vec<u8>, i: usize) -> (r: Option<(FileOffer, usize)>)
    requires
        i <= b@.len(),
    ensures
        match r {
            Some((v, j)) => dec_file_offer(b@, i as int) == Some((v@, j as int)) && i < j
                <= b@.len(),
            None => dec_file_offer(b@, i as int) is None,
        },
{
    match dec_string_x(b, i) {
        None => None,
        Some((filename, j)) => match dec_id_x(b, j) {
            None => None,
            Some((id, k)) => match dec_varint_x(b, k) {
                None => None,
                Some((size, l)) => match dec_varint_x(b, l) {
                    None => None,
                    Some((chunk_len, m)) => Some(
                        (FileOffer { filename, unique_id: id, size, chunk_len }, m),
                    ),
                },
            },
        },
    }
}

fn dec_file_offer_response_x(b: &Vec<u8>, i: usize) -> (r: Option<(FileOfferResponse, usize)>)
    requires
        i <= b@.len(),
    ensures
        match r {
            Some((v, j)) => dec_file_offer_response(b@, i as int) == Some((v@, j as int)) && i < j
                <= b@.len(),
            None => dec_file_offer_response(b@, i as int) is None,
        },
{
    match dec_id_x(b, i) {
        None => None,
        Some((id, j)) => match dec_bool_x(b, j) {
            None => None,
            Some((accept, k)) => Some((FileOfferResponse { unique_id: id, accept }, k)),
        },
    }
}

fn dec_file_chunk_x(b: &Vec<u8>, i: usize) -> (r: Option<(FileChunk, usize)>)
    requires
        i <= b@.len(),
    ensures
        match r {
            Some((v, j)) => dec_file_chunk(b@, i as int) == Some((v@, j as int)) && i < j
                <= b@.len(),
            None => dec_file_chunk(b@, i as int) is None,
        },
{
    match dec_id_x(b, i) {
        None => None,
        Some((id, j)) => match dec_varint_x(b, j) {
            None => None,
            Some((chunk_id, k)) => match dec_varint_x(b, k) {
                None => None,
                Some((chunk_count, l)) => match dec_bytes_x(b, l) {
                    None => None,
                    Some((data, m)) => Some(
                        (FileChunk { unique_id: id, chunk_id, chunk_count, data }, m),
                    ),
                },
            },
        },
    }
}

fn dec_file_chunk_ack_x(b: &Vec<u8>, i: usize) -> (r: Option<(FileChunkAck, usize)>)
    requires
        i <= b@.len(),
    ensures
        match r {
            Some((v, j)) => dec_file_chunk_ack(b@, i as int) == Some((v@, j as int)) && i < j
                <= b@.len(),
            None => dec_file_chunk_ack(b@, i as int) is None,
        },
{
    match dec_id_x(b, i) {
        None => None,
        Some((id, j)) => match dec_varint_x(b, j) {
            None => None,
            Some((chunk_id, k)) => Some((FileChunkAck { unique_id: id, chunk_id }, k)),
        },
    }
}

fn dec_file_done_x(b: &Vec<u8>, i: usize) -> (r: Option<(FileDone, usize)>)
    requires
        i <= b@.len(),
    ensures
        match r {
            Some((v, j)) => dec_file_done(b@, i as int) == Some((v@, j as int)) && i < j
                <= b@.len(),
            None => dec_file_done(b@, i as int) is None,
        },
{
    match dec_id_x(b, i) {
        None => None,
        Some((id, j)) => match dec_bytes_x(b, j) {
            None => None,
            Some((checksum, k)) => Some((FileDone { unique_id: id, checksum }, k)),
        },
    }
}

fn dec_file_done_result_x(b: &Vec<u8>, i: usize) -> (r: Option<(FileDoneResult, usize)>)
    requires
        i <= b@.len(),
    ensures
        match r {
            Some((v, j)) => dec_file_done_result(b@, i as int) == Some((v@, j as int)) && i < j
                <= b@.len(),
            None => dec_file_done_result(b@, i as int) is None,
        },
{
    match dec_id_x(b, i) {
        None => None,
        Some((id, j)) => match dec_bool_x(b, j) {
            None => None,
            Some((success, k)) => match dec_opt_string_x(b, k) {
                None => None,
                Some((msg, l)) => Some(
                    (FileDoneResult { unique_id: id, success, message: msg }, l),
                ),
            },
        },
    }
}

/// Decode one message starting at the head of the payload, returning it with
/// the number of bytes consumed.
pub fn decode_message(b: &Vec<u8>) -> (r: Option<(Message, usize)>)
    ensures
        match r {
            Some((m, j)) => dec_message(b@, 0) == Some((m@, j as int)) && j <= b@.len(),
            None => dec_message(b@, 0) is None,
        },
{
    match dec_varint_x(b, 0) {
        None => None,
        Some((tag, j)) => {
            if tag == 0 {
                Some((Message::KeepAlive, j))
            } else if tag == 1 {
                match dec_connection_info_x(b, j) {
                    None => None,
                    Some((ci, k)) => Some((Message::ConnectRequest(ci), k)),
                }
            } else if tag == 2 {
                match dec_connection_response_x(b, j) {
                    None => None,
                    Some((cr, k)) => Some((Message::ConnectResponse(cr), k)),
                }
            } else if tag == 3 {
                match dec_disconnect_request_x(b, j) {
                    None => None,
                    Some((dr, k)) => Some((Message::DisconnectRequest(dr), k)),
                }
            } else if tag == 4 {
                Some((Message::DisconnectAck, j))
            } else if tag == 5 {
                match dec_disconnect_request_x(b, j) {
                    None => None,
                    Some((dr, k)) => Some((Message::ImmediateConnectionClose(dr), k)),
                }
            } else if tag == 6 {
                match dec_file_offer_x(b, j) {
                    None => None,
                    Some((fo, k)) => Some((Message::FileOfferRequest(fo), k)),
                }
            } else if tag == 7 {
                match dec_file_offer_response_x(b, j) {
                    None => None,
                    Some((fr, k)) => Some((Message::FileOfferResponse(fr), k)),
                }
            } else if tag == 8 {
                match dec_file_chunk_x(b, j) {
                    None => None,
                    Some((fc, k)) => Some((Message::FileChunk(fc), k)),
                }
            } else if tag == 9 {
                match dec_file_chunk_ack_x(b, j) {
                    None => None,
                    Some((fa, k)) => Some((Message::FileChunkAck(fa), k)),
                }
            } else if tag == 10 {
                match dec_file_done_x(b, j) {
                    None => None,
                    Some((fd, k)) => Some((Message::FileDone(fd), k)),
                }
            } else if tag == 11 {
                match dec_file_done_result_x(b, j) {
                    None => None,
                    Some((fr, k)) => Some((Message::FileDoneResult(fr), k)),
                }
            } else {
                None
            }
        },
    }
}


// ---------------------------------------------------------------------------
// Frames: 4-byte big-endian length header followed by the payload.
// ---------------------------------------------------------------------------

pub open spec fn spec_u32_to_be_bytes(x: u32) -> Seq<u8> {
    seq![
        ((x >> 24) & 0xff) as u8,
        ((x >> 16) & 0xff) as u8,
        ((x >> 8) & 0xff) as u8,
        (x & 0xff) as u8,
    ]
}

pub open spec fn spec_u32_from_be_bytes(s: Seq<u8>) -> u32
    recommends
        s.len() == 4,
{
    ((s[0] as u32) << 24) | ((s[1] as u32) << 16) | ((s[2] as u32) << 8) | (s[3] as u32)
}

pub proof fn lemma_u32_be_bytes_round_trip(x: u32)
    ensures
        spec_u32_to_be_bytes(x).len() == 4,
        spec_u32_from_be_bytes(spec_u32_to_be_bytes(x)) == x,
{
    assert((((((x >> 24) & 0xff) as u8) as u32) << 24) | (((((x >> 16) & 0xff) as u8) as u32)
        << 16) | (((((x >> 8) & 0xff) as u8) as u32) << 8) | (((x & 0xff) as u8) as u32) == x)
        by (bit_vector);
}

/// The view of a whole wire frame carrying `payload`.
pub open spec fn spec_frame(payload: Seq<u8>) -> Seq<u8>
    recommends
        payload.len() <= u32::MAX,
{
    spec_u32_to_be_bytes(payload.len() as u32) + payload
}

fn u32_to_be_bytes_x(x: u32) -> (r: Vec<u8>)
    ensures
        r@ == spec_u32_to_be_bytes(x),
{
    let mut r: Vec<u8> = Vec::new();
    r.push(((x >> 24) & 0xff) as u8);
    r.push(((x >> 16) & 0xff) as u8);
    r.push(((x >> 8) & 0xff) as u8);
    r.push((x & 0xff) as u8);
    proof {
        assert_seqs_equal!(r@ == spec_u32_to_be_bytes(x));
    }
    r
}

/// Parse a received 4-byte length header.
pub fn parse_frame_len(b: &Vec<u8>) -> (r: u32)
    requires
        b@.len() == 4,
    ensures
        r == spec_u32_from_be_bytes(b@),
{
    (((b[0] as u32) << 24) as u32) | (((b[1] as u32) << 16) as u32) | (((b[2] as u32) << 8) as u32)
        | (b[3] as u32)
}

/// Build the wire frame for a message: the 4-byte big-endian payload length
/// followed by the payload. Refuses a payload over [`crate::MAX_MESSAGE_SIZE`]
/// bytes, so every frame this returns respects the protocol's size bound.
pub fn encode_frame(m: &Message) -> (r: Option<Vec<u8>>)
    ensures
        match r {
            Some(f) => enc_message(m@).len() <= crate::MAX_MESSAGE_SIZE && f@ == spec_frame(
                enc_message(m@),
            ) && f@.len() == 4 + enc_message(m@).len(),
            None => enc_message(m@).len() > crate::MAX_MESSAGE_SIZE,
        },
{
    let payload = encode_message(m);
    if payload.len() > crate::MAX_MESSAGE_SIZE {
        return None;
    }
    let mut f = u32_to_be_bytes_x(payload.len() as u32);
    let mut p = payload;
    f.append(&mut p);
    Some(f)
}

} // verus!


