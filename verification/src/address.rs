//! Peer transport endpoints as plain values.
//!
//! A peer is identified by an IP address and a port. The engine keeps
//! addresses as integers; the textual `"host:port"` form used by the user
//! command channel and by notifications is handled by a verified parser and
//! formatter. IPv6 addresses use the full, uncompressed eight-group form.

use vstd::prelude::*;
use vstd::assert_seqs_equal;
use vstd::string::{StrSliceExecFns, StringExecFns};

verus! {

/// An IP address: four octets, or eight 16-bit groups.
#[derive(Debug, Clone, Copy, PartialEq, Eq, Hash, Structural)]
pub enum IpValue {
    V4 { a: u8, b: u8, c: u8, d: u8 },
    V6 { g0: u16, g1: u16, g2: u16, g3: u16, g4: u16, g5: u16, g6: u16, g7: u16 },
}

/// A transport endpoint. Equality on it defines identity in the registry.
#[derive(Debug, Clone, Copy, PartialEq, Eq, Hash, Structural)]
pub struct PeerAddress {
    pub ip: IpValue,
    pub port: u16,
}

// ---------------------------------------------------------------------------
// Digits
// ---------------------------------------------------------------------------

pub open spec fn is_dec_digit(c: char) -> bool {
    '0' <= c && c <= '9'
}

pub open spec fn dec_digit_val(c: char) -> nat {
    (c as nat - '0' as nat) as nat
}

pub open spec fn is_hex_digit(c: char) -> bool {
    is_dec_digit(c) || ('a' <= c && c <= 'f') || ('A' <= c && c <= 'F')
}

pub open spec fn hex_digit_val(c: char) -> nat {
    if is_dec_digit(c) {
        dec_digit_val(c)
    } else if 'a' <= c && c <= 'f' {
        (c as nat - 'a' as nat + 10) as nat
    } else {
        (c as nat - 'A' as nat + 10) as nat
    }
}

/// First position at or after `i` that does not hold a decimal digit.
pub open spec fn dec_digits_end(s: Seq<char>, i: int) -> int
    decreases s.len() - i,
{
    if 0 <= i < s.len() && is_dec_digit(s[i]) {
        dec_digits_end(s, i + 1)
    } else {
        i
    }
}

/// Value of the decimal digits `s[i..j)`.
pub open spec fn dec_val(s: Seq<char>, i: int, j: int) -> nat
    decreases j - i,
{
    if i < j {
        dec_val(s, i, j - 1) * 10 + dec_digit_val(s[j - 1])
    } else {
        0
    }
}

/// First position at or after `i` that does not hold a hexadecimal digit.
pub open spec fn hex_digits_end(s: Seq<char>, i: int) -> int
    decreases s.len() - i,
{
    if 0 <= i < s.len() && is_hex_digit(s[i]) {
        hex_digits_end(s, i + 1)
    } else {
        i
    }
}

/// Value of the hexadecimal digits `s[i..j)`.
pub open spec fn hex_val(s: Seq<char>, i: int, j: int) -> nat
    decreases j - i,
{
    if i < j {
        hex_val(s, i, j - 1) * 16 + hex_digit_val(s[j - 1])
    } else {
        0
    }
}

// ---------------------------------------------------------------------------
// Spec-level address grammar
// ---------------------------------------------------------------------------

/// One to three decimal digits with a value up to 255.
pub open spec fn p_octet(s: Seq<char>, i: int) -> Option<(u8, int)> {
    let j = dec_digits_end(s, i);
    if i < j && j <= i + 3 && dec_val(s, i, j) <= 255 {
        Some(((dec_val(s, i, j) as u8), j))
    } else {
        None
    }
}

/// One to five decimal digits with a value up to 65535.
pub open spec fn p_port(s: Seq<char>, i: int) -> Option<(u16, int)> {
    let j = dec_digits_end(s, i);
    if i < j && j <= i + 5 && dec_val(s, i, j) <= 65535 {
        Some(((dec_val(s, i, j) as u16), j))
    } else {
        None
    }
}

/// One to four hexadecimal digits.
pub open spec fn p_group(s: Seq<char>, i: int) -> Option<(u16, int)> {
    let j = hex_digits_end(s, i);
    if i < j && j <= i + 4 && hex_val(s, i, j) <= 65535 {
        Some(((hex_val(s, i, j) as u16), j))
    } else {
        None
    }
}

/// The literal character `c` at position `i`.
pub open spec fn p_char(s: Seq<char>, i: int, c: char) -> Option<int> {
    if 0 <= i < s.len() && s[i] == c {
        Some(i + 1)
    } else {
        None
    }
}

pub open spec fn p_octet_dot(s: Seq<char>, i: int) -> Option<(u8, int)> {
    match p_octet(s, i) {
        None => None,
        Some((v, j)) => match p_char(s, j, '.') {
            None => None,
            Some(k) => Some((v, k)),
        },
    }
}

pub open spec fn p_group_colon(s: Seq<char>, i: int) -> Option<(u16, int)> {
    match p_group(s, i) {
        None => None,
        Some((v, j)) => match p_char(s, j, ':') {
            None => None,
            Some(k) => Some((v, k)),
        },
    }
}

/// `a.b.c.d:port`, consuming all of `s`.
pub open spec fn parse_v4_addr(s: Seq<char>) -> Option<PeerAddress> {
    match p_octet_dot(s, 0) {
        None => None,
        Some((a, i1)) => match p_octet_dot(s, i1) {
            None => None,
            Some((b, i2)) => match p_octet_dot(s, i2) {
                None => None,
                Some((c, i3)) => match p_octet(s, i3) {
                    None => None,
                    Some((d, i4)) => match p_char(s, i4, ':') {
                        None => None,
                        Some(i5) => match p_port(s, i5) {
                            None => None,
                            Some((port, i6)) => if i6 == s.len() {
                                Some(PeerAddress { ip: IpValue::V4 { a, b, c, d }, port })
                            } else {
                                None
                            },
                        },
                    },
                },
            },
        },
    }
}

/// `[g0:g1:g2:g3:g4:g5:g6:g7]:port` (uncompressed groups), consuming all of `s`.
pub open spec fn parse_v6_addr(s: Seq<char>) -> Option<PeerAddress> {
    match p_char(s, 0, '[') {
        None => None,
        Some(i0) => match p_group_colon(s, i0) {
            None => None,
            Some((g0, i1)) => match p_group_colon(s, i1) {
                None => None,
                Some((g1, i2)) => match p_group_colon(s, i2) {
                    None => None,
                    Some((g2, i3)) => match p_group_colon(s, i3) {
                        None => None,
                        Some((g3, i4)) => match p_group_colon(s, i4) {
                            None => None,
                            Some((g4, i5)) => match p_group_colon(s, i5) {
                                None => None,
                                Some((g5, i6)) => match p_group_colon(s, i6) {
                                    None => None,
                                    Some((g6, i7)) => match p_group(s, i7) {
                                        None => None,
                                        Some((g7, i8)) => match p_char(s, i8, ']') {
                                            None => None,
                                            Some(i9) => match p_char(s, i9, ':') {
                                                None => None,
                                                Some(i10) => match p_port(s, i10) {
                                                    None => None,
                                                    Some((port, i11)) => if i11 == s.len() {
                                                        Some(
                                                            PeerAddress {
                                                                ip: IpValue::V6 {
                                                                    g0,
                                                                    g1,
                                                                    g2,
                                                                    g3,
                                                                    g4,
                                                                    g5,
                                                                    g6,
                                                                    g7,
                                                                },
                                                                port,
                                                            },
                                                        )
                                                    } else {
                                                        None
                                                    },
                                                },
                                            },
                                        },
                                    },
                                },
                            },
                        },
                    },
                },
            },
        },
    }
}

/// The address grammar: a bracketed IPv6 form where the text starts with
/// `'['`, the dotted IPv4 form otherwise.
pub open spec fn parse_socket_addr(s: Seq<char>) -> Option<PeerAddress> {
    if s.len() > 0 && s[0] == '[' {
        parse_v6_addr(s)
    } else {
        parse_v4_addr(s)
    }
}


// ---------------------------------------------------------------------------
// Exec parser
// ---------------------------------------------------------------------------

pub open spec fn pow10(n: nat) -> nat
    decreases n,
{
    if n == 0 {
        1
    } else {
        10 * pow10((n - 1) as nat)
    }
}

pub open spec fn pow16(n: nat) -> nat
    decreases n,
{
    if n == 0 {
        1
    } else {
        16 * pow16((n - 1) as nat)
    }
}

proof fn lemma_dec_val_bound(s: Seq<char>, i: int, j: int)
    requires
        i <= j,
        forall|k: int| i <= k < j ==> is_dec_digit(s[k]),
    ensures
        dec_val(s, i, j) < pow10((j - i) as nat),
    decreases j - i,
{
    if i < j {
        lemma_dec_val_bound(s, i, j - 1);
        assert(dec_digit_val(s[j - 1]) <= 9);
    }
}

proof fn lemma_hex_val_bound(s: Seq<char>, i: int, j: int)
    requires
        i <= j,
        forall|k: int| i <= k < j ==> is_hex_digit(s[k]),
    ensures
        hex_val(s, i, j) < pow16((j - i) as nat),
    decreases j - i,
{
    if i < j {
        lemma_hex_val_bound(s, i, j - 1);
        assert(hex_digit_val(s[j - 1]) <= 15);
    }
}

fn at_dec_digit(s: &str, len: usize, j: usize) -> (r: bool)
    requires
        len == s@.len(),
        j <= len,
    ensures
        r == (j < len && is_dec_digit(s@[j as int])),
{
    if j < len {
        let c = s.get_char(j);
        '0' <= c && c <= '9'
    } else {
        false
    }
}

fn at_hex_digit(s: &str, len: usize, j: usize) -> (r: bool)
    requires
        len == s@.len(),
        j <= len,
    ensures
        r == (j < len && is_hex_digit(s@[j as int])),
{
    if j < len {
        let c = s.get_char(j);
        ('0' <= c && c <= '9') || ('a' <= c && c <= 'f') || ('A' <= c && c <= 'F')
    } else {
        false
    }
}

fn scan_dec_end(s: &str, len: usize, i: usize) -> (j: usize)
    requires
        len == s@.len(),
        i <= len,
    ensures
        j == dec_digits_end(s@, i as int),
        i <= j <= len,
    decreases len - i,
{
    let mut j: usize = i;
    while at_dec_digit(s, len, j)
        invariant
            i <= j <= len,
            len == s@.len(),
            dec_digits_end(s@, i as int) == dec_digits_end(s@, j as int),
        decreases len - j,
    {
        j = j + 1;
    }
    j
}

fn scan_hex_end(s: &str, len: usize, i: usize) -> (j: usize)
    requires
        len == s@.len(),
        i <= len,
    ensures
        j == hex_digits_end(s@, i as int),
        i <= j <= len,
{
    let mut j: usize = i;
    while at_hex_digit(s, len, j)
        invariant
            i <= j <= len,
            len == s@.len(),
            hex_digits_end(s@, i as int) == hex_digits_end(s@, j as int),
        decreases len - j,
    {
        j = j + 1;
    }
    j
}

fn accum_dec(s: &str, len: usize, i: usize, j: usize) -> (v: u32)
    requires
        len == s@.len(),
        i <= j <= len,
        j - i <= 5,
        j == dec_digits_end(s@, i as int) || (forall|k: int|
            i <= k < j ==> is_dec_digit(s@[k])),
        forall|k: int| i <= k < j ==> is_dec_digit(s@[k]),
    ensures
        v == dec_val(s@, i as int, j as int),
        v < 100000,
{
    proof {
        lemma_dec_val_bound(s@, i as int, j as int);
        assert(pow10((j - i) as nat) <= pow10(5)) by {
            reveal_with_fuel(pow10, 7);
        }
    }
    let mut v: u32 = 0;
    let mut k: usize = i;
    while k < j
        invariant
            i <= k <= j,
            len == s@.len(),
            j <= len,
            j - i <= 5,
            forall|m: int| i <= m < j ==> is_dec_digit(s@[m]),
            v == dec_val(s@, i as int, k as int),
            v < pow10((k - i) as nat),
        decreases j - k,
    {
        let c = s.get_char(k);
        let d = (c as u32) - 48;
        proof {
            assert(is_dec_digit(s@[k as int]));
            assert(pow10(((k - i) + 1) as nat) == 10 * pow10((k - i) as nat));
            assert(pow10((k - i) as nat) <= pow10(4)) by {
                lemma_pow10_mono((k - i) as nat, 4);
            }
            assert(pow10(4) == 10000) by {
                reveal_with_fuel(pow10, 7);
            }
        }
        v = v * 10 + d;
        k = k + 1;
    }
    proof {
        lemma_dec_val_bound(s@, i as int, j as int);
        assert(pow10((j - i) as nat) <= 100000) by {
            lemma_pow10_mono((j - i) as nat, 5);
            assert(pow10(5) == 100000) by {
                reveal_with_fuel(pow10, 7);
            }
        }
    }
    v
}

proof fn lemma_pow10_mono(a: nat, b: nat)
    requires
        a <= b,
    ensures
        pow10(a) <= pow10(b),
    decreases b,
{
    if a < b {
        lemma_pow10_mono(a, (b - 1) as nat);
        assert(pow10(b) == 10 * pow10((b - 1) as nat));
    }
}

proof fn lemma_pow16_mono(a: nat, b: nat)
    requires
        a <= b,
    ensures
        pow16(a) <= pow16(b),
    decreases b,
{
    if a < b {
        lemma_pow16_mono(a, (b - 1) as nat);
        assert(pow16(b) == 16 * pow16((b - 1) as nat));
    }
}

fn accum_hex(s: &str, len: usize, i: usize, j: usize) -> (v: u32)
    requires
        len == s@.len(),
        i <= j <= len,
        j - i <= 4,
        forall|k: int| i <= k < j ==> is_hex_digit(s@[k]),
    ensures
        v == hex_val(s@, i as int, j as int),
        v < 65536,
{
    let mut v: u32 = 0;
    let mut k: usize = i;
    while k < j
        invariant
            i <= k <= j,
            len == s@.len(),
            j <= len,
            j - i <= 4,
            forall|m: int| i <= m < j ==> is_hex_digit(s@[m]),
            v == hex_val(s@, i as int, k as int),
            v < pow16((k - i) as nat),
        decreases j - k,
    {
        let c = s.get_char(k);
        let cu = c as u32;
        let d: u32 = if cu >= 97 {
            cu - 87
        } else if cu >= 65 {
            cu - 55
        } else {
            cu - 48
        };
        proof {
            assert(is_hex_digit(s@[k as int]));
            assert(d == hex_digit_val(s@[k as int]));
            assert(pow16(((k - i) + 1) as nat) == 16 * pow16((k - i) as nat));
            assert(pow16((k - i) as nat) <= pow16(3)) by {
                lemma_pow16_mono((k - i) as nat, 3);
            }
            assert(pow16(3) == 4096) by {
                reveal_with_fuel(pow16, 7);
            }
        }
        v = v * 16 + d;
        k = k + 1;
    }
    proof {
        lemma_hex_val_bound(s@, i as int, j as int);
        lemma_pow16_mono((j - i) as nat, 4);
        assert(pow16(4) == 65536) by {
            reveal_with_fuel(pow16, 7);
        }
    }
    v
}

/// All positions in `[i, dec_digits_end(s, i))` hold decimal digits.
proof fn lemma_dec_run_digits(s: Seq<char>, i: int)
    requires
        0 <= i <= s.len(),
    ensures
        dec_digits_end(s, i) <= s.len(),
        forall|k: int| i <= k < dec_digits_end(s, i) ==> is_dec_digit(s[k]),
    decreases s.len() - i,
{
    if i < s.len() && is_dec_digit(s[i]) {
        lemma_dec_run_digits(s, i + 1);
    }
}

proof fn lemma_hex_run_digits(s: Seq<char>, i: int)
    requires
        0 <= i <= s.len(),
    ensures
        hex_digits_end(s, i) <= s.len(),
        forall|k: int| i <= k < hex_digits_end(s, i) ==> is_hex_digit(s[k]),
    decreases s.len() - i,
{
    if i < s.len() && is_hex_digit(s[i]) {
        lemma_hex_run_digits(s, i + 1);
    }
}

fn parse_octet_x(s: &str, len: usize, i: usize) -> (r: Option<(u8, usize)>)
    requires
        len == s@.len(),
        i <= len,
    ensures
        match r {
            Some((v, j)) => p_octet(s@, i as int) == Some((v, j as int)) && i < j <= len,
            None => p_octet(s@, i as int) is None,
        },
{
    let j = scan_dec_end(s, len, i);
    proof {
        lemma_dec_run_digits(s@, i as int);
    }
    if i < j && j - i <= 3 {
        let v = accum_dec(s, len, i, j);
        if v <= 255 {
            Some((v as u8, j))
        } else {
            None
        }
    } else {
        None
    }
}

fn parse_port_x(s: &str, len: usize, i: usize) -> (r: Option<(u16, usize)>)
    requires
        len == s@.len(),
        i <= len,
    ensures
        match r {
            Some((v, j)) => p_port(s@, i as int) == Some((v, j as int)) && i < j <= len,
            None => p_port(s@, i as int) is None,
        },
{
    let j = scan_dec_end(s, len, i);
    proof {
        lemma_dec_run_digits(s@, i as int);
    }
    if i < j && j - i <= 5 {
        let v = accum_dec(s, len, i, j);
        if v <= 65535 {
            Some((v as u16, j))
        } else {
            None
        }
    } else {
        None
    }
}

fn parse_group_x(s: &str, len: usize, i: usize) -> (r: Option<(u16, usize)>)
    requires
        len == s@.len(),
        i <= len,
    ensures
        match r {
            Some((v, j)) => p_group(s@, i as int) == Some((v, j as int)) && i < j <= len,
            None => p_group(s@, i as int) is None,
        },
{
    let j = scan_hex_end(s, len, i);
    proof {
        lemma_hex_run_digits(s@, i as int);
    }
    if i < j && j - i <= 4 {
        let v = accum_hex(s, len, i, j);
        Some((v as u16, j))
    } else {
        None
    }
}

fn parse_char_x(s: &str, len: usize, i: usize, c: char) -> (r: Option<usize>)
    requires
        len == s@.len(),
        i <= len,
    ensures
        match r {
            Some(j) => p_char(s@, i as int, c) == Some(j as int) && i < j <= len,
            None => p_char(s@, i as int, c) is None,
        },
{
    if i < len && s.get_char(i) == c {
        Some(i + 1)
    } else {
        None
    }
}

fn parse_octet_dot_x(s: &str, len: usize, i: usize) -> (r: Option<(u8, usize)>)
    requires
        len == s@.len(),
        i <= len,
    ensures
        match r {
            Some((v, j)) => p_octet_dot(s@, i as int) == Some((v, j as int)) && i < j <= len,
            None => p_octet_dot(s@, i as int) is None,
        },
{
    match parse_octet_x(s, len, i) {
        None => None,
        Some((v, j)) => match parse_char_x(s, len, j, '.') {
            None => None,
            Some(k) => Some((v, k)),
        },
    }
}

fn parse_group_colon_x(s: &str, len: usize, i: usize) -> (r: Option<(u16, usize)>)
    requires
        len == s@.len(),
        i <= len,
    ensures
        match r {
            Some((v, j)) => p_group_colon(s@, i as int) == Some((v, j as int)) && i < j <= len,
            None => p_group_colon(s@, i as int) is None,
        },
{
    match parse_group_x(s, len, i) {
        None => None,
        Some((v, j)) => match parse_char_x(s, len, j, ':') {
            None => None,
            Some(k) => Some((v, k)),
        },
    }
}

/// Parse a `"host:port"` text into an address. Succeeds exactly on the
/// grammar of [`parse_socket_addr`].
pub fn parse_peer_address(s: &str) -> (r: Option<PeerAddress>)
    ensures
        r == parse_socket_addr(s@),
{
    let len = s.unicode_len();
    if len > 0 && s.get_char(0) == '[' {
        match parse_char_x(s, len, 0, '[') {
            None => None,
            Some(i0) => match parse_group_colon_x(s, len, i0) {
                None => None,
                Some((g0, i1)) => match parse_group_colon_x(s, len, i1) {
                    None => None,
                    Some((g1, i2)) => match parse_group_colon_x(s, len, i2) {
                        None => None,
                        Some((g2, i3)) => match parse_group_colon_x(s, len, i3) {
                            None => None,
                            Some((g3, i4)) => match parse_group_colon_x(s, len, i4) {
                                None => None,
                                Some((g4, i5)) => match parse_group_colon_x(s, len, i5) {
                                    None => None,
                                    Some((g5, i6)) => match parse_group_colon_x(s, len, i6) {
                                        None => None,
                                        Some((g6, i7)) => match parse_group_x(s, len, i7) {
                                            None => None,
                                            Some((g7, i8)) => match parse_char_x(
                                                s,
                                                len,
                                                i8,
                                                ']',
                                            ) {
                                                None => None,
                                                Some(i9) => match parse_char_x(s, len, i9, ':') {
                                                    None => None,
                                                    Some(i10) => match parse_port_x(
                                                        s,
                                                        len,
                                                        i10,
                                                    ) {
                                                        None => None,
                                                        Some((port, i11)) => if i11 == len {
                                                            Some(
                                                                PeerAddress {
                                                                    ip: IpValue::V6 {
                                                                        g0,
                                                                        g1,
                                                                        g2,
                                                                        g3,
                                                                        g4,
                                                                        g5,
                                                                        g6,
                                                                        g7,
                                                                    },
                                                                    port,
                                                                },
                                                            )
                                                        } else {
                                                            None
                                                        },
                                                    },
                                                },
                                            },
                                        },
                                    },
                                },
                            },
                        },
                    },
                },
            },
        }
    } else {
        match parse_octet_dot_x(s, len, 0) {
            None => None,
            Some((a, i1)) => match parse_octet_dot_x(s, len, i1) {
                None => None,
                Some((b, i2)) => match parse_octet_dot_x(s, len, i2) {
                    None => None,
                    Some((c, i3)) => match parse_octet_x(s, len, i3) {
                        None => None,
                        Some((d, i4)) => match parse_char_x(s, len, i4, ':') {
                            None => None,
                            Some(i5) => match parse_port_x(s, len, i5) {
                                None => None,
                                Some((port, i6)) => if i6 == len {
                                    Some(PeerAddress { ip: IpValue::V4 { a, b, c, d }, port })
                                } else {
                                    None
                                },
                            },
                        },
                    },
                },
            },
        }
    }
}


// ---------------------------------------------------------------------------
// Formatter
// ---------------------------------------------------------------------------

pub open spec fn dec_digit_char(n: nat) -> char
    recommends
        n < 10,
{
    ((48 + n) as u8) as char
}

pub open spec fn hex_digit_char(n: nat) -> char
    recommends
        n < 16,
{
    if n < 10 {
        ((48 + n) as u8) as char
    } else {
        ((87 + n) as u8) as char
    }
}

/// Decimal text of `n`, without leading zeros (`"0"` for zero).
pub open spec fn spec_dec_text(n: nat) -> Seq<char>
    decreases n,
{
    if n < 10 {
        seq![dec_digit_char(n)]
    } else {
        spec_dec_text(n / 10).push(dec_digit_char(n % 10))
    }
}

/// Lowercase hexadecimal text of `n`, without leading zeros (`"0"` for zero).
pub open spec fn spec_hex_text(n: nat) -> Seq<char>
    decreases n,
{
    if n < 16 {
        seq![hex_digit_char(n)]
    } else {
        spec_hex_text(n / 16).push(hex_digit_char(n % 16))
    }
}

/// Text of an IP address alone: dotted decimal, or colon-separated lowercase
/// hexadecimal groups without brackets.
pub open spec fn spec_ip_text(ip: IpValue) -> Seq<char> {
    match ip {
        IpValue::V4 { a, b, c, d } => spec_dec_text(a as nat) + seq!['.'] + spec_dec_text(b as nat)
            + seq!['.'] + spec_dec_text(c as nat) + seq!['.'] + spec_dec_text(d as nat),
        IpValue::V6 { g0, g1, g2, g3, g4, g5, g6, g7 } => spec_hex_text(g0 as nat) + seq![':']
            + spec_hex_text(g1 as nat) + seq![':'] + spec_hex_text(g2 as nat) + seq![':']
            + spec_hex_text(g3 as nat) + seq![':'] + spec_hex_text(g4 as nat) + seq![':']
            + spec_hex_text(g5 as nat) + seq![':'] + spec_hex_text(g6 as nat) + seq![':']
            + spec_hex_text(g7 as nat),
    }
}

/// Text of a full endpoint, `host:port`, with brackets around an IPv6 host.
pub open spec fn spec_addr_text(a: PeerAddress) -> Seq<char> {
    match a.ip {
        IpValue::V4 { .. } => spec_ip_text(a.ip) + seq![':'] + spec_dec_text(a.port as nat),
        IpValue::V6 { .. } => seq!['['] + spec_ip_text(a.ip) + seq![']'] + seq![':']
            + spec_dec_text(a.port as nat),
    }
}

fn dec_digit_str(d: u16) -> (r: &'static str)
    requires
        d < 10,
    ensures
        r@ == seq![dec_digit_char(d as nat)],
{
    proof {
        reveal_strlit("0");
        reveal_strlit("1");
        reveal_strlit("2");
        reveal_strlit("3");
        reveal_strlit("4");
        reveal_strlit("5");
        reveal_strlit("6");
        reveal_strlit("7");
        reveal_strlit("8");
        reveal_strlit("9");
    }
    if d == 0 {
        "0"
    } else if d == 1 {
        "1"
    } else if d == 2 {
        "2"
    } else if d == 3 {
        "3"
    } else if d == 4 {
        "4"
    } else if d == 5 {
        "5"
    } else if d == 6 {
        "6"
    } else if d == 7 {
        "7"
    } else if d == 8 {
        "8"
    } else {
        "9"
    }
}

fn hex_digit_str(d: u16) -> (r: &'static str)
    requires
        d < 16,
    ensures
        r@ == seq![hex_digit_char(d as nat)],
{
    proof {
        reveal_strlit("a");
        reveal_strlit("b");
        reveal_strlit("c");
        reveal_strlit("d");
        reveal_strlit("e");
        reveal_strlit("f");
    }
    if d < 10 {
        dec_digit_str(d)
    } else if d == 10 {
        "a"
    } else if d == 11 {
        "b"
    } else if d == 12 {
        "c"
    } else if d == 13 {
        "d"
    } else if d == 14 {
        "e"
    } else {
        "f"
    }
}

fn push_dec_text(out: &mut String, n: u16)
    ensures
        final(out)@ == old(out)@ + spec_dec_text(n as nat),
    decreases n,
{
    if n >= 10 {
        push_dec_text(out, n / 10);
    }
    out.append(dec_digit_str(n % 10));
    proof {
        if n >= 10 {
            assert_seqs_equal!(old(out)@ + spec_dec_text((n / 10) as nat)
                + seq![dec_digit_char((n % 10) as nat)]
                == old(out)@ + spec_dec_text(n as nat));
        } else {
            assert_seqs_equal!(old(out)@ + seq![dec_digit_char(n as nat)]
                == old(out)@ + spec_dec_text(n as nat));
        }
    }
}

fn push_hex_text(out: &mut String, n: u16)
    ensures
        final(out)@ == old(out)@ + spec_hex_text(n as nat),
    decreases n,
{
    if n >= 16 {
        push_hex_text(out, n / 16);
    }
    out.append(hex_digit_str(n % 16));
    proof {
        if n >= 16 {
            assert_seqs_equal!(old(out)@ + spec_hex_text((n / 16) as nat)
                + seq![hex_digit_char((n % 16) as nat)]
                == old(out)@ + spec_hex_text(n as nat));
        } else {
            assert_seqs_equal!(old(out)@ + seq![hex_digit_char(n as nat)]
                == old(out)@ + spec_hex_text(n as nat));
        }
    }
}

fn push_ip_text(out: &mut String, ip: &IpValue)
    ensures
        final(out)@ == old(out)@ + spec_ip_text(*ip),
{
    proof {
        reveal_strlit(".");
        reveal_strlit(":");
    }
    match ip {
        IpValue::V4 { a, b, c, d } => {
            push_dec_text(out, *a as u16);
            out.append(".");
            push_dec_text(out, *b as u16);
            out.append(".");
            push_dec_text(out, *c as u16);
            out.append(".");
            push_dec_text(out, *d as u16);
            proof {
                assert_seqs_equal!(out@ == old(out)@ + spec_ip_text(*ip));
            }
        },
        IpValue::V6 { g0, g1, g2, g3, g4, g5, g6, g7 } => {
            push_hex_text(out, *g0);
            out.append(":");
            push_hex_text(out, *g1);
            out.append(":");
            push_hex_text(out, *g2);
            out.append(":");
            push_hex_text(out, *g3);
            out.append(":");
            push_hex_text(out, *g4);
            out.append(":");
            push_hex_text(out, *g5);
            out.append(":");
            push_hex_text(out, *g6);
            out.append(":");
            push_hex_text(out, *g7);
            proof {
                assert_seqs_equal!(out@ == old(out)@ + spec_ip_text(*ip));
            }
        },
    }
}

/// The textual form of the IP address alone, as notifications carry it.
pub fn format_ip(ip: &IpValue) -> (r: String)
    ensures
        r@ == spec_ip_text(*ip),
{
    let mut out = String::new();
    push_ip_text(&mut out, ip);
    out
}

/// The textual `host:port` form of an endpoint.
pub fn format_peer_address(a: &PeerAddress) -> (r: String)
    ensures
        r@ == spec_addr_text(*a),
{
    proof {
        reveal_strlit("[");
        reveal_strlit("]");
        reveal_strlit(":");
    }
    let mut out = String::new();
    match &a.ip {
        IpValue::V4 { .. } => {
            push_ip_text(&mut out, &a.ip);
            out.append(":");
            push_dec_text(&mut out, a.port);
            proof {
                assert_seqs_equal!(out@ == spec_addr_text(*a));
            }
        },
        IpValue::V6 { .. } => {
            out.append("[");
            push_ip_text(&mut out, &a.ip);
            out.append("]");
            out.append(":");
            push_dec_text(&mut out, a.port);
            proof {
                assert_seqs_equal!(out@ == spec_addr_text(*a));
            }
        },
    }
    out
}


// ---------------------------------------------------------------------------
// The formatter's output always parses back to the same endpoint. The user
// interface receives addresses as text and echoes them back in commands, so
// the engine depends on this agreement.
// ---------------------------------------------------------------------------


proof fn lemma_dec_text_digits(n: nat)
    ensures
        spec_dec_text(n).len() >= 1,
        forall|k: int| 0 <= k < spec_dec_text(n).len() ==> is_dec_digit(
            #[trigger] spec_dec_text(n)[k],
        ),
        forall|k: int| 0 <= k < spec_dec_text(n).len() ==> !(#[trigger] spec_dec_text(n)[k]
            == '.') && !(spec_dec_text(n)[k] == ':'),
    decreases n,
{
    assert(is_dec_digit(dec_digit_char(n % 10)));
    if n >= 10 {
        lemma_dec_text_digits(n / 10);
    }
}

proof fn lemma_dec_text_len(n: nat, k: nat)
    requires
        n < pow10(k),
        k >= 1,
    ensures
        spec_dec_text(n).len() <= k,
    decreases k,
{
    if n >= 10 {
        vstd::arithmetic::div_mod::lemma_fundamental_div_mod(n as int, 10);
        assert(pow10(k) == 10 * pow10((k - 1) as nat));
        lemma_dec_text_len(n / 10, (k - 1) as nat);
    }
}

proof fn lemma_digits_end_run(s: Seq<char>, i: int, j: int)
    requires
        0 <= i <= j <= s.len(),
        forall|k: int| i <= k < j ==> is_dec_digit(s[k]),
        j == s.len() || !is_dec_digit(s[j]),
    ensures
        dec_digits_end(s, i) == j,
    decreases j - i,
{
    if i < j {
        lemma_digits_end_run(s, i + 1, j);
    }
}

proof fn lemma_dec_val_of_text(s: Seq<char>, i: int, n: nat)
    requires
        0 <= i,
        i + spec_dec_text(n).len() <= s.len(),
        s.subrange(i, i + spec_dec_text(n).len()) == spec_dec_text(n),
    ensures
        dec_val(s, i, i + spec_dec_text(n).len()) == n,
    decreases n,
{
    let t = spec_dec_text(n);
    let len = t.len() as int;
    assert(s[i + len - 1] == t[len - 1]) by {
        assert(s.subrange(i, i + len)[len - 1] == t[len - 1]);
    }
    if n < 10 {
        assert(dec_digit_val(dec_digit_char(n)) == n);
        assert(dec_val(s, i, i) == 0);
        assert(dec_val(s, i, i + 1) == dec_val(s, i, i) * 10 + dec_digit_val(s[i]));
    } else {
        let t1 = spec_dec_text(n / 10);
        assert(t == t1.push(dec_digit_char(n % 10)));
        assert(s.subrange(i, i + t1.len()) == t1) by {
            assert_seqs_equal!(s.subrange(i, i + t1.len() as int) == t1, k => {
                assert(s.subrange(i, i + len)[k] == t[k]);
            });
        }
        lemma_dec_val_of_text(s, i, n / 10);
        assert(dec_digit_val(dec_digit_char(n % 10)) == n % 10);
        assert(dec_val(s, i, i + len) == dec_val(s, i, i + len - 1) * 10 + dec_digit_val(
            s[i + len - 1],
        ));
        vstd::arithmetic::div_mod::lemma_fundamental_div_mod(n as int, 10);
    }
}

/// The digit run of a formatted number, followed by a non-digit boundary,
/// scans and evaluates back to the number.
proof fn lemma_dec_run(s: Seq<char>, i: int, n: nat)
    requires
        0 <= i,
        i + spec_dec_text(n).len() <= s.len(),
        s.subrange(i, i + spec_dec_text(n).len()) == spec_dec_text(n),
        i + spec_dec_text(n).len() == s.len() || !is_dec_digit(s[i + spec_dec_text(n).len()]),
    ensures
        dec_digits_end(s, i) == i + spec_dec_text(n).len(),
        dec_val(s, i, i + spec_dec_text(n).len()) == n,
{
    let len = spec_dec_text(n).len() as int;
    lemma_dec_text_digits(n);
    assert forall|k: int| i <= k < i + len implies is_dec_digit(s[k]) by {
        assert(s.subrange(i, i + len)[k - i] == spec_dec_text(n)[k - i]);
    }
    lemma_digits_end_run(s, i, i + len);
    lemma_dec_val_of_text(s, i, n);
}

proof fn lemma_p_octet_of_text(s: Seq<char>, i: int, n: u8)
    requires
        0 <= i,
        i + spec_dec_text(n as nat).len() <= s.len(),
        s.subrange(i, i + spec_dec_text(n as nat).len()) == spec_dec_text(n as nat),
        i + spec_dec_text(n as nat).len() == s.len() || !is_dec_digit(
            s[i + spec_dec_text(n as nat).len()],
        ),
    ensures
        p_octet(s, i) == Some((n, i + spec_dec_text(n as nat).len())),
{
    lemma_dec_run(s, i, n as nat);
    reveal_with_fuel(pow10, 4);
    lemma_dec_text_len(n as nat, 3);
}

proof fn lemma_p_port_of_text(s: Seq<char>, i: int, n: u16)
    requires
        0 <= i,
        i + spec_dec_text(n as nat).len() <= s.len(),
        s.subrange(i, i + spec_dec_text(n as nat).len()) == spec_dec_text(n as nat),
        i + spec_dec_text(n as nat).len() == s.len() || !is_dec_digit(
            s[i + spec_dec_text(n as nat).len()],
        ),
    ensures
        p_port(s, i) == Some((n, i + spec_dec_text(n as nat).len())),
{
    lemma_dec_run(s, i, n as nat);
    reveal_with_fuel(pow10, 6);
    lemma_dec_text_len(n as nat, 5);
}

/// Parsing the dotted-decimal text of a V4 endpoint returns the endpoint.
#[verifier::spinoff_prover]
#[verifier::rlimit(50)]
proof fn lemma_parse_v4_text(a: PeerAddress)
    requires
        a.ip is V4,
    ensures
        parse_socket_addr(spec_addr_text(a)) == Some(a),
{
    let s = spec_addr_text(a);
    match a.ip {
        IpValue::V4 { a: o1, b: o2, c: o3, d: o4 } => {
            let t1 = spec_dec_text(o1 as nat);
            let t2 = spec_dec_text(o2 as nat);
            let t3 = spec_dec_text(o3 as nat);
            let t4 = spec_dec_text(o4 as nat);
            let tp = spec_dec_text(a.port as nat);
            let dot = seq!['.'];
            let colon = seq![':'];
            assert(s == t1 + dot + t2 + dot + t3 + dot + t4 + colon + tp);
            assert(s.subrange(0, s.len() as int) == s) by {
                assert_seqs_equal!(s.subrange(0, s.len() as int) == s);
            }
            let i1 = t1.len() as int;
            let i2 = i1 + 1 + t2.len() as int;
            let i3 = i2 + 1 + t3.len() as int;
            let i4 = i3 + 1 + t4.len() as int;
            let i5 = i4 + 1;
            lemma_dec_text_digits(o1 as nat);
            lemma_dec_text_digits(o2 as nat);
            lemma_dec_text_digits(o3 as nat);
            lemma_dec_text_digits(o4 as nat);
            lemma_dec_text_digits(a.port as nat);
            assert(s.subrange(0, i1) == t1) by {
                assert_seqs_equal!(s.subrange(0, t1.len() as int) == t1);
            }
            assert(s[i1] == '.');
            assert(s.subrange(i1 + 1, i1 + 1 + t2.len()) == t2) by {
                assert_seqs_equal!(s.subrange(i1 + 1, i1 + 1 + t2.len() as int) == t2);
            }
            assert(s[i2] == '.');
            assert(s.subrange(i2 + 1, i2 + 1 + t3.len()) == t3) by {
                assert_seqs_equal!(s.subrange(i2 + 1, i2 + 1 + t3.len() as int) == t3);
            }
            assert(s[i3] == '.');
            assert(s.subrange(i3 + 1, i3 + 1 + t4.len()) == t4) by {
                assert_seqs_equal!(s.subrange(i3 + 1, i3 + 1 + t4.len() as int) == t4);
            }
            assert(s[i4] == ':');
            assert(s.subrange(i5, i5 + tp.len()) == tp) by {
                assert_seqs_equal!(s.subrange(i4 + 1, i4 + 1 + tp.len() as int) == tp);
            }
            lemma_p_octet_of_text(s, 0, o1);
            lemma_p_octet_of_text(s, i1 + 1, o2);
            lemma_p_octet_of_text(s, i2 + 1, o3);
            lemma_p_octet_of_text(s, i3 + 1, o4);
            lemma_p_port_of_text(s, i5, a.port);
            assert(!(s[0] == '['));
        },
        IpValue::V6 { .. } => {},
    }
}

proof fn lemma_hex_text_digits(n: nat)
    ensures
        spec_hex_text(n).len() >= 1,
        forall|k: int| 0 <= k < spec_hex_text(n).len() ==> is_hex_digit(
            #[trigger] spec_hex_text(n)[k],
        ),
        forall|k: int| 0 <= k < spec_hex_text(n).len() ==> !(#[trigger] spec_hex_text(n)[k]
            == ':') && !(spec_hex_text(n)[k] == ']') && !(spec_hex_text(n)[k] == '['),
    decreases n,
{
    assert(is_hex_digit(hex_digit_char(n % 16)));
    if n >= 16 {
        lemma_hex_text_digits(n / 16);
    }
}

proof fn lemma_hex_text_len(n: nat, k: nat)
    requires
        n < pow16(k),
        k >= 1,
    ensures
        spec_hex_text(n).len() <= k,
    decreases k,
{
    if n >= 16 {
        vstd::arithmetic::div_mod::lemma_fundamental_div_mod(n as int, 16);
        assert(pow16(k) == 16 * pow16((k - 1) as nat));
        lemma_hex_text_len(n / 16, (k - 1) as nat);
    }
}

proof fn lemma_hex_digits_end_run(s: Seq<char>, i: int, j: int)
    requires
        0 <= i <= j <= s.len(),
        forall|k: int| i <= k < j ==> is_hex_digit(s[k]),
        j == s.len() || !is_hex_digit(s[j]),
    ensures
        hex_digits_end(s, i) == j,
    decreases j - i,
{
    if i < j {
        lemma_hex_digits_end_run(s, i + 1, j);
    }
}

proof fn lemma_hex_val_of_text(s: Seq<char>, i: int, n: nat)
    requires
        0 <= i,
        i + spec_hex_text(n).len() <= s.len(),
        s.subrange(i, i + spec_hex_text(n).len()) == spec_hex_text(n),
    ensures
        hex_val(s, i, i + spec_hex_text(n).len()) == n,
    decreases n,
{
    let t = spec_hex_text(n);
    let len = t.len() as int;
    assert(s[i + len - 1] == t[len - 1]) by {
        assert(s.subrange(i, i + len)[len - 1] == t[len - 1]);
    }
    if n < 16 {
        assert(hex_digit_val(hex_digit_char(n)) == n);
        assert(hex_val(s, i, i) == 0);
        assert(hex_val(s, i, i + 1) == hex_val(s, i, i) * 16 + hex_digit_val(s[i]));
    } else {
        let t1 = spec_hex_text(n / 16);
        assert(t == t1.push(hex_digit_char(n % 16)));
        assert(s.subrange(i, i + t1.len()) == t1) by {
            assert_seqs_equal!(s.subrange(i, i + t1.len() as int) == t1, k => {
                assert(s.subrange(i, i + len)[k] == t[k]);
            });
        }
        lemma_hex_val_of_text(s, i, n / 16);
        assert(hex_digit_val(hex_digit_char(n % 16)) == n % 16);
        assert(hex_val(s, i, i + len) == hex_val(s, i, i + len - 1) * 16 + hex_digit_val(
            s[i + len - 1],
        ));
        vstd::arithmetic::div_mod::lemma_fundamental_div_mod(n as int, 16);
    }
}

proof fn lemma_p_group_of_text(s: Seq<char>, i: int, n: u16)
    requires
        0 <= i,
        i + spec_hex_text(n as nat).len() <= s.len(),
        s.subrange(i, i + spec_hex_text(n as nat).len()) == spec_hex_text(n as nat),
        i + spec_hex_text(n as nat).len() == s.len() || !is_hex_digit(
            s[i + spec_hex_text(n as nat).len()],
        ),
    ensures
        p_group(s, i) == Some((n, i + spec_hex_text(n as nat).len())),
{
    let len = spec_hex_text(n as nat).len() as int;
    lemma_hex_text_digits(n as nat);
    assert forall|k: int| i <= k < i + len implies is_hex_digit(s[k]) by {
        assert(s.subrange(i, i + len)[k - i] == spec_hex_text(n as nat)[k - i]);
    }
    lemma_hex_digits_end_run(s, i, i + len);
    lemma_hex_val_of_text(s, i, n as nat);
    reveal_with_fuel(pow16, 5);
    lemma_hex_text_len(n as nat, 4);
}

/// Parsing the bracketed hexadecimal text of a V6 endpoint returns the
/// endpoint.
#[verifier::spinoff_prover]
#[verifier::rlimit(50)]
proof fn lemma_parse_v6_text(a: PeerAddress)
    requires
        a.ip is V6,
    ensures
        parse_socket_addr(spec_addr_text(a)) == Some(a),
{
    let s = spec_addr_text(a);
    match a.ip {
        IpValue::V6 { g0, g1, g2, g3, g4, g5, g6, g7 } => {
            let h0 = spec_hex_text(g0 as nat);
            let h1 = spec_hex_text(g1 as nat);
            let h2 = spec_hex_text(g2 as nat);
            let h3 = spec_hex_text(g3 as nat);
            let h4 = spec_hex_text(g4 as nat);
            let h5 = spec_hex_text(g5 as nat);
            let h6 = spec_hex_text(g6 as nat);
            let h7 = spec_hex_text(g7 as nat);
            let tp = spec_dec_text(a.port as nat);
            lemma_hex_text_digits(g0 as nat);
            lemma_hex_text_digits(g1 as nat);
            lemma_hex_text_digits(g2 as nat);
            lemma_hex_text_digits(g3 as nat);
            lemma_hex_text_digits(g4 as nat);
            lemma_hex_text_digits(g5 as nat);
            lemma_hex_text_digits(g6 as nat);
            lemma_hex_text_digits(g7 as nat);
            lemma_dec_text_digits(a.port as nat);
            let i0: int = 1;
            let i1 = i0 + h0.len() as int + 1;
            let i2 = i1 + h1.len() as int + 1;
            let i3 = i2 + h2.len() as int + 1;
            let i4 = i3 + h3.len() as int + 1;
            let i5 = i4 + h4.len() as int + 1;
            let i6 = i5 + h5.len() as int + 1;
            let i7 = i6 + h6.len() as int + 1;
            let i8 = i7 + h7.len() as int;
            let ip = i8 + 2;
            assert(s[0] == '[');
            assert(s.subrange(i0, i0 + h0.len()) == h0) by {
                assert_seqs_equal!(s.subrange(1, 1 + h0.len() as int) == h0);
            }
            assert(s[i1 - 1] == ':');
            assert(s.subrange(i1, i1 + h1.len()) == h1) by {
                assert_seqs_equal!(s.subrange(i1, i1 + h1.len() as int) == h1);
            }
            assert(s[i2 - 1] == ':');
            assert(s.subrange(i2, i2 + h2.len()) == h2) by {
                assert_seqs_equal!(s.subrange(i2, i2 + h2.len() as int) == h2);
            }
            assert(s[i3 - 1] == ':');
            assert(s.subrange(i3, i3 + h3.len()) == h3) by {
                assert_seqs_equal!(s.subrange(i3, i3 + h3.len() as int) == h3);
            }
            assert(s[i4 - 1] == ':');
            assert(s.subrange(i4, i4 + h4.len()) == h4) by {
                assert_seqs_equal!(s.subrange(i4, i4 + h4.len() as int) == h4);
            }
            assert(s[i5 - 1] == ':');
            assert(s.subrange(i5, i5 + h5.len()) == h5) by {
                assert_seqs_equal!(s.subrange(i5, i5 + h5.len() as int) == h5);
            }
            assert(s[i6 - 1] == ':');
            assert(s.subrange(i6, i6 + h6.len()) == h6) by {
                assert_seqs_equal!(s.subrange(i6, i6 + h6.len() as int) == h6);
            }
            assert(s[i7 - 1] == ':');
            assert(s.subrange(i7, i7 + h7.len()) == h7) by {
                assert_seqs_equal!(s.subrange(i7, i7 + h7.len() as int) == h7);
            }
            assert(s[i8] == ']');
            assert(s[i8 + 1] == ':');
            assert(s.subrange(ip, ip + tp.len()) == tp) by {
                assert_seqs_equal!(s.subrange(ip, ip + tp.len() as int) == tp);
            }
            lemma_p_group_of_text(s, i0, g0);
            lemma_p_group_of_text(s, i1, g1);
            lemma_p_group_of_text(s, i2, g2);
            lemma_p_group_of_text(s, i3, g3);
            lemma_p_group_of_text(s, i4, g4);
            lemma_p_group_of_text(s, i5, g5);
            lemma_p_group_of_text(s, i6, g6);
            lemma_p_group_of_text(s, i7, g7);
            lemma_p_port_of_text(s, ip, a.port);
        },
        IpValue::V4 { .. } => {},
    }
}

/// The textual form of an endpoint always parses back to the same endpoint,
/// so an address shown to the user and echoed back in a command names the
/// same peer.
pub proof fn lemma_parse_addr_text(a: PeerAddress)
    ensures
        parse_socket_addr(spec_addr_text(a)) == Some(a),
{
    if a.ip is V4 {
        lemma_parse_v4_text(a);
    } else {
        lemma_parse_v6_text(a);
    }
}

} // verus!



