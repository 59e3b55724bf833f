//! Address parsing and formatting.

use kuaip2p::address::{format_ip, format_peer_address, parse_peer_address, IpValue, PeerAddress};

fn v4(a: u8, b: u8, c: u8, d: u8, port: u16) -> PeerAddress {
    PeerAddress { ip: IpValue::V4 { a, b, c, d }, port }
}

#[test]
fn parses_dotted_quad_with_port() {
    assert_eq!(parse_peer_address("127.0.0.1:9100"), Some(v4(127, 0, 0, 1, 9100)));
    assert_eq!(parse_peer_address("0.0.0.0:0"), Some(v4(0, 0, 0, 0, 0)));
    assert_eq!(parse_peer_address("255.255.255.255:65535"), Some(v4(255, 255, 255, 255, 65535)));
}

#[test]
fn rejects_malformed_v4_texts() {
    assert_eq!(parse_peer_address(""), None);
    assert_eq!(parse_peer_address("127.0.0.1"), None);
    assert_eq!(parse_peer_address("256.0.0.1:80"), None);
    assert_eq!(parse_peer_address("1.2.3.4:65536"), None);
    assert_eq!(parse_peer_address("1.2.3:80"), None);
    assert_eq!(parse_peer_address("1.2.3.4.5:80"), None);
    assert_eq!(parse_peer_address("1.2.3.4:80x"), None);
    assert_eq!(parse_peer_address("abc:80"), None);
    assert_eq!(parse_peer_address("1.2.3.4:"), None);
    assert_eq!(parse_peer_address(":80"), None);
}

#[test]
fn parses_bracketed_v6_with_port() {
    let a = parse_peer_address("[0:0:0:0:0:0:0:1]:9100").expect("parse failed");
    match a.ip {
        IpValue::V6 { g0, g1, g2, g3, g4, g5, g6, g7 } => {
            assert_eq!((g0, g1, g2, g3, g4, g5, g6), (0, 0, 0, 0, 0, 0, 0));
            assert_eq!(g7, 1);
        },
        _ => panic!("expected a v6 address"),
    }
    assert_eq!(a.port, 9100);
    let b = parse_peer_address("[2001:db8:0:0:0:0:ab:1]:443").expect("parse failed");
    match b.ip {
        IpValue::V6 { g0, g1, g6, .. } => {
            assert_eq!(g0, 0x2001);
            assert_eq!(g1, 0xdb8);
            assert_eq!(g6, 0xab);
        },
        _ => panic!("expected a v6 address"),
    }
}

#[test]
fn rejects_malformed_v6_texts() {
    assert_eq!(parse_peer_address("[0:0:0:0:0:0:0:1]"), None);
    assert_eq!(parse_peer_address("[0:0:0:0:0:0:1]:80"), None);
    assert_eq!(parse_peer_address("[0:0:0:0:0:0:0:0:1]:80"), None);
    assert_eq!(parse_peer_address("[g:0:0:0:0:0:0:1]:80"), None);
    assert_eq!(parse_peer_address("[12345:0:0:0:0:0:0:1]:80"), None);
}

#[test]
fn formats_v4_and_round_trips() {
    let a = v4(127, 0, 0, 1, 9100);
    assert_eq!(format_peer_address(&a), "127.0.0.1:9100");
    assert_eq!(format_ip(&a.ip), "127.0.0.1");
    assert_eq!(parse_peer_address(&format_peer_address(&a)), Some(a));
}

#[test]
fn formats_v6_lowercase_full_form() {
    let a = PeerAddress {
        ip: IpValue::V6 { g0: 0x2001, g1: 0xDB8, g2: 0, g3: 0, g4: 0, g5: 0, g6: 0, g7: 1 },
        port: 443,
    };
    assert_eq!(format_peer_address(&a), "[2001:db8:0:0:0:0:0:1]:443");
    assert_eq!(format_ip(&a.ip), "2001:db8:0:0:0:0:0:1");
    assert_eq!(parse_peer_address(&format_peer_address(&a)), Some(a));
}
