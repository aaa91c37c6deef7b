//! Tests for the hexadecimal codec, the config file codec, and transport
//! selection.

use monster::config::Config;
use monster::hexnum::{parse_hex_u64, u64_to_hex};
use monster::transport::{select_transport, TransportKind};

#[test]
fn ws_url_selects_websocket() {
    assert_eq!(select_transport("ws://localhost:8546"), TransportKind::Websocket);
}

#[test]
fn wss_url_selects_websocket() {
    assert_eq!(select_transport("wss://node.example.org"), TransportKind::Websocket);
}

#[test]
fn http_url_selects_http() {
    assert_eq!(select_transport("http://localhost:8545"), TransportKind::Http);
}

#[test]
fn https_url_selects_http() {
    assert_eq!(select_transport("https://node.example.org"), TransportKind::Http);
}

#[test]
fn empty_url_selects_http() {
    assert_eq!(select_transport(""), TransportKind::Http);
}

#[test]
fn truncated_scheme_selects_http() {
    assert_eq!(select_transport("ws:/"), TransportKind::Http);
    assert_eq!(select_transport("ws"), TransportKind::Http);
}

#[test]
fn scheme_check_is_case_sensitive() {
    assert_eq!(select_transport("WS://localhost"), TransportKind::Http);
    assert_eq!(select_transport("Wss://localhost"), TransportKind::Http);
}

#[test]
fn hex_encoding_exact_values() {
    assert_eq!(u64_to_hex(0), "0x0");
    assert_eq!(u64_to_hex(1), "0x1");
    assert_eq!(u64_to_hex(255), "0xff");
    assert_eq!(u64_to_hex(1000), "0x3e8");
    assert_eq!(u64_to_hex(u64::MAX), "0xffffffffffffffff");
}

#[test]
fn hex_round_trip() {
    for n in [0u64, 1, 15, 16, 255, 1000, 123456789, u64::MAX - 1, u64::MAX] {
        let s = u64_to_hex(n);
        assert_eq!(parse_hex_u64(&s), Some(n));
    }
}

#[test]
fn hex_parse_accepts_leading_zeros() {
    assert_eq!(parse_hex_u64("0x0003e8"), Some(1000));
    assert_eq!(parse_hex_u64("0x00"), Some(0));
}

#[test]
fn hex_parse_rejects_malformed() {
    assert_eq!(parse_hex_u64(""), None);
    assert_eq!(parse_hex_u64("0x"), None);
    assert_eq!(parse_hex_u64("3e8"), None);
    assert_eq!(parse_hex_u64("0X3E8"), None);
    assert_eq!(parse_hex_u64("0x3E8"), None);
    assert_eq!(parse_hex_u64("0xzz"), None);
    assert_eq!(parse_hex_u64("x3e8"), None);
}

#[test]
fn hex_parse_rejects_overflow() {
    assert_eq!(parse_hex_u64("0x10000000000000000"), None);
    assert_eq!(parse_hex_u64("0xffffffffffffffff"), Some(u64::MAX));
}

#[test]
fn config_round_trip() {
    for addr in ["http://localhost:8545", "", "ws://n:1", "wss://node.example.org/path"] {
        let c = Config { node_address: addr.to_string() };
        let text = c.to_file_text();
        let back = Config::from_file_text(&text);
        assert_eq!(back.node_address, addr);
    }
}

#[test]
fn config_encoding_exact() {
    let c = Config { node_address: "http://h".to_string() };
    assert_eq!(c.to_file_text(), "node_address=http://h\n");
}

#[test]
fn config_load_is_tolerant() {
    assert_eq!(Config::from_file_text("").node_address, "");
    assert_eq!(Config::from_file_text("garbage").node_address, "");
    assert_eq!(Config::from_file_text("node_address=x").node_address, "");
    assert_eq!(Config::from_file_text("node_addresq=x\n").node_address, "");
    assert_eq!(Config::from_file_text("node_address=x\n").node_address, "x");
    assert_eq!(Config::from_file_text("node_address=\n").node_address, "");
}

#[test]
fn fresh_config_is_empty() {
    assert_eq!(Config::new().node_address, "");
}
