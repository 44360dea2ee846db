use clipshare::config::Config;
use clipshare::decimal::decimal_text;
use clipshare::handshake::{handshake, is_handshake, HANDSHAKE_LEN};
use clipshare::session::{
    choose_role, connect_address, listen_port, ClientPorts, Role, ServerPorts, PORT_TRIES,
};
use clipshare::tls::{supported_verify_schemes, SignatureSchemeId};

#[test]
fn decimal_rendering() {
    assert_eq!(decimal_text(0), "0");
    assert_eq!(decimal_text(9), "9");
    assert_eq!(decimal_text(10), "10");
    assert_eq!(decimal_text(12345), "12345");
    assert_eq!(decimal_text(65535), "65535");
}

#[test]
fn positional_clipboard_id_wins() {
    assert_eq!(
        choose_role(Some(11337), true, Some("1.2.3.4:5".to_string())),
        Role::LegacyClient(11337)
    );
}

#[test]
fn listen_before_connect() {
    assert_eq!(choose_role(None, true, Some("1.2.3.4:5".to_string())), Role::Server);
    assert_eq!(
        choose_role(None, false, Some("1.2.3.4:5678".to_string())),
        Role::Connect("1.2.3.4:5678".to_string())
    );
    assert_eq!(choose_role(None, false, None), Role::FromConfig);
}

#[test]
fn port_flag_overrides_config() {
    let config = Config::test_default();
    assert_eq!(listen_port(Some(54321), &config), 54321);
    assert_eq!(listen_port(None, &config), 12345);
}

fn server_ports(base: u16, n: usize) -> Vec<Option<u16>> {
    let mut ports = ServerPorts::new(base);
    (0..n).map(|_| ports.next_port()).collect()
}

fn client_ports(base: u16, n: usize) -> Vec<u16> {
    let mut ports = ClientPorts::new(base);
    (0..n).map(|_| ports.next_port()).collect()
}

#[test]
fn server_tries_five_consecutive_ports() {
    assert_eq!(
        server_ports(12345, 7),
        vec![Some(12345), Some(12346), Some(12347), Some(12348), Some(12349), None, None]
    );
    assert_eq!(PORT_TRIES, 5);
}

#[test]
fn port_range_stops_at_highest_port() {
    assert_eq!(server_ports(65534, 3), vec![Some(65534), Some(65535), None]);
    assert_eq!(client_ports(65534, 5), vec![65534, 65535, 65534, 65535, 65534]);
    assert_eq!(client_ports(65535, 3), vec![65535, 65535, 65535]);
}

#[test]
fn client_cycles_through_port_range() {
    assert_eq!(
        client_ports(12345, 12),
        vec![12345, 12346, 12347, 12348, 12349, 12345, 12346, 12347, 12348, 12349, 12345, 12346]
    );
}

#[test]
fn client_offset_is_taken_modulo_range() {
    let mut ports = ClientPorts { base: 100, offset: 7 };
    assert_eq!(ports.next_port(), 102);
    assert_eq!(ports.offset, 3);
}

#[test]
fn address_for_ipv4_host() {
    assert_eq!(connect_address("192.168.0.200", 12345), "192.168.0.200:12345");
}

#[test]
fn address_for_ipv6_host() {
    assert_eq!(connect_address("::1", 12345), "::1:12345");
}

#[test]
fn handshake_is_clipshare() {
    assert_eq!(handshake(), b"clipshare".to_vec());
    assert_eq!(HANDSHAKE_LEN, 9);
}

#[test]
fn only_the_exact_handshake_is_accepted() {
    assert!(is_handshake(b"clipshare"));
    assert!(!is_handshake(b"clipsharf"));
    assert!(!is_handshake(b"clipshar"));
    assert!(!is_handshake(b"clipshare!"));
    assert!(!is_handshake(&[0u8; 9]));
}

#[test]
fn accepted_signature_schemes() {
    assert_eq!(
        supported_verify_schemes(),
        vec![
            SignatureSchemeId::EcdsaNistp256Sha256,
            SignatureSchemeId::EcdsaNistp384Sha384,
            SignatureSchemeId::EcdsaNistp521Sha512,
            SignatureSchemeId::RsaPkcs1Sha256,
            SignatureSchemeId::RsaPkcs1Sha384,
            SignatureSchemeId::RsaPkcs1Sha512,
            SignatureSchemeId::RsaPssSha256,
            SignatureSchemeId::RsaPssSha384,
            SignatureSchemeId::RsaPssSha512,
        ]
    );
}
