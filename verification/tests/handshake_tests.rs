use rusty_proxy::handshake::{disguise_line, DisguiseCode};
use rusty_proxy::registry::{listen_authority, BackendAddr, BackendRegistry};
use rusty_proxy::sniff::Classification;

#[test]
fn switching_protocols_line_is_byte_exact() {
    let line = disguise_line(DisguiseCode::SwitchingProtocols, &b"@RustyManager".to_vec());
    assert_eq!(line, b"HTTP/1.1 101 @RustyManager\r\n\r\n".to_vec());
}

#[test]
fn success_line_is_byte_exact() {
    let line = disguise_line(DisguiseCode::Success, &b"@RustyManager".to_vec());
    assert_eq!(line, b"HTTP/1.1 200 @RustyManager\r\n\r\n".to_vec());
}

#[test]
fn empty_status_still_forms_a_line() {
    let line = disguise_line(DisguiseCode::SwitchingProtocols, &Vec::new());
    assert_eq!(line, b"HTTP/1.1 101 \r\n\r\n".to_vec());
}

#[test]
fn default_registry_targets() {
    let reg = BackendRegistry::defaults();
    let ssh = reg.target_for(Classification::SecureShell);
    assert_eq!(ssh.port, 22);
    assert_eq!((ssh.octet0, ssh.octet1, ssh.octet2, ssh.octet3), (0, 0, 0, 0));
    let vpn = reg.target_for(Classification::Tunnel);
    assert_eq!(vpn.port, 1194);
}

#[test]
fn listen_authority_renders_wildcard() {
    assert_eq!(listen_authority(80), b"[::]:80".to_vec());
    assert_eq!(listen_authority(65535), b"[::]:65535".to_vec());
}

#[test]
fn authority_renders_dotted_decimal() {
    let addr = BackendAddr::new(127, 0, 0, 1, 22);
    assert_eq!(addr.authority(), b"127.0.0.1:22".to_vec());
    let wildcard = BackendAddr::new(0, 0, 0, 0, 1194);
    assert_eq!(wildcard.authority(), b"0.0.0.0:1194".to_vec());
    let wide = BackendAddr::new(255, 255, 255, 255, 65535);
    assert_eq!(wide.authority(), b"255.255.255.255:65535".to_vec());
}
