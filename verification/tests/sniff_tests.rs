use rusty_proxy::sniff::{classify, find_ssh_marker, Classification, PeekOutcome, PeekResult};

fn completed(bytes: &[u8]) -> PeekResult {
    PeekResult { bytes: bytes.to_vec(), outcome: PeekOutcome::Completed }
}

#[test]
fn empty_look_ahead_classifies_secure_shell() {
    let class = classify(&completed(b""));
    assert_eq!(class, Classification::SecureShell);
}

#[test]
fn ssh_banner_classifies_secure_shell() {
    let class = classify(&completed(b"SSH-2.0-OpenSSH_9.0"));
    assert_eq!(class, Classification::SecureShell);
}

#[test]
fn tls_client_hello_classifies_tunnel() {
    let class = classify(&completed(b"\x16\x03\x01\x02\x00\x01"));
    assert_eq!(class, Classification::Tunnel);
}

#[test]
fn libssh_banner_classifies_secure_shell() {
    // The "contains SSH" rule, regardless of the content being non-empty.
    let class = classify(&completed(b"SSH-2.0-libssh_0.9\r\n"));
    assert_eq!(class, Classification::SecureShell);
}

#[test]
fn ssh_in_the_middle_classifies_secure_shell() {
    let class = classify(&completed(b"GET /SSH HTTP/1.1\r\n"));
    assert_eq!(class, Classification::SecureShell);
}

#[test]
fn timeout_classifies_secure_shell() {
    let peek = PeekResult { bytes: Vec::new(), outcome: PeekOutcome::TimedOut };
    assert_eq!(classify(&peek), Classification::SecureShell);
}

#[test]
fn io_error_classifies_secure_shell() {
    let peek = PeekResult { bytes: b"\x16\x03".to_vec(), outcome: PeekOutcome::Failed };
    assert_eq!(classify(&peek), Classification::SecureShell);
}

#[test]
fn marker_search_is_case_sensitive() {
    assert!(!find_ssh_marker(b"ssh-2.0"));
    assert!(find_ssh_marker(b"xSSHy"));
    assert!(!find_ssh_marker(b"SS"));
    assert!(!find_ssh_marker(b"S S H"));
    assert!(find_ssh_marker(b"SSH"));
}
