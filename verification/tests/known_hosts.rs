use trefm::remote::known_hosts::{check_server_key, classify_connect_error, compute_fingerprint, read_known_host, HostKeyCheck};
use trefm::remote::sftp::{known_host_entry, SftpError};

#[test]
fn test_known_hosts_first_connection() {
    // The file starts empty: the host is unknown.
    let mut content = String::new();
    assert_eq!(read_known_host(&content, "test.example.com", 22), None);

    // First connection: the key is trusted and its line stored.
    let fingerprint = "SHA256:test_fingerprint_abc123";
    match check_server_key("test.example.com", 22, Ok(None), fingerprint) {
        HostKeyCheck::AcceptAndStore(line) => content.push_str(&line),
        other => panic!("unexpected decision {other:?}"),
    }

    assert_eq!(read_known_host(&content, "test.example.com", 22), Some(fingerprint.to_string()));
    assert!(content.contains("test.example.com:22 SHA256:test_fingerprint_abc123"));
}

#[test]
fn test_known_hosts_multiple_entries() {
    let mut content = String::new();
    content.push_str(&known_host_entry("host1.example.com", 22, "SHA256:fingerprint1"));
    content.push_str(&known_host_entry("host2.example.com", 2222, "SHA256:fingerprint2"));
    assert_eq!(read_known_host(&content, "host1.example.com", 22), Some("SHA256:fingerprint1".to_string()));
    assert_eq!(read_known_host(&content, "host2.example.com", 2222), Some("SHA256:fingerprint2".to_string()));
}

#[test]
fn test_known_hosts_custom_port() {
    let mut content = String::new();
    content.push_str(&known_host_entry("example.com", 22, "SHA256:default_port"));
    content.push_str(&known_host_entry("example.com", 2222, "SHA256:custom_port"));
    assert_eq!(read_known_host(&content, "example.com", 22), Some("SHA256:default_port".to_string()));
    assert_eq!(read_known_host(&content, "example.com", 2222), Some("SHA256:custom_port".to_string()));
}

#[test]
fn test_compute_fingerprint_consistency() {
    let repr = "PublicKey { key: Ed25519(VerifyingKey(...)) }";
    let fp1 = compute_fingerprint(repr);
    let fp2 = compute_fingerprint(repr);
    assert_eq!(fp1, fp2);
    assert!(fp1.starts_with("SHA256:"));
    assert_eq!(fp1.len(), "SHA256:".len() + 64);
    assert_ne!(fp1, compute_fingerprint("another key"));
}

#[test]
fn known_hosts_skips_comments_blank_lines_and_trims() {
    let content = "# trusted hosts\n\n   \t\nother:22 SHA256:x\r\n  srv:2200 SHA256:abc  \nsrv:2200 SHA256:later\n";
    assert_eq!(read_known_host(content, "srv", 2200), Some("SHA256:abc".to_string()));
    assert_eq!(read_known_host(content, "srv", 22), None);
    assert_eq!(read_known_host("srv:22", "srv", 22), None);
    assert_eq!(read_known_host("#srv:22 k", "srv", 22), None);
}

#[test]
fn check_server_key_decisions() {
    assert!(matches!(
        check_server_key("h", 22, Ok(Some("SHA256:a".to_string())), "SHA256:a"),
        HostKeyCheck::Accept
    ));
    match check_server_key("h", 22, Ok(Some("SHA256:a".to_string())), "SHA256:b") {
        HostKeyCheck::Reject(m) => {
            assert_eq!(m, "Host key verification failed for h:22\nExpected: SHA256:a\nReceived: SHA256:b")
        }
        other => panic!("unexpected decision {other:?}"),
    }
    assert!(matches!(check_server_key("h", 22, Err("unreadable".to_string()), "SHA256:b"), HostKeyCheck::Accept));
}

#[test]
fn classify_connect_error_reads_fingerprints() {
    let msg = "Host key verification failed for h:22\nExpected: SHA256:old \nReceived: SHA256:new";
    match classify_connect_error("h", 22, msg) {
        SftpError::HostKeyMismatch { host, port, expected, received } => {
            assert_eq!(host, "h");
            assert_eq!(port, 22);
            assert_eq!(expected, "SHA256:old");
            assert_eq!(received, "SHA256:new");
        }
        other => panic!("unexpected error {other:?}"),
    }
    assert!(matches!(
        classify_connect_error("h", 22, "Host key verification failed somehow"),
        SftpError::HostKeyError(m) if m == "Host key verification failed somehow"
    ));
    assert!(matches!(
        classify_connect_error("h", 22, "connection refused"),
        SftpError::ConnectionFailed(m) if m == "connection refused"
    ));
}
