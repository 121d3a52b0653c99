use trefm::remote::sftp::{known_host_entry, remote_entry, SftpConfig, SftpError};

#[test]
fn display_label_default_port() {
    let config = SftpConfig {
        host: "example.com".to_string(),
        port: 22,
        username: "kim".to_string(),
        password: "secret".to_string(),
    };
    assert_eq!(config.display_label(), "kim@example.com");
}

#[test]
fn display_label_custom_port() {
    let config = SftpConfig {
        host: "example.com".to_string(),
        port: 2222,
        username: "kim".to_string(),
        password: "secret".to_string(),
    };
    assert_eq!(config.display_label(), "kim@example.com:2222");
}

#[test]
fn sftp_error_display() {
    let err = SftpError::ConnectionFailed("timeout".to_string());
    assert_eq!(err.message(), "connection failed: timeout");

    let err = SftpError::AuthFailed("bad password".to_string());
    assert_eq!(err.message(), "authentication failed: bad password");

    let err = SftpError::Disconnected;
    assert_eq!(err.message(), "session disconnected");

    let err = SftpError::HostKeyMismatch {
        host: "example.com".to_string(),
        port: 22,
        expected: "SHA256:old_key".to_string(),
        received: "SHA256:new_key".to_string(),
    };
    let err_str = err.message();
    assert!(err_str.contains("host key verification failed"));
    assert!(err_str.contains("SHA256:old_key"));
    assert!(err_str.contains("SHA256:new_key"));
}

#[test]
fn remote_entries_join_paths_and_mark_hidden() {
    let e = remote_entry("/home/kim//", ".profile".to_string(), 42, Some(5), false, false);
    assert_eq!(e.path(), "/home/kim/.profile");
    assert!(e.is_hidden());
    assert_eq!(e.size(), 42);
    let d = remote_entry("/", "etc".to_string(), 4096, None, true, false);
    assert_eq!(d.path(), "/etc");
    assert_eq!(d.size(), 0);
}

#[test]
fn known_host_line_format() {
    assert_eq!(known_host_entry("example.com", 2222, "SHA256:abc"), "example.com:2222 SHA256:abc\n");
}
