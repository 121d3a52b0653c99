use trefm::error::{CoreError, CoreResult};

#[test]
fn not_found_displays_path() {
    let err = CoreError::NotFound("/missing/file".to_string());
    assert_eq!(err.message(), "path not found: /missing/file");
}

#[test]
fn permission_denied_displays_path() {
    let err = CoreError::PermissionDenied("/secret".to_string());
    assert_eq!(err.message(), "permission denied: /secret");
}

#[test]
fn not_a_directory_displays_path() {
    let err = CoreError::NotADirectory("/some/file.txt".to_string());
    assert_eq!(err.message(), "not a directory: /some/file.txt");
}

#[test]
fn invalid_name_displays_message() {
    let err = CoreError::InvalidName("bad/name".to_string());
    assert_eq!(err.message(), "invalid name: bad/name");
}

#[test]
fn config_parse_displays_message() {
    let err = CoreError::ConfigParse("unexpected token".to_string());
    assert_eq!(err.message(), "config parse error: unexpected token");
}

#[test]
fn cancelled_displays_message() {
    let err = CoreError::Cancelled;
    assert_eq!(err.message(), "operation cancelled");
}

#[test]
fn io_error_from_std() {
    let io_err = std::io::Error::new(std::io::ErrorKind::NotFound, "gone");
    let core_err: CoreError = io_err.into();
    assert!(matches!(core_err, CoreError::Io(_)));
    assert!(core_err.message().contains("gone"));
}

#[test]
fn core_result_ok() {
    let result: CoreResult<i32> = Ok(42);
    assert!(result.is_ok());
    assert_eq!(result.unwrap(), 42);
}

#[test]
fn core_result_err() {
    let result: CoreResult<i32> = Err(CoreError::Cancelled);
    assert!(result.is_err());
}

#[test]
fn remote_error_displays_message() {
    let err = CoreError::Remote("connection refused".to_string());
    assert_eq!(err.message(), "remote error: connection refused");
}

#[test]
fn error_is_debug() {
    let err = CoreError::NotFound("/test".to_string());
    let debug = format!("{:?}", err);
    assert!(debug.contains("NotFound"));
}

#[test]
fn git_error_displays_message() {
    let err = CoreError::Git("bad ref".to_string());
    assert_eq!(err.message(), "git error: bad ref");
}
