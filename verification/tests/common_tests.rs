use statusline::common::{
    contains_null_byte, get_config_dir, get_data_dir, get_device_id, join_path,
    validate_path_security,
};
use statusline::error::StatuslineError;

#[test]
fn test_get_data_dir() {
    let dir = get_data_dir(None, Some("/home/user/.local/share"), Some("/home/user"));
    assert!(dir.contains("claudia-statusline"));
}

#[test]
fn test_get_config_dir() {
    let config_dir = get_config_dir(None, Some("/home/user/.config"), Some("/home/user"));
    let data_dir = get_data_dir(None, Some("/home/user/.local/share"), Some("/home/user"));

    assert!(config_dir.contains("claudia-statusline"));
    assert_ne!(
        config_dir, data_dir,
        "Config directory should be different from data directory on Linux"
    );
    assert!(config_dir.ends_with("claudia-statusline"));
}

#[test]
fn data_dir_prefers_the_user_setting() {
    assert_eq!(
        get_data_dir(Some("/tmp/xdg"), Some("/platform"), Some("/home/user")),
        "/tmp/xdg/claudia-statusline"
    );
    assert_eq!(
        get_data_dir(None, Some("/platform"), Some("/home/user")),
        "/platform/claudia-statusline"
    );
    assert_eq!(
        get_data_dir(None, None, Some("/home/user")),
        "/home/user/.local/share/claudia-statusline"
    );
    assert_eq!(get_data_dir(None, None, None), "./.local/share/claudia-statusline");
}

#[test]
fn config_dir_prefers_the_user_setting() {
    assert_eq!(
        get_config_dir(Some("/tmp/xdg"), Some("/platform"), Some("/home/user")),
        "/tmp/xdg/claudia-statusline"
    );
    assert_eq!(
        get_config_dir(None, Some("/platform"), None),
        "/platform/claudia-statusline"
    );
    assert_eq!(
        get_config_dir(None, None, Some("/home/user")),
        "/home/user/.config/claudia-statusline"
    );
    assert_eq!(get_config_dir(None, None, None), "./.config/claudia-statusline");
}

#[test]
fn join_path_adds_one_slash_where_needed() {
    assert_eq!(join_path("/a", "b"), "/a/b");
    assert_eq!(join_path("/a/", "b"), "/a/b");
    assert_eq!(join_path("", "b"), "b");
    assert_eq!(join_path("/", "b"), "/b");
}

#[test]
fn test_validate_path_security() {
    assert!(validate_path_security("path\0injection", None).is_err());
    assert!(validate_path_security("path\0injection", Some("/tmp/path".to_string())).is_err());

    let result = validate_path_security("/tmp/some/../dir", Some("/tmp/dir".to_string()));
    assert!(result.is_ok());
    assert_eq!(result.unwrap(), "/tmp/dir");
}

#[test]
fn path_errors_carry_their_messages() {
    match validate_path_security("a\0b", Some("/a".to_string())) {
        Err(StatuslineError::InvalidPath(message)) => {
            assert_eq!(message, "Path contains null bytes")
        }
        other => panic!("unexpected result: {:?}", other),
    }
    match validate_path_security("/no/such/file", None) {
        Err(StatuslineError::InvalidPath(message)) => {
            assert_eq!(message, "Cannot canonicalize path: /no/such/file")
        }
        other => panic!("unexpected result: {:?}", other),
    }
}

#[test]
fn null_bytes_are_found_anywhere() {
    assert!(contains_null_byte("\0"));
    assert!(contains_null_byte("abc\0"));
    assert!(contains_null_byte("\0abc"));
    assert!(!contains_null_byte(""));
    assert!(!contains_null_byte("/tmp/test.jsonl"));
}

#[test]
fn test_get_device_id() {
    let device_id = get_device_id(Some("myhost"), Some("alice"), None);

    assert_eq!(device_id.len(), 16);
    assert!(device_id.chars().all(|c| c.is_ascii_hexdigit()));

    let device_id2 = get_device_id(Some("myhost"), Some("alice"), None);
    assert_eq!(device_id, device_id2);
}

#[test]
fn device_id_is_the_start_of_the_digest() {
    assert_eq!(get_device_id(Some("myhost"), Some("alice"), None), "3ec1a74d688bd4f4");
    assert_eq!(get_device_id(Some("myhost"), None, Some("bob")), "2e03d10c6248c70b");
    assert_eq!(get_device_id(Some("myhost"), Some("alice"), Some("bob")), "3ec1a74d688bd4f4");
    assert_eq!(get_device_id(None, None, None), "c1e6dc53d5ed58cd");
}

#[test]
fn device_id_differs_from_its_input() {
    let id = get_device_id(Some("myhost"), Some("alice"), None);
    assert_ne!(id, "myhost|alice");
    assert_ne!(id, get_device_id(Some("myhost"), Some("bob"), None));
}
