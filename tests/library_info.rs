use shared::constants;
use shared::{APP_NAME, DEFAULT_DB_PATH, VERSION};

#[test]
fn test_version_exists() {
    assert!(!VERSION.is_empty());
}

#[test]
fn test_app_name() {
    assert_eq!(APP_NAME, "shared");
}

#[test]
fn test_constants() {
    assert_eq!(constants::GRPC_PORT, 50051);
    assert_eq!(constants::WEB_PORT, 3000);
}

#[test]
fn limits_and_default_path() {
    assert_eq!(constants::MAX_TITLE_LENGTH, 200);
    assert_eq!(constants::MAX_DESCRIPTION_LENGTH, 2000);
    assert_eq!(constants::MIN_USERNAME_LENGTH, 3);
    assert_eq!(constants::MAX_USERNAME_LENGTH, 50);
    assert_eq!(constants::MIN_PASSWORD_LENGTH, 8);
    assert_eq!(DEFAULT_DB_PATH, "sqlite:tasks.db");
}
