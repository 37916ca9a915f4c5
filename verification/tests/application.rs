use healthcheck::application::{ApplicationError, DatabaseConfig};

#[test]
fn default_database_is_local_file() {
    assert_eq!(DatabaseConfig::default().path, "healthcheck.db");
}

#[test]
fn empty_database_path_is_rejected() {
    match DatabaseConfig::new(String::new()) {
        Err(ApplicationError::InvalidDatabasePath(message)) => assert_eq!(message, "database path must not be empty"),
        other => panic!("unexpected {other:?}"),
    }
}

#[test]
fn directory_database_path_is_rejected() {
    let path = ".".to_owned();
    match DatabaseConfig::new(path.clone()) {
        Err(ApplicationError::InvalidDatabasePath(message)) => {
            assert_eq!(message, format!("database path is a directory: {path}"))
        }
        other => panic!("unexpected {other:?}"),
    }
}

#[test]
fn file_database_path_is_accepted_and_becomes_url() {
    let config = DatabaseConfig::new("data\\local\\healthcheck.db".to_owned()).expect("valid");

    assert_eq!(config.url(), "sqlite://data/local/healthcheck.db");
}

#[test]
fn checked_path_rules() {
    assert!(DatabaseConfig::from_checked_path("a.db".to_owned(), false).is_ok());
    assert!(matches!(
        DatabaseConfig::from_checked_path("a".to_owned(), true),
        Err(ApplicationError::InvalidDatabasePath(message)) if message == "database path is a directory: a"
    ));
}
