use azure_common::client::{build_client, Credentials};
use azure_common::error::ConfigurationError;

#[test]
fn a_connection_string_alone_gives_a_handle() {
    let built = build_client(
        Some("AccountName=logs;AccountKey=c2VjcmV0".to_string()),
        None,
        "events".to_string(),
    );
    match built {
        Ok(handle) => {
            assert_eq!(handle.container_name, "events");
            match &handle.credentials {
                Credentials::ConnectionString(secret) => {
                    assert_eq!(secret, "AccountName=logs;AccountKey=c2VjcmV0")
                }
                Credentials::StorageAccount(_) => panic!("wrong credentials"),
            }
        }
        Err(_) => panic!("no handle"),
    }
}

#[test]
fn a_storage_account_alone_gives_a_handle() {
    let built = build_client(None, Some("logsaccount".to_string()), "events".to_string());
    match built {
        Ok(handle) => {
            assert_eq!(handle.container_name, "events");
            match &handle.credentials {
                Credentials::StorageAccount(account) => assert_eq!(account, "logsaccount"),
                Credentials::ConnectionString(_) => panic!("wrong credentials"),
            }
        }
        Err(_) => panic!("no handle"),
    }
}

#[test]
fn no_credentials_are_refused() {
    let built = build_client(None, None, "events".to_string());
    assert!(matches!(built, Err(ConfigurationError::MissingCredentials)));
}

#[test]
fn two_credentials_are_refused() {
    let built = build_client(
        Some("AccountName=logs;AccountKey=c2VjcmV0".to_string()),
        Some("logsaccount".to_string()),
        "events".to_string(),
    );
    assert!(matches!(built, Err(ConfigurationError::ConflictingCredentials)));
}

#[test]
fn empty_credentials_still_count_as_given() {
    assert!(build_client(Some(String::new()), None, String::new()).is_ok());
    assert!(build_client(None, Some(String::new()), String::new()).is_ok());
    assert!(matches!(
        build_client(Some(String::new()), Some(String::new()), String::new()),
        Err(ConfigurationError::ConflictingCredentials)
    ));
}

#[test]
fn configuration_errors_explain_themselves() {
    assert_eq!(
        ConfigurationError::MissingCredentials.message(),
        "Either `connection_string` or `storage_account` has to be provided"
    );
    assert_eq!(
        ConfigurationError::ConflictingCredentials.message(),
        "`connection_string` and `storage_account` can't be provided at the same time"
    );
    assert_ne!(
        ConfigurationError::MissingCredentials,
        ConfigurationError::ConflictingCredentials
    );
}
