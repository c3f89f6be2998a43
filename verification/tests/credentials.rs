use tgltrk::credentials::{CredentialStore, EnvStore};
use tgltrk::error::AppError;

#[test]
fn env_store_read_returns_token() {
    let store = EnvStore {
        token: "abc".to_string(),
    };
    let cred = store.read().unwrap();
    assert_eq!(cred.api_token, "abc");
}

#[test]
fn env_store_save_returns_error() {
    let store = EnvStore {
        token: "abc".to_string(),
    };
    let result = store.save("x");
    assert!(result.is_err());
}

#[test]
fn env_store_clear_returns_error() {
    let store = EnvStore {
        token: "abc".to_string(),
    };
    let result = store.clear();
    assert!(result.is_err());
}

#[test]
fn env_store_refusals_explain_why() {
    let store = EnvStore { token: "abc".to_string() };
    match store.save("x") {
        Err(AppError::Auth(m)) => {
            assert_eq!(m, "Cannot save token when using environment variable")
        }
        other => panic!("got: {other:?}"),
    }
    match store.clear() {
        Err(AppError::Auth(m)) => {
            assert_eq!(m, "Cannot clear token when using environment variable")
        }
        other => panic!("got: {other:?}"),
    }
    assert_eq!(store.read().unwrap().api_token, "abc");
}
