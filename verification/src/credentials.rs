//! Where the API token comes from: a store that can read, save and clear it.
//! The store backed by the environment variable lives here; the one backed
//! by the operating system's keyring belongs to the program around the library.

use vstd::prelude::*;

use crate::error::{AppError, AppErrorView};

verus! {

broadcast use vstd::string::group_string_axioms;

/// The credential that authenticates the client.
#[derive(Debug)]
pub struct Credential {
    pub api_token: String,
}

/// A place that holds the API token.
pub trait CredentialStore {
    fn read(&self) -> Result<Credential, AppError>;

    fn save(&self, token: &str) -> Result<(), AppError>;

    fn clear(&self) -> Result<(), AppError>;
}

/// The token given by the environment variable: it can be read, and neither
/// saved nor cleared.
#[derive(Debug)]
pub struct EnvStore {
    pub token: String,
}

impl CredentialStore for EnvStore {
    fn read(&self) -> (r: Result<Credential, AppError>)
        ensures
            r matches Ok(c) && c.api_token@ == self.token@,
    {
        Ok(Credential { api_token: self.token.clone() })
    }

    fn save(&self, token: &str) -> (r: Result<(), AppError>)
        ensures
            r matches Err(e) && e@ == AppErrorView::Auth(
                "Cannot save token when using environment variable"@,
            ),
    {
        Err(AppError::Auth("Cannot save token when using environment variable".to_string()))
    }

    fn clear(&self) -> (r: Result<(), AppError>)
        ensures
            r matches Err(e) && e@ == AppErrorView::Auth(
                "Cannot clear token when using environment variable"@,
            ),
    {
        Err(AppError::Auth("Cannot clear token when using environment variable".to_string()))
    }
}

} // verus!
