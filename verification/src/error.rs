//! The error type shared by every operation of the crate, and its messages.

use vstd::prelude::*;

use crate::cache::{cache_error_message, CacheError};
use crate::text::{dec_nat, push_dec_u64};

verus! {

broadcast use vstd::string::group_string_axioms;

/// Everything that can go wrong in a command.
#[derive(Debug)]
pub enum AppError {
    Api(String),
    HttpStatus { status: u16, body: String },
    Auth(String),
    Keyring(String),
    Cache(String),
    Io(String),
    NotFound(String),
    InvalidInput(String),
}

pub type Result<T> = std::result::Result<T, AppError>;

/// An `AppError` with its texts taken as character sequences.
pub enum AppErrorView {
    Api(Seq<char>),
    HttpStatus { status: u16, body: Seq<char> },
    Auth(Seq<char>),
    Keyring(Seq<char>),
    Cache(Seq<char>),
    Io(Seq<char>),
    NotFound(Seq<char>),
    InvalidInput(Seq<char>),
}

impl View for AppError {
    type V = AppErrorView;

    open spec fn view(&self) -> AppErrorView {
        match self {
            AppError::Api(m) => AppErrorView::Api(m@),
            AppError::HttpStatus { status, body } => AppErrorView::HttpStatus {
                status: *status,
                body: body@,
            },
            AppError::Auth(m) => AppErrorView::Auth(m@),
            AppError::Keyring(m) => AppErrorView::Keyring(m@),
            AppError::Cache(m) => AppErrorView::Cache(m@),
            AppError::Io(m) => AppErrorView::Io(m@),
            AppError::NotFound(m) => AppErrorView::NotFound(m@),
            AppError::InvalidInput(m) => AppErrorView::InvalidInput(m@),
        }
    }
}

/// The message that the error displays.
pub open spec fn app_error_message(e: AppErrorView) -> Seq<char> {
    match e {
        AppErrorView::Api(m) => "API error: "@ + m,
        AppErrorView::HttpStatus { status, body } => "HTTP "@ + dec_nat(status as nat) + ": "@
            + body,
        AppErrorView::Auth(m) => "Authentication error: "@ + m,
        AppErrorView::Keyring(m) => "Keyring error: "@ + m,
        AppErrorView::Cache(m) => "Cache error: "@ + m,
        AppErrorView::Io(m) => "IO error: "@ + m,
        AppErrorView::NotFound(m) => "Not found: "@ + m,
        AppErrorView::InvalidInput(m) => "Invalid input: "@ + m,
    }
}

impl AppError {
    /// The human-readable message of the error.
    pub fn to_string(&self) -> (s: String)
        ensures
            s@ == app_error_message(self@),
    {
        let mut s = String::new();
        match self {
            AppError::Api(m) => {
                s.append("API error: ");
                s.append(m.as_str());
            },
            AppError::HttpStatus { status, body } => {
                s.append("HTTP ");
                push_dec_u64(&mut s, *status as u64);
                s.append(": ");
                s.append(body.as_str());
            },
            AppError::Auth(m) => {
                s.append("Authentication error: ");
                s.append(m.as_str());
            },
            AppError::Keyring(m) => {
                s.append("Keyring error: ");
                s.append(m.as_str());
            },
            AppError::Cache(m) => {
                s.append("Cache error: ");
                s.append(m.as_str());
            },
            AppError::Io(m) => {
                s.append("IO error: ");
                s.append(m.as_str());
            },
            AppError::NotFound(m) => {
                s.append("Not found: ");
                s.append(m.as_str());
            },
            AppError::InvalidInput(m) => {
                s.append("Invalid input: ");
                s.append(m.as_str());
            },
        }
        s
    }

    /// A cache failure as an application error: `Cache(<its message>)`.
    pub fn from_cache_error(e: CacheError) -> (r: AppError)
        ensures
            r@ == AppErrorView::Cache(cache_error_message(e@)),
    {
        AppError::Cache(e.to_string())
    }
}

} // verus!
