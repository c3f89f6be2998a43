//! Library core of a command-line client for the Toggl Track time-tracking API.

pub mod commands;
pub mod error;
pub mod text;
pub mod time;
pub mod cache;
pub mod models;
pub mod api;
pub mod cli;
pub mod output;
pub mod credentials;
