//! The commands and options of the command line, as plain values, and the
//! checks made on them before any command runs.

use vstd::prelude::*;

use crate::error::{AppError, AppErrorView};
use crate::time::{naive_date_parse_ok, naive_date_parses};

verus! {

broadcast use vstd::string::group_string_axioms;

/// The parsed command line.
#[derive(Debug)]
pub struct Cli {
    /// The command to run; none when only the usage guide is asked for.
    pub command: Option<Command>,
    /// Output in JSON format.
    pub json: bool,
    /// Override workspace ID.
    pub workspace: Option<i64>,
    /// Print the usage guide for AI agents and exit.
    pub help_skill: bool,
}

#[derive(Debug)]
pub enum Command {
    /// Manage authentication.
    Auth { action: AuthAction },
    /// Show current user info.
    Me,
    /// Manage running timer.
    Timer { action: TimerAction },
    /// Manage time entries.
    Entries { action: EntriesAction },
    /// Manage projects.
    Projects { action: ProjectsAction },
    /// Manage tags.
    Tags { action: TagsAction },
    /// Manage clients.
    Clients { action: ClientsAction },
    /// Manage workspaces.
    Workspaces { action: WorkspacesAction },
    /// Manage cache.
    Cache { action: CacheAction },
}

#[derive(Debug)]
pub enum AuthAction {
    /// Save API token (read from the terminal when omitted).
    Login { token: Option<String> },
    /// Remove saved API token.
    Clear,
    /// Show authentication status.
    Status,
}

#[derive(Debug)]
pub enum TimerAction {
    /// Show current running timer.
    Current,
    /// Start a new timer.
    Start {
        description: Option<String>,
        project: Option<i64>,
        task: Option<i64>,
        tags: Option<Vec<String>>,
        billable: bool,
    },
    /// Stop the current timer.
    Stop,
}

#[derive(Debug)]
pub enum EntriesAction {
    /// List recent time entries.
    List { since: Option<String>, until: Option<String>, count: Option<usize> },
    /// Get a specific time entry.
    Get { id: i64 },
    /// Create a finished time entry.
    Create {
        description: Option<String>,
        project: Option<i64>,
        task: Option<i64>,
        tags: Option<Vec<String>>,
        billable: bool,
        start: String,
        stop: Option<String>,
        duration: Option<String>,
    },
    /// Edit a time entry.
    Edit {
        id: i64,
        description: Option<String>,
        project: Option<i64>,
        tags: Option<Vec<String>>,
        billable: Option<bool>,
        start: Option<String>,
        stop: Option<String>,
        duration: Option<String>,
    },
    /// Delete a time entry.
    Delete { id: i64 },
    /// Continue a previous time entry.
    Continue { id: i64 },
}

#[derive(Debug)]
pub enum ProjectsAction {
    /// List all projects.
    List,
    /// Get a specific project.
    Get { id: i64 },
    /// Create a new project.
    Create { name: String, client: Option<i64> },
    /// Update a project.
    Update { id: i64, name: Option<String>, client: Option<i64> },
    /// Delete a project.
    Delete { id: i64 },
}

#[derive(Debug)]
pub enum TagsAction {
    /// List all tags.
    List,
    /// Create a new tag.
    Create { name: String },
    /// Update a tag.
    Update { id: i64, name: String },
    /// Delete a tag.
    Delete { id: i64 },
}

#[derive(Debug)]
pub enum ClientsAction {
    /// List all clients.
    List,
    /// Get a specific client.
    Get { id: i64 },
    /// Create a new client.
    Create { name: String },
    /// Update a client.
    Update { id: i64, name: String },
    /// Delete a client.
    Delete { id: i64 },
}

#[derive(Debug)]
pub enum WorkspacesAction {
    /// List all workspaces.
    List,
    /// Get a specific workspace.
    Get { id: i64 },
}

#[derive(Debug)]
pub enum CacheAction {
    /// Clear all cached data.
    Clear,
    /// Show cache status.
    Status,
}

/// The message for a date option that is not `YYYY-MM-DD`.
pub open spec fn invalid_date_message(s: Seq<char>) -> Seq<char> {
    "Invalid date format: '"@ + s + "' (expected YYYY-MM-DD)"@
}

/// Checks a `--since` / `--until` value: the text itself when chrono reads
/// it as a `YYYY-MM-DD` date, else the message that explains the format.
pub fn parse_date(s: &str) -> (r: Result<String, String>)
    ensures
        naive_date_parses(s@, "%Y-%m-%d"@) ==> (r matches Ok(t) && t@ == s@),
        !naive_date_parses(s@, "%Y-%m-%d"@) ==> (r matches Err(m) && m@ == invalid_date_message(
            s@,
        )),
{
    if naive_date_parse_ok(s, "%Y-%m-%d") {
        Ok(s.to_string())
    } else {
        let mut m = "Invalid date format: '".to_string();
        m.append(s);
        m.append("' (expected YYYY-MM-DD)");
        Err(m)
    }
}

/// What a run of the program does: `Ok(None)` to print the usage guide,
/// `Ok(Some(command))` to run the command; without either, the error that
/// asks for a command.
pub fn select_command(help_skill: bool, command: Option<Command>) -> (r: Result<
    Option<Command>,
    AppError,
>)
    ensures
        help_skill ==> r matches Ok(None),
        !help_skill && command is Some ==> r == Ok::<Option<Command>, AppError>(command),
        !help_skill && command is None ==> (r matches Err(e) && e@ == AppErrorView::InvalidInput(
            "No command provided. Run with --help for usage."@,
        )),
{
    if help_skill {
        return Ok(None);
    }
    match command {
        Some(c) => Ok(Some(c)),
        None => Err(
            AppError::InvalidInput("No command provided. Run with --help for usage.".to_string()),
        ),
    }
}

} // verus!
