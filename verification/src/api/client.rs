//! What the HTTP client of the API decides: the parameters of each call, the
//! bodies it sends, the endpoints it reaches, its credentials header, and how
//! it reads a response. The requests themselves are sent by the program
//! around the library.

use base64::Engine;
use vstd::prelude::*;

use crate::api::wire::{
    CreateProjectRequest, CreateTimeEntryRequest, UpdateProjectRequest, UpdateTimeEntryRequest,
};
use crate::error::{AppError, AppErrorView};
use crate::models::{ClientId, ProjectId, TagId, TaskId, TimeEntry, TimeEntryId, WorkspaceId};
use crate::text::{chars_eq, dec_int, push_dec_i64, str_chars, trim, trimmed_chars};
use crate::time::Timestamp;

verus! {

broadcast use vstd::string::group_string_axioms;

/// The name the client gives itself in the entries it creates.
pub const CLIENT_NAME: &'static str = "tgltrk";

// ---------------------------------------------------------------------------
// Parameters
// ---------------------------------------------------------------------------

#[derive(Debug)]
pub struct CreateTimeEntryParams {
    pub description: Option<String>,
    pub project_id: Option<i64>,
    pub task_id: Option<TaskId>,
    pub tags: Vec<String>,
    pub billable: bool,
    pub start: Option<Timestamp>,
    pub stop: Option<Timestamp>,
    pub duration: Option<i64>,
}

#[derive(Debug)]
pub struct UpdateTimeEntryParams {
    pub description: Option<String>,
    pub project_id: Option<i64>,
    pub tags: Option<Vec<String>>,
    pub billable: Option<bool>,
    pub start: Option<Timestamp>,
    pub stop: Option<Timestamp>,
    pub duration: Option<i64>,
}

#[derive(Debug)]
pub struct CreateProjectParams {
    pub name: String,
    pub client_id: Option<i64>,
}

#[derive(Debug)]
pub struct UpdateProjectParams {
    pub name: Option<String>,
    pub client_id: Option<i64>,
}

/// The text of an optional string.
pub open spec fn opt_view(s: Option<String>) -> Option<Seq<char>> {
    match s {
        Some(x) => Some(x@),
        None => None,
    }
}

/// A copy of an optional string.
pub fn clone_opt_string(s: &Option<String>) -> (r: Option<String>)
    ensures
        opt_view(r) == opt_view(*s),
{
    match s {
        Some(x) => Some(x.clone()),
        None => None,
    }
}

/// A copy of a list of strings.
pub fn clone_strings(v: &Vec<String>) -> (r: Vec<String>)
    ensures
        r@ == v@,
{
    let r = v.clone();
    assert(r@ =~= v@) by {
        assert forall|i: int| 0 <= i < v.len() implies r@[i] == v@[i] by {
            assert(vstd::pervasive::cloned::<String>(v[i], r[i]));
        }
    }
    r
}

impl CreateTimeEntryParams {
    /// The parameters that start a new entry like `entry` (`entries continue`):
    /// its description, project, task, tags and billable flag, starting now.
    pub fn from_entry(entry: &TimeEntry) -> (p: CreateTimeEntryParams)
        ensures
            opt_view(p.description) == opt_view(entry.description),
            p.project_id == entry.project_id,
            p.task_id == entry.task_id,
            p.tags@ == entry.tags@,
            p.billable == entry.billable,
            p.start is None,
            p.stop is None,
            p.duration is None,
    {
        CreateTimeEntryParams {
            description: clone_opt_string(&entry.description),
            project_id: entry.project_id,
            task_id: entry.task_id,
            tags: clone_strings(&entry.tags),
            billable: entry.billable,
            start: None,
            stop: None,
            duration: None,
        }
    }
}

// ---------------------------------------------------------------------------
// Request bodies
// ---------------------------------------------------------------------------

/// The body that creates an entry: it starts at the given start or at `now`;
/// without a given duration it runs, with the negated start second as its
/// duration, as the API expects of a running entry.
pub fn build_create_request(
    workspace_id: WorkspaceId,
    params: &CreateTimeEntryParams,
    now: Timestamp,
) -> (r: CreateTimeEntryRequest)
    requires
        now.in_range(),
        params.start matches Some(s) ==> s.in_range(),
    ensures
        r.workspace_id == workspace_id,
        opt_view(r.description) == opt_view(params.description),
        r.project_id == params.project_id,
        r.task_id == params.task_id,
        r.tags@ == params.tags@,
        r.billable == params.billable,
        r.start == (match params.start {
            Some(s) => s,
            None => now,
        }),
        r.duration == (match params.duration {
            Some(d) => d as int,
            None => -r.start.secs,
        }),
        r.created_with@ == CLIENT_NAME@,
        r.stop == params.stop,
{
    let start = match params.start {
        Some(s) => s,
        None => now,
    };
    let duration = match params.duration {
        Some(d) => d,
        None => -start.secs,
    };
    CreateTimeEntryRequest {
        workspace_id,
        description: clone_opt_string(&params.description),
        project_id: params.project_id,
        task_id: params.task_id,
        tags: clone_strings(&params.tags),
        billable: params.billable,
        start,
        duration,
        created_with: CLIENT_NAME.to_string(),
        stop: params.stop,
    }
}

/// The body that updates an entry: exactly the fields given.
pub fn build_update_request(params: &UpdateTimeEntryParams) -> (r: UpdateTimeEntryRequest)
    ensures
        opt_view(r.description) == opt_view(params.description),
        r.project_id == params.project_id,
        r.tags is Some <==> params.tags is Some,
        r.tags matches Some(t) ==> t@ == params.tags->Some_0@,
        r.billable == params.billable,
        r.start == params.start,
        r.stop == params.stop,
        r.duration == params.duration,
{
    let tags = match &params.tags {
        Some(t) => Some(clone_strings(t)),
        None => None,
    };
    UpdateTimeEntryRequest {
        description: clone_opt_string(&params.description),
        project_id: params.project_id,
        tags,
        billable: params.billable,
        start: params.start,
        stop: params.stop,
        duration: params.duration,
    }
}

/// The body that creates a project: active, with the given name and client.
pub fn build_create_project_request(params: &CreateProjectParams) -> (r: CreateProjectRequest)
    ensures
        r.name@ == params.name@,
        r.active,
        r.client_id == params.client_id,
{
    CreateProjectRequest { name: params.name.clone(), active: true, client_id: params.client_id }
}

/// The body that updates a project: exactly the fields given.
pub fn build_update_project_request(params: &UpdateProjectParams) -> (r: UpdateProjectRequest)
    ensures
        opt_view(r.name) == opt_view(params.name),
        r.client_id == params.client_id,
{
    UpdateProjectRequest { name: clone_opt_string(&params.name), client_id: params.client_id }
}

/// The query of `GET /me/time_entries`: `start_date`, then `end_date`, each when given.
pub open spec fn time_entries_query_spec(since: Option<Seq<char>>, until: Option<Seq<char>>) -> Seq<
    (Seq<char>, Seq<char>),
> {
    let a: Seq<(Seq<char>, Seq<char>)> = match since {
        Some(s) => seq![("start_date"@, s)],
        None => Seq::empty(),
    };
    match until {
        Some(u) => a.push(("end_date"@, u)),
        None => a,
    }
}

/// Each date bound is sent under its own name, whatever the other one is:
/// `--since` as `start_date`, `--until` as `end_date`, each at most once, and
/// nothing else.
pub proof fn law_query_names_each_bound(since: Option<Seq<char>>, until: Option<Seq<char>>)
    ensures
        since matches Some(s) ==> time_entries_query_spec(since, until).contains(
            ("start_date"@, s),
        ),
        until matches Some(u) ==> time_entries_query_spec(since, until).contains(
            ("end_date"@, u),
        ),
        forall|i: int|
            0 <= i < time_entries_query_spec(since, until).len() ==> {
                let (name, value) = #[trigger] time_entries_query_spec(since, until)[i];
                (name == "start_date"@ && since == Some(value)) || (name == "end_date"@ && until
                    == Some(value))
            },
        time_entries_query_spec(since, until).len() == (if since is Some {
            1int
        } else {
            0int
        }) + (if until is Some {
            1int
        } else {
            0int
        }),
{
    let q = time_entries_query_spec(since, until);
    if let Some(s) = since {
        assert(q[0] == ("start_date"@, s));
    }
    if let Some(u) = until {
        assert(q[q.len() - 1] == ("end_date"@, u));
    }
}

/// The query parameters for listing entries between two dates.
pub fn time_entries_query(since: &Option<String>, until: &Option<String>) -> (q: Vec<
    (String, String),
>)
    ensures
        q@.map_values(|p: (String, String)| (p.0@, p.1@)) == time_entries_query_spec(
            opt_view(*since),
            opt_view(*until),
        ),
{
    let mut q: Vec<(String, String)> = Vec::new();
    if let Some(s) = since {
        q.push(("start_date".to_string(), s.clone()));
    }
    if let Some(u) = until {
        q.push(("end_date".to_string(), u.clone()));
    }
    assert(q@.map_values(|p: (String, String)| (p.0@, p.1@)) =~= time_entries_query_spec(
        opt_view(*since),
        opt_view(*until),
    ));
    q
}

// ---------------------------------------------------------------------------
// Endpoints
// ---------------------------------------------------------------------------

/// The resources of the API that the client reaches.
#[derive(Debug)]
pub enum Endpoint {
    Me,
    CurrentTimer,
    MyTimeEntries,
    MyTimeEntry(TimeEntryId),
    MyWorkspaces,
    Workspace(WorkspaceId),
    TimeEntries(WorkspaceId),
    TimeEntry(WorkspaceId, TimeEntryId),
    StopTimeEntry(WorkspaceId, TimeEntryId),
    Projects(WorkspaceId),
    Project(WorkspaceId, ProjectId),
    Tags(WorkspaceId),
    Tag(WorkspaceId, TagId),
    Clients(WorkspaceId),
    Client(WorkspaceId, ClientId),
}

/// `/workspaces/<wid>`.
pub open spec fn workspace_path(w: WorkspaceId) -> Seq<char> {
    "/workspaces/"@ + dec_int(w.0 as int)
}

/// The path of an endpoint, below the base URL.
pub open spec fn endpoint_path(e: Endpoint) -> Seq<char> {
    match e {
        Endpoint::Me => "/me"@,
        Endpoint::CurrentTimer => "/me/time_entries/current"@,
        Endpoint::MyTimeEntries => "/me/time_entries"@,
        Endpoint::MyTimeEntry(id) => "/me/time_entries/"@ + dec_int(id.0 as int),
        Endpoint::MyWorkspaces => "/me/workspaces"@,
        Endpoint::Workspace(w) => workspace_path(w),
        Endpoint::TimeEntries(w) => workspace_path(w) + "/time_entries"@,
        Endpoint::TimeEntry(w, id) => workspace_path(w) + "/time_entries/"@ + dec_int(id.0 as int),
        Endpoint::StopTimeEntry(w, id) => workspace_path(w) + "/time_entries/"@ + dec_int(
            id.0 as int,
        ) + "/stop"@,
        Endpoint::Projects(w) => workspace_path(w) + "/projects"@,
        Endpoint::Project(w, id) => workspace_path(w) + "/projects/"@ + dec_int(id.0 as int),
        Endpoint::Tags(w) => workspace_path(w) + "/tags"@,
        Endpoint::Tag(w, id) => workspace_path(w) + "/tags/"@ + dec_int(id.0 as int),
        Endpoint::Clients(w) => workspace_path(w) + "/clients"@,
        Endpoint::Client(w, id) => workspace_path(w) + "/clients/"@ + dec_int(id.0 as int),
    }
}

/// Every endpoint of a workspace's record names the workspace after
/// `/workspaces/` and the record after its collection, each once and in that
/// order; stopping an entry is the entry's own path and `/stop`; the entry of
/// the user is reached by its id alone.
pub proof fn law_endpoints_name_their_records(
    w: WorkspaceId,
    e: TimeEntryId,
    p: ProjectId,
    t: TagId,
    c: ClientId,
)
    ensures
        endpoint_path(Endpoint::Workspace(w)) == "/workspaces/"@ + dec_int(w.0 as int),
        endpoint_path(Endpoint::TimeEntry(w, e)) == "/workspaces/"@ + dec_int(w.0 as int)
            + "/time_entries/"@ + dec_int(e.0 as int),
        endpoint_path(Endpoint::StopTimeEntry(w, e)) == endpoint_path(Endpoint::TimeEntry(w, e))
            + "/stop"@,
        endpoint_path(Endpoint::TimeEntries(w)) + seq!['/'] + dec_int(e.0 as int) == endpoint_path(
            Endpoint::TimeEntry(w, e),
        ),
        endpoint_path(Endpoint::MyTimeEntry(e)) == "/me/time_entries/"@ + dec_int(e.0 as int),
        endpoint_path(Endpoint::Project(w, p)) == "/workspaces/"@ + dec_int(w.0 as int)
            + "/projects/"@ + dec_int(p.0 as int),
        endpoint_path(Endpoint::Projects(w)) + seq!['/'] + dec_int(p.0 as int) == endpoint_path(
            Endpoint::Project(w, p),
        ),
        endpoint_path(Endpoint::Tag(w, t)) == "/workspaces/"@ + dec_int(w.0 as int) + "/tags/"@
            + dec_int(t.0 as int),
        endpoint_path(Endpoint::Tags(w)) + seq!['/'] + dec_int(t.0 as int) == endpoint_path(
            Endpoint::Tag(w, t),
        ),
        endpoint_path(Endpoint::Client(w, c)) == "/workspaces/"@ + dec_int(w.0 as int)
            + "/clients/"@ + dec_int(c.0 as int),
        endpoint_path(Endpoint::Clients(w)) + seq!['/'] + dec_int(c.0 as int) == endpoint_path(
            Endpoint::Client(w, c),
        ),
        endpoint_path(Endpoint::Me) == "/me"@,
        endpoint_path(Endpoint::CurrentTimer) == "/me/time_entries/current"@,
        endpoint_path(Endpoint::MyTimeEntries) == "/me/time_entries"@,
        endpoint_path(Endpoint::MyWorkspaces) == "/me/workspaces"@,
{
    reveal_strlit("/workspaces/");
    reveal_strlit("/time_entries/");
    reveal_strlit("/time_entries");
    reveal_strlit("/projects/");
    reveal_strlit("/projects");
    reveal_strlit("/tags/");
    reveal_strlit("/tags");
    reveal_strlit("/clients/");
    reveal_strlit("/clients");
    reveal_strlit("/me/time_entries/");
    reveal_strlit("/stop");
    let wp = "/workspaces/"@ + dec_int(w.0 as int);
    assert(wp + "/time_entries"@ + seq!['/'] + dec_int(e.0 as int) =~= wp + "/time_entries/"@
        + dec_int(e.0 as int));
    assert(wp + "/projects"@ + seq!['/'] + dec_int(p.0 as int) =~= wp + "/projects/"@ + dec_int(
        p.0 as int,
    ));
    assert(wp + "/tags"@ + seq!['/'] + dec_int(t.0 as int) =~= wp + "/tags/"@ + dec_int(
        t.0 as int,
    ));
    assert(wp + "/clients"@ + seq!['/'] + dec_int(c.0 as int) =~= wp + "/clients/"@ + dec_int(
        c.0 as int,
    ));
}

fn push_workspace_path(s: &mut String, w: WorkspaceId)
    ensures
        final(s)@ == old(s)@ + workspace_path(w),
{
    s.append("/workspaces/");
    push_dec_i64(s, w.0);
}

impl Endpoint {
    /// The full URL of the endpoint below `base`.
    pub fn url(&self, base: &str) -> (u: String)
        ensures
            u@ == base@ + endpoint_path(*self),
    {
        let mut s = base.to_string();
        match self {
            Endpoint::Me => s.append("/me"),
            Endpoint::CurrentTimer => s.append("/me/time_entries/current"),
            Endpoint::MyTimeEntries => s.append("/me/time_entries"),
            Endpoint::MyTimeEntry(id) => {
                s.append("/me/time_entries/");
                push_dec_i64(&mut s, id.0);
            },
            Endpoint::MyWorkspaces => s.append("/me/workspaces"),
            Endpoint::Workspace(w) => push_workspace_path(&mut s, *w),
            Endpoint::TimeEntries(w) => {
                push_workspace_path(&mut s, *w);
                s.append("/time_entries");
            },
            Endpoint::TimeEntry(w, id) => {
                push_workspace_path(&mut s, *w);
                s.append("/time_entries/");
                push_dec_i64(&mut s, id.0);
            },
            Endpoint::StopTimeEntry(w, id) => {
                push_workspace_path(&mut s, *w);
                s.append("/time_entries/");
                push_dec_i64(&mut s, id.0);
                s.append("/stop");
            },
            Endpoint::Projects(w) => {
                push_workspace_path(&mut s, *w);
                s.append("/projects");
            },
            Endpoint::Project(w, id) => {
                push_workspace_path(&mut s, *w);
                s.append("/projects/");
                push_dec_i64(&mut s, id.0);
            },
            Endpoint::Tags(w) => {
                push_workspace_path(&mut s, *w);
                s.append("/tags");
            },
            Endpoint::Tag(w, id) => {
                push_workspace_path(&mut s, *w);
                s.append("/tags/");
                push_dec_i64(&mut s, id.0);
            },
            Endpoint::Clients(w) => {
                push_workspace_path(&mut s, *w);
                s.append("/clients");
            },
            Endpoint::Client(w, id) => {
                push_workspace_path(&mut s, *w);
                s.append("/clients/");
                push_dec_i64(&mut s, id.0);
            },
        }
        assert(s@ =~= base@ + endpoint_path(*self));
        s
    }
}

// ---------------------------------------------------------------------------
// Credentials header
// ---------------------------------------------------------------------------

/// The character for a 6-bit value in the standard Base64 alphabet.
pub open spec fn base64_char(v: int) -> char {
    if v < 26 {
        ((v + 65) as u8) as char
    } else if v < 52 {
        ((v - 26 + 97) as u8) as char
    } else if v < 62 {
        ((v - 52 + 48) as u8) as char
    } else if v == 62 {
        '+'
    } else {
        '/'
    }
}

/// Base64 with the standard alphabet and `=` padding (RFC 4648, section 4).
pub open spec fn base64_encode(b: Seq<u8>) -> Seq<char>
    decreases b.len(),
{
    if b.len() == 0 {
        Seq::empty()
    } else {
        let b0 = b[0] as int;
        if b.len() == 1 {
            seq![base64_char(b0 / 4), base64_char((b0 % 4) * 16), '=', '=']
        } else {
            let b1 = b[1] as int;
            if b.len() == 2 {
                seq![
                    base64_char(b0 / 4),
                    base64_char((b0 % 4) * 16 + b1 / 16),
                    base64_char((b1 % 16) * 4),
                    '=',
                ]
            } else {
                let b2 = b[2] as int;
                seq![
                    base64_char(b0 / 4),
                    base64_char((b0 % 4) * 16 + b1 / 16),
                    base64_char((b1 % 16) * 4 + b2 / 64),
                    base64_char(b2 % 64),
                ] + base64_encode(b.subrange(3, b.len() as int))
            }
        }
    }
}

/// `base64::engine::general_purpose::STANDARD.encode(bytes)`: the standard
/// alphabet with padding, which is what the crate documents for that engine.
#[verifier::external_body]
fn base64_standard_encode(bytes: &[u8]) -> (s: String)
    ensures
        s@ == base64_encode(bytes@),
{
    base64::engine::general_purpose::STANDARD.encode(bytes)
}

/// The `Authorization` header value for an API token:
/// `Basic <base64 of "<token>:api_token">`.
pub fn basic_auth_value(api_token: &str) -> (v: String)
    ensures
        v@ == "Basic "@ + base64_encode(vstd::utf8::encode_utf8(api_token@ + ":api_token"@)),
{
    let mut auth = api_token.to_string();
    auth.append(":api_token");
    let encoded = base64_standard_encode(auth.as_str().as_bytes());
    let mut v = "Basic ".to_string();
    v.append(encoded.as_str());
    v
}

// ---------------------------------------------------------------------------
// Responses
// ---------------------------------------------------------------------------

/// `StatusCode::is_success`: a status in `200..=299`.
pub open spec fn is_success(status: u16) -> bool {
    200 <= status <= 299
}

/// Accepts a successful status; any other becomes `HttpStatus { status, body }`.
pub fn check_status(status: u16, body: String) -> (r: Result<(), AppError>)
    ensures
        r is Ok <==> is_success(status),
        r matches Err(e) ==> e@ == (AppErrorView::HttpStatus { status, body: body@ }),
{
    if 200 <= status && status <= 299 {
        Ok(())
    } else {
        Err(AppError::HttpStatus { status, body })
    }
}

/// The body of `GET /me/time_entries/current` when no timer runs: `null` or
/// nothing, surrounding whitespace aside.
pub open spec fn no_timer_body(text: Seq<char>) -> bool {
    trim(text) == "null"@ || trim(text).len() == 0
}

/// Whether the body of the current-timer response says that no timer runs.
pub fn is_no_timer_body(text: &str) -> (b: bool)
    ensures
        b == no_timer_body(text@),
{
    let t = trimmed_chars(text);
    let null = str_chars("null");
    chars_eq(&t, &null) || t.len() == 0
}

} // verus!
