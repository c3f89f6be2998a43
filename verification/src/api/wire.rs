//! The records as the Toggl Track API sends and receives them, and their
//! conversions to and from the records of the client.

use vstd::prelude::*;

use crate::models::{
    id_name_line, Client, ClientId, Project, ProjectId, Tag, TagId, TaskId, TimeEntry, TimeEntryId, User,
    Workspace, WorkspaceId,
};
use crate::text::dec_int;
use crate::time::Timestamp;

verus! {

// --- Responses (API -> client) ---

#[derive(Debug)]
pub struct WireUser {
    pub email: String,
    pub fullname: String,
    pub default_workspace_id: i64,
    pub timezone: String,
}

impl From<WireUser> for User {
    fn from(w: WireUser) -> (u: User)
        ensures
            u.email@ == w.email@,
            u.fullname@ == w.fullname@,
            u.default_workspace_id == WorkspaceId(w.default_workspace_id),
            u.timezone@ == w.timezone@,
    {
        User {
            email: w.email,
            fullname: w.fullname,
            default_workspace_id: WorkspaceId(w.default_workspace_id),
            timezone: w.timezone,
        }
    }
}

impl vstd::std_specs::convert::FromSpecImpl<WireUser> for User {
    open spec fn obeys_from_spec() -> bool {
        true
    }

    open spec fn from_spec(w: WireUser) -> User {
        User {
            email: w.email,
            fullname: w.fullname,
            default_workspace_id: WorkspaceId(w.default_workspace_id),
            timezone: w.timezone,
        }
    }
}

#[derive(Debug)]
pub struct WireTimeEntry {
    pub id: i64,
    pub workspace_id: i64,
    pub description: Option<String>,
    pub start: Timestamp,
    pub stop: Option<Timestamp>,
    pub duration: i64,
    pub project_id: Option<i64>,
    pub task_id: Option<i64>,
    pub tags: Option<Vec<String>>,
    pub billable: bool,
}

/// The tags of a received entry: none when the API sent `null`.
pub open spec fn wire_tags(tags: Option<Vec<String>>) -> Seq<String> {
    match tags {
        Some(t) => t@,
        None => Seq::empty(),
    }
}

impl TimeEntry {
    /// The entry that the API sent: every field kept, the ids wrapped, and a
    /// missing tag list read as empty.
    pub fn from_wire(w: WireTimeEntry) -> (e: TimeEntry)
        ensures
            e.id == TimeEntryId(w.id),
            e.workspace_id == WorkspaceId(w.workspace_id),
            e.description == w.description,
            e.start == w.start,
            e.stop == w.stop,
            e.duration == w.duration,
            e.project_id == w.project_id,
            e.task_id == (match w.task_id {
                Some(t) => Some(TaskId(t)),
                None => None,
            }),
            e.tags@ == wire_tags(w.tags),
            e.billable == w.billable,
    {
        let tags = match w.tags {
            Some(t) => t,
            None => Vec::new(),
        };
        let task_id = match w.task_id {
            Some(t) => Some(TaskId(t)),
            None => None,
        };
        TimeEntry {
            id: TimeEntryId(w.id),
            workspace_id: WorkspaceId(w.workspace_id),
            description: w.description,
            start: w.start,
            stop: w.stop,
            duration: w.duration,
            project_id: w.project_id,
            task_id,
            tags,
            billable: w.billable,
        }
    }
}

#[derive(Debug)]
pub struct WireProject {
    pub id: i64,
    pub workspace_id: i64,
    pub name: String,
    pub active: bool,
    pub color: String,
    pub billable: Option<bool>,
    pub client_id: Option<i64>,
}

/// An optional client id, wrapped.
pub open spec fn client_id_of(c: Option<i64>) -> Option<ClientId> {
    match c {
        Some(i) => Some(ClientId(i)),
        None => None,
    }
}

impl From<WireProject> for Project {
    fn from(w: WireProject) -> (p: Project)
        ensures
            p.id == ProjectId(w.id),
            p.workspace_id == WorkspaceId(w.workspace_id),
            p.name@ == w.name@,
            p.active == w.active,
            p.color@ == w.color@,
            p.billable == w.billable,
            p.client_id == (match w.client_id {
                Some(c) => Some(ClientId(c)),
                None => None,
            }),
    {
        let client_id = match w.client_id {
            Some(i) => Some(ClientId(i)),
            None => None,
        };
        Project {
            id: ProjectId(w.id),
            workspace_id: WorkspaceId(w.workspace_id),
            name: w.name,
            active: w.active,
            color: w.color,
            billable: w.billable,
            client_id,
        }
    }
}

impl vstd::std_specs::convert::FromSpecImpl<WireProject> for Project {
    open spec fn obeys_from_spec() -> bool {
        true
    }

    open spec fn from_spec(w: WireProject) -> Project {
        Project {
            id: ProjectId(w.id),
            workspace_id: WorkspaceId(w.workspace_id),
            name: w.name,
            active: w.active,
            color: w.color,
            billable: w.billable,
            client_id: client_id_of(w.client_id),
        }
    }
}

#[derive(Debug)]
pub struct WireTag {
    pub id: i64,
    pub workspace_id: i64,
    pub name: String,
}

impl From<WireTag> for Tag {
    fn from(w: WireTag) -> (t: Tag)
        ensures
            t.id == TagId(w.id),
            t.workspace_id == WorkspaceId(w.workspace_id),
            t.name@ == w.name@,
    {
        Tag { id: TagId(w.id), workspace_id: WorkspaceId(w.workspace_id), name: w.name }
    }
}

impl vstd::std_specs::convert::FromSpecImpl<WireTag> for Tag {
    open spec fn obeys_from_spec() -> bool {
        true
    }

    open spec fn from_spec(w: WireTag) -> Tag {
        Tag { id: TagId(w.id), workspace_id: WorkspaceId(w.workspace_id), name: w.name }
    }
}

#[derive(Debug)]
pub struct WireClient {
    pub id: i64,
    pub wid: i64,
    pub name: String,
}

impl From<WireClient> for Client {
    fn from(w: WireClient) -> (c: Client)
        ensures
            c.id == ClientId(w.id),
            c.workspace_id == WorkspaceId(w.wid),
            c.name@ == w.name@,
    {
        Client { id: ClientId(w.id), workspace_id: WorkspaceId(w.wid), name: w.name }
    }
}

impl vstd::std_specs::convert::FromSpecImpl<WireClient> for Client {
    open spec fn obeys_from_spec() -> bool {
        true
    }

    open spec fn from_spec(w: WireClient) -> Client {
        Client { id: ClientId(w.id), workspace_id: WorkspaceId(w.wid), name: w.name }
    }
}

#[derive(Debug)]
pub struct WireWorkspace {
    pub id: i64,
    pub name: String,
}

impl From<WireWorkspace> for Workspace {
    fn from(w: WireWorkspace) -> (ws: Workspace)
        ensures
            ws.id == WorkspaceId(w.id),
            ws.name@ == w.name@,
    {
        Workspace { id: WorkspaceId(w.id), name: w.name }
    }
}

impl vstd::std_specs::convert::FromSpecImpl<WireWorkspace> for Workspace {
    open spec fn obeys_from_spec() -> bool {
        true
    }

    open spec fn from_spec(w: WireWorkspace) -> Workspace {
        Workspace { id: WorkspaceId(w.id), name: w.name }
    }
}

// --- Requests (client -> API) ---

/// Body of `POST /workspaces/{wid}/time_entries`.
#[derive(Debug)]
pub struct CreateTimeEntryRequest {
    pub workspace_id: WorkspaceId,
    pub description: Option<String>,
    pub project_id: Option<i64>,
    pub task_id: Option<TaskId>,
    pub tags: Vec<String>,
    pub billable: bool,
    pub start: Timestamp,
    pub duration: i64,
    pub created_with: String,
    /// Left out of the body when absent.
    pub stop: Option<Timestamp>,
}

/// Body of `PUT /workspaces/{wid}/time_entries/{id}`; absent fields are left out.
#[derive(Debug)]
pub struct UpdateTimeEntryRequest {
    pub description: Option<String>,
    pub project_id: Option<i64>,
    pub tags: Option<Vec<String>>,
    pub billable: Option<bool>,
    pub start: Option<Timestamp>,
    pub stop: Option<Timestamp>,
    pub duration: Option<i64>,
}

/// Body of `POST /workspaces/{wid}/projects`.
#[derive(Debug)]
pub struct CreateProjectRequest {
    pub name: String,
    pub active: bool,
    pub client_id: Option<i64>,
}

/// Body of `PUT /workspaces/{wid}/projects/{id}`; absent fields are left out.
#[derive(Debug)]
pub struct UpdateProjectRequest {
    pub name: Option<String>,
    pub client_id: Option<i64>,
}

#[derive(Debug)]
pub struct CreateClientRequest {
    pub name: String,
}

#[derive(Debug)]
pub struct UpdateClientRequest {
    pub name: String,
}

#[derive(Debug)]
pub struct CreateTagRequest {
    pub name: String,
}

#[derive(Debug)]
pub struct UpdateTagRequest {
    pub name: String,
}

/// A received record keeps its own id, its workspace and its texts: a
/// client or a tag reads as `#<its id> <its name>`, and a client's `wid` is
/// its workspace, never its id.
pub proof fn law_received_records_keep_their_ids(
    wu: WireUser,
    wp: WireProject,
    wt: WireTag,
    wc: WireClient,
    ww: WireWorkspace,
)
    ensures
        ({
            let u = <User as vstd::std_specs::convert::FromSpec<WireUser>>::from_spec(wu);
            u.default_workspace_id.0 == wu.default_workspace_id && u.email == wu.email
                && u.fullname == wu.fullname && u.timezone == wu.timezone
        }),
        ({
            let p = <Project as vstd::std_specs::convert::FromSpec<WireProject>>::from_spec(wp);
            &&& p.id.0 == wp.id
            &&& p.workspace_id.0 == wp.workspace_id
            &&& p.name == wp.name
            &&& p.active == wp.active
            &&& p.color == wp.color
            &&& p.billable == wp.billable
            &&& (wp.client_id matches Some(c) ==> p.client_id matches Some(pc) && pc.0 == c)
            &&& (wp.client_id is None ==> p.client_id is None)
        }),
        ({
            let t = <Tag as vstd::std_specs::convert::FromSpec<WireTag>>::from_spec(wt);
            &&& t.id.0 == wt.id
            &&& t.workspace_id.0 == wt.workspace_id
            &&& t.name == wt.name
            &&& id_name_line(t.id.0, t.name@) == seq!['#'] + dec_int(wt.id as int) + seq![' ']
                + wt.name@
        }),
        ({
            let c = <Client as vstd::std_specs::convert::FromSpec<WireClient>>::from_spec(wc);
            &&& c.id.0 == wc.id
            &&& c.workspace_id.0 == wc.wid
            &&& c.name == wc.name
            &&& id_name_line(c.id.0, c.name@) == seq!['#'] + dec_int(wc.id as int) + seq![' ']
                + wc.name@
        }),
        ({
            let w = <Workspace as vstd::std_specs::convert::FromSpec<WireWorkspace>>::from_spec(ww);
            w.id.0 == ww.id && w.name == ww.name
        }),
{
}

} // verus!
