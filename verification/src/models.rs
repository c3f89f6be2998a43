//! The records of the Toggl Track API that the client works with, and the
//! one-line texts that show them.

use vstd::prelude::*;

use crate::text::{
    dec_int, dec_pad2, joined, push_char, push_dec_i64, push_dec_pad2, push_joined, string_views,
};
use crate::time::{nanos_between, now, Timestamp};

verus! {

broadcast use vstd::string::group_string_axioms;

#[derive(Clone, Copy, Debug, PartialEq, Eq, Structural)]
pub struct WorkspaceId(pub i64);

#[derive(Clone, Copy, Debug, PartialEq, Eq, Structural)]
pub struct ProjectId(pub i64);

#[derive(Clone, Copy, Debug, PartialEq, Eq, Structural)]
pub struct TimeEntryId(pub i64);

#[derive(Clone, Copy, Debug, PartialEq, Eq, Structural)]
pub struct TaskId(pub i64);

#[derive(Clone, Copy, Debug, PartialEq, Eq, Structural)]
pub struct TagId(pub i64);

#[derive(Clone, Copy, Debug, PartialEq, Eq, Structural)]
pub struct ClientId(pub i64);

impl WorkspaceId {
    /// The number, in decimal.
    pub fn to_string(&self) -> (s: String)
        ensures
            s@ == dec_int(self.0 as int),
    {
        crate::text::i64_to_string(self.0)
    }
}

impl ProjectId {
    /// The number, in decimal.
    pub fn to_string(&self) -> (s: String)
        ensures
            s@ == dec_int(self.0 as int),
    {
        crate::text::i64_to_string(self.0)
    }
}

impl TimeEntryId {
    /// The number, in decimal.
    pub fn to_string(&self) -> (s: String)
        ensures
            s@ == dec_int(self.0 as int),
    {
        crate::text::i64_to_string(self.0)
    }
}

impl TagId {
    /// The number, in decimal.
    pub fn to_string(&self) -> (s: String)
        ensures
            s@ == dec_int(self.0 as int),
    {
        crate::text::i64_to_string(self.0)
    }
}

impl ClientId {
    /// The number, in decimal.
    pub fn to_string(&self) -> (s: String)
        ensures
            s@ == dec_int(self.0 as int),
    {
        crate::text::i64_to_string(self.0)
    }
}

/// `#<id> <name>`: how tags, clients and workspaces are listed.
pub open spec fn id_name_line(id: i64, name: Seq<char>) -> Seq<char> {
    seq!['#'] + dec_int(id as int) + seq![' '] + name
}

fn id_name_string(id: i64, name: &String) -> (s: String)
    ensures
        s@ == id_name_line(id, name@),
{
    let mut s = String::new();
    push_char(&mut s, '#');
    push_dec_i64(&mut s, id);
    push_char(&mut s, ' ');
    s.append(name.as_str());
    assert(s@ =~= id_name_line(id, name@));
    s
}

// ---------------------------------------------------------------------------
// Project
// ---------------------------------------------------------------------------

#[derive(Clone, Debug)]
pub struct Project {
    pub id: ProjectId,
    pub workspace_id: WorkspaceId,
    pub name: String,
    pub active: bool,
    pub color: String,
    pub billable: Option<bool>,
    pub client_id: Option<ClientId>,
}

/// The marker that follows the name of an archived project.
pub open spec fn archived_marker(active: bool) -> Seq<char> {
    if active {
        Seq::empty()
    } else {
        " (archived)"@
    }
}

/// `#<id> <name>`, then ` (archived)` when the project is not active.
pub open spec fn project_line(p: Project) -> Seq<char> {
    id_name_line(p.id.0, p.name@) + archived_marker(p.active)
}

impl Project {
    /// The one-line text of the project.
    pub fn to_string(&self) -> (s: String)
        ensures
            s@ == project_line(*self),
    {
        let mut s = id_name_string(self.id.0, &self.name);
        if !self.active {
            s.append(" (archived)");
        }
        s
    }
}

// ---------------------------------------------------------------------------
// Tag, Client, Workspace
// ---------------------------------------------------------------------------

#[derive(Clone, Debug)]
pub struct Tag {
    pub id: TagId,
    pub workspace_id: WorkspaceId,
    pub name: String,
}

impl Tag {
    /// `#<id> <name>`.
    pub fn to_string(&self) -> (s: String)
        ensures
            s@ == id_name_line(self.id.0, self.name@),
    {
        id_name_string(self.id.0, &self.name)
    }
}

#[derive(Clone, Debug)]
pub struct Client {
    pub id: ClientId,
    pub workspace_id: WorkspaceId,
    pub name: String,
}

impl Client {
    /// `#<id> <name>`.
    pub fn to_string(&self) -> (s: String)
        ensures
            s@ == id_name_line(self.id.0, self.name@),
    {
        id_name_string(self.id.0, &self.name)
    }
}

#[derive(Clone, Debug)]
pub struct Workspace {
    pub id: WorkspaceId,
    pub name: String,
}

impl Workspace {
    /// `#<id> <name>`.
    pub fn to_string(&self) -> (s: String)
        ensures
            s@ == id_name_line(self.id.0, self.name@),
    {
        id_name_string(self.id.0, &self.name)
    }
}

// ---------------------------------------------------------------------------
// User
// ---------------------------------------------------------------------------

#[derive(Clone, Debug)]
pub struct User {
    pub email: String,
    pub fullname: String,
    pub default_workspace_id: WorkspaceId,
    pub timezone: String,
}

/// The four lines that show a user (without a final newline).
pub open spec fn user_text(u: User) -> Seq<char> {
    "Name:      "@ + u.fullname@ + "\nEmail:     "@ + u.email@ + "\nWorkspace: "@ + dec_int(
        u.default_workspace_id.0 as int,
    ) + "\nTimezone:  "@ + u.timezone@
}

impl User {
    /// Name, email, default workspace and time zone, one per line.
    pub fn to_string(&self) -> (s: String)
        ensures
            s@ == user_text(*self),
    {
        let mut s = String::new();
        s.append("Name:      ");
        s.append(self.fullname.as_str());
        s.append("\nEmail:     ");
        s.append(self.email.as_str());
        s.append("\nWorkspace: ");
        push_dec_i64(&mut s, self.default_workspace_id.0);
        s.append("\nTimezone:  ");
        s.append(self.timezone.as_str());
        s
    }
}

// ---------------------------------------------------------------------------
// TimeEntry
// ---------------------------------------------------------------------------

#[derive(Clone, Debug)]
pub struct TimeEntry {
    pub id: TimeEntryId,
    pub workspace_id: WorkspaceId,
    pub description: Option<String>,
    pub start: Timestamp,
    pub stop: Option<Timestamp>,
    /// Seconds for a stopped entry; negative while the entry runs.
    pub duration: i64,
    pub project_id: Option<i64>,
    pub task_id: Option<TaskId>,
    pub tags: Vec<String>,
    pub billable: bool,
}

/// An entry runs while its duration is negative.
pub open spec fn entry_running(e: TimeEntry) -> bool {
    e.duration < 0
}

/// The seconds an entry has lasted at `now`: its duration once stopped; the
/// whole seconds since its start (never below zero) while it runs.
pub open spec fn elapsed_seconds(e: TimeEntry, now: Timestamp) -> nat {
    if e.duration < 0 {
        let d = now.total_nanos() - e.start.total_nanos();
        if d <= 0 {
            0
        } else {
            (d / 1_000_000_000) as nat
        }
    } else {
        e.duration as nat
    }
}

/// `HH:MM:SS` for a number of seconds (the hours take as many digits as they need).
pub open spec fn hms_text(secs: nat) -> Seq<char> {
    dec_pad2(secs / 3600) + seq![':'] + dec_pad2((secs % 3600) / 60) + seq![':'] + dec_pad2(
        secs % 60,
    )
}

/// The description, or `(no description)`.
pub open spec fn description_text(d: Option<String>) -> Seq<char> {
    match d {
        Some(s) => s@,
        None => "(no description)"@,
    }
}

/// ` [running]` for a running entry.
pub open spec fn running_marker(e: TimeEntry) -> Seq<char> {
    if entry_running(e) {
        " [running]"@
    } else {
        Seq::empty()
    }
}

/// ` [tag1, tag2]`, or nothing when there are no tags.
pub open spec fn tags_text(tags: Seq<String>) -> Seq<char> {
    if tags.len() == 0 {
        Seq::empty()
    } else {
        " ["@ + joined(string_views(tags), ", "@) + "]"@
    }
}

/// `#<id> <description> <HH:MM:SS>[ [running]][ [tags]]`, as of `now`.
pub open spec fn entry_line(e: TimeEntry, now: Timestamp) -> Seq<char> {
    seq!['#'] + dec_int(e.id.0 as int) + seq![' '] + description_text(e.description) + seq![' ']
        + hms_text(elapsed_seconds(e, now)) + running_marker(e) + tags_text(e.tags@)
}

impl TimeEntry {
    /// Whether the entry is still running (its duration is negative).
    pub fn is_running(&self) -> (r: bool)
        ensures
            r == entry_running(*self),
    {
        self.duration < 0
    }

    /// The seconds the entry has lasted at `now`.
    pub fn elapsed_at(&self, now: Timestamp) -> (s: u128)
        ensures
            s == elapsed_seconds(*self, now),
    {
        if self.duration < 0 {
            let d = nanos_between(now, self.start);
            if d <= 0 {
                0
            } else {
                (d / 1_000_000_000) as u128
            }
        } else {
            self.duration as u128
        }
    }

    /// The elapsed time at `now` as `HH:MM:SS`.
    pub fn display_duration_at(&self, now: Timestamp) -> (s: String)
        ensures
            s@ == hms_text(elapsed_seconds(*self, now)),
    {
        let secs = self.elapsed_at(now);
        let mut s = String::new();
        push_dec_pad2(&mut s, secs / 3600);
        push_char(&mut s, ':');
        push_dec_pad2(&mut s, (secs % 3600) / 60);
        push_char(&mut s, ':');
        push_dec_pad2(&mut s, secs % 60);
        assert(s@ =~= hms_text(elapsed_seconds(*self, now)));
        s
    }

    /// The elapsed time as `HH:MM:SS`, a running entry measured up to the
    /// current instant.
    pub fn display_duration(&self) -> (s: String)
        ensures
            exists|t: Timestamp|
                t.in_range() && t.secs >= 0 && t.nanos < 1_000_000_000 && s@ == hms_text(
                    elapsed_seconds(*self, t),
                ),
    {
        let t = now();
        self.display_duration_at(t)
    }

    /// The one-line text of the entry as of `now`.
    pub fn to_string_at(&self, now: Timestamp) -> (s: String)
        ensures
            s@ == entry_line(*self, now),
    {
        let mut s = String::new();
        push_char(&mut s, '#');
        push_dec_i64(&mut s, self.id.0);
        push_char(&mut s, ' ');
        match &self.description {
            Some(d) => s.append(d.as_str()),
            None => s.append("(no description)"),
        }
        push_char(&mut s, ' ');
        let d = self.display_duration_at(now);
        s.append(d.as_str());
        if self.is_running() {
            s.append(" [running]");
        }
        if self.tags.len() > 0 {
            s.append(" [");
            push_joined(&mut s, &self.tags, ", ");
            s.append("]");
        }
        assert(s@ =~= entry_line(*self, now));
        s
    }

    /// The one-line text of the entry, a running entry measured up to the
    /// current instant.
    pub fn to_string(&self) -> (s: String)
        ensures
            exists|t: Timestamp|
                t.in_range() && t.secs >= 0 && t.nanos < 1_000_000_000 && s@ == entry_line(
                    *self,
                    t,
                ),
    {
        let t = now();
        self.to_string_at(t)
    }
}

/// A running entry measured at a later instant never shows less, and one
/// measured at least `k` whole seconds after its start shows at least `k`
/// seconds; a stopped entry shows its duration at every instant.
pub proof fn law_running_time_grows(e: TimeEntry, t1: Timestamp, t2: Timestamp, k: nat)
    ensures
        entry_running(e) && t1.total_nanos() <= t2.total_nanos() ==> elapsed_seconds(e, t1)
            <= elapsed_seconds(e, t2),
        entry_running(e) && t1.total_nanos() - e.start.total_nanos() >= k * 1_000_000_000
            ==> elapsed_seconds(e, t1) >= k,
        !entry_running(e) ==> elapsed_seconds(e, t1) == e.duration && elapsed_seconds(e, t2)
            == e.duration,
{
    let d1 = t1.total_nanos() - e.start.total_nanos();
    let d2 = t2.total_nanos() - e.start.total_nanos();
    if entry_running(e) && d1 <= d2 && d1 > 0 {
        assert(d1 / 1_000_000_000 <= d2 / 1_000_000_000) by (nonlinear_arith)
            requires
                0 < d1 <= d2,
        ;
    }
    if entry_running(e) && d1 >= k * 1_000_000_000 && k > 0 {
        assert(d1 / 1_000_000_000 >= k) by (nonlinear_arith)
            requires
                d1 >= k * 1_000_000_000,
                k > 0,
        ;
    }
}

/// The `HH:MM:SS` text reads back as the number of seconds it shows.
pub proof fn law_hms_components(secs: nat)
    ensures
        (secs / 3600) * 3600 + ((secs % 3600) / 60) * 60 + secs % 60 == secs,
        (secs % 3600) / 60 < 60,
        secs % 60 < 60,
{
}

} // verus!
