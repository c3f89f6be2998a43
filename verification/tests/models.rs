use tgltrk::models::{
    Client, ClientId, Project, ProjectId, Tag, TagId, TaskId, TimeEntry, TimeEntryId, User,
    Workspace, WorkspaceId,
};
use tgltrk::time::{now, Timestamp};

fn make_project(active: bool) -> Project {
    Project {
        id: ProjectId(1),
        workspace_id: WorkspaceId(1),
        name: "Test".to_string(),
        active,
        color: "#fff".to_string(),
        billable: None,
        client_id: None,
    }
}

fn make_entry(duration: i64, tags: Vec<String>) -> TimeEntry {
    let t = now();
    TimeEntry {
        id: TimeEntryId(1),
        workspace_id: WorkspaceId(1),
        description: Some("Test".to_string()),
        start: t,
        stop: if duration >= 0 { Some(t) } else { None },
        duration,
        project_id: None,
        task_id: None,
        tags,
        billable: false,
    }
}

#[test]
fn project_display_active() {
    let output = make_project(true).to_string();
    assert!(!output.contains("(archived)"), "got: {output}");
}

#[test]
fn project_display_archived() {
    let output = make_project(false).to_string();
    assert!(output.contains("(archived)"), "got: {output}");
}

#[test]
fn is_running_negative_duration() {
    let e = make_entry(-1000, vec![]);
    assert!(e.is_running());
}

#[test]
fn is_running_positive_duration() {
    let e = make_entry(3600, vec![]);
    assert!(!e.is_running());
}

#[test]
fn is_running_zero_duration() {
    let e = make_entry(0, vec![]);
    assert!(!e.is_running());
}

#[test]
fn display_duration_stopped() {
    let e = make_entry(3661, vec![]);
    assert_eq!(e.display_duration(), "01:01:01");
}

#[test]
fn display_format_with_tags() {
    let e = make_entry(3600, vec!["a".to_string(), "b".to_string()]);
    let output = e.to_string();
    assert!(output.contains("[a, b]"), "got: {output}");
}

#[test]
fn project_lines_are_exact() {
    assert_eq!(make_project(true).to_string(), "#1 Test");
    assert_eq!(make_project(false).to_string(), "#1 Test (archived)");
}

#[test]
fn entry_lines_are_exact() {
    let e = make_entry(3600, vec!["a".to_string(), "b".to_string()]);
    assert_eq!(e.to_string(), "#1 Test 01:00:00 [a, b]");
    let mut plain = make_entry(59, vec![]);
    plain.description = None;
    assert_eq!(plain.to_string(), "#1 (no description) 00:00:59");
    let long = make_entry(100 * 3600 + 61, vec![]);
    assert_eq!(long.display_duration(), "100:01:01");
}

#[test]
fn running_entry_is_measured_from_its_start() {
    let start = Timestamp { secs: 1_000_000, nanos: 900_000_000 };
    let e = TimeEntry {
        id: TimeEntryId(7),
        workspace_id: WorkspaceId(1),
        description: Some("Work".to_string()),
        start,
        stop: None,
        duration: -1_000_000,
        project_id: Some(3),
        task_id: Some(TaskId(4)),
        tags: vec![],
        billable: false,
    };
    let at = Timestamp { secs: 1_000_000 + 3725, nanos: 899_999_999 };
    assert_eq!(e.elapsed_at(at), 3724);
    assert_eq!(e.display_duration_at(at), "01:02:04");
    assert_eq!(e.to_string_at(at), "#7 Work 01:02:04 [running]");
    let before = Timestamp { secs: 999_000, nanos: 0 };
    assert_eq!(e.display_duration_at(before), "00:00:00");
}

#[test]
fn other_records_read_as_id_and_name() {
    let tag = Tag { id: TagId(501), workspace_id: WorkspaceId(1), name: "bug".to_string() };
    assert_eq!(tag.to_string(), "#501 bug");
    let client = Client { id: ClientId(9), workspace_id: WorkspaceId(1), name: "Acme".to_string() };
    assert_eq!(client.to_string(), "#9 Acme");
    let ws = Workspace { id: WorkspaceId(1234), name: "Home".to_string() };
    assert_eq!(ws.to_string(), "#1234 Home");
    assert_eq!(WorkspaceId(-3).to_string(), "-3");
    assert_eq!(TimeEntryId(0).to_string(), "0");
}

#[test]
fn user_text_has_four_lines() {
    let u = User {
        email: "a@b.com".to_string(),
        fullname: "Alice".to_string(),
        default_workspace_id: WorkspaceId(1),
        timezone: "UTC".to_string(),
    };
    assert_eq!(
        u.to_string(),
        "Name:      Alice\nEmail:     a@b.com\nWorkspace: 1\nTimezone:  UTC"
    );
}
