use tgltrk::api::wire::{WireProject, WireTag, WireTimeEntry, WireUser};
use tgltrk::models::{Project, ProjectId, Tag, TagId, TimeEntry, User, WorkspaceId};
use tgltrk::time::now;

#[test]
fn wire_user_to_user() {
    let w = WireUser {
        email: "a@b.com".to_string(),
        fullname: "Alice".to_string(),
        default_workspace_id: 42,
        timezone: "UTC".to_string(),
    };
    let u: User = w.into();
    assert_eq!(u.email, "a@b.com");
    assert_eq!(u.fullname, "Alice");
    assert_eq!(u.default_workspace_id, WorkspaceId(42));
    assert_eq!(u.timezone, "UTC");
}

#[test]
fn wire_time_entry_with_tags() {
    let now = now();
    let w = WireTimeEntry {
        id: 1,
        workspace_id: 2,
        description: Some("desc".to_string()),
        start: now,
        stop: Some(now),
        duration: 3600,
        project_id: Some(10),
        task_id: Some(20),
        tags: Some(vec!["a".to_string()]),
        billable: true,
    };
    let e: TimeEntry = TimeEntry::from_wire(w);
    assert_eq!(e.tags, vec!["a".to_string()]);
}

#[test]
fn wire_time_entry_without_tags() {
    let now = now();
    let w = WireTimeEntry {
        id: 1,
        workspace_id: 2,
        description: None,
        start: now,
        stop: None,
        duration: -1,
        project_id: None,
        task_id: None,
        tags: None,
        billable: false,
    };
    let e: TimeEntry = TimeEntry::from_wire(w);
    assert!(e.tags.is_empty());
}

#[test]
fn wire_time_entry_preserves_optionals() {
    let now = now();
    let w = WireTimeEntry {
        id: 1,
        workspace_id: 2,
        description: None,
        start: now,
        stop: None,
        duration: 100,
        project_id: None,
        task_id: None,
        tags: None,
        billable: false,
    };
    let e: TimeEntry = TimeEntry::from_wire(w);
    assert!(e.description.is_none());
    assert!(e.stop.is_none());
    assert!(e.project_id.is_none());
}

#[test]
fn wire_project_to_project() {
    let w = WireProject {
        id: 5,
        workspace_id: 3,
        name: "Proj".to_string(),
        active: true,
        color: "#fff".to_string(),
        billable: Some(true),
        client_id: None,
    };
    let p: Project = w.into();
    assert_eq!(p.id, ProjectId(5));
    assert_eq!(p.workspace_id, WorkspaceId(3));
    assert_eq!(p.name, "Proj");
    assert!(p.active);
    assert_eq!(p.color, "#fff");
    assert_eq!(p.billable, Some(true));
}

#[test]
fn wire_tag_to_tag() {
    let w = WireTag {
        id: 7,
        workspace_id: 4,
        name: "urgent".to_string(),
    };
    let t: Tag = w.into();
    assert_eq!(t.id, TagId(7));
    assert_eq!(t.workspace_id, WorkspaceId(4));
    assert_eq!(t.name, "urgent");
}

#[test]
fn wire_project_keeps_its_client() {
    let w = WireProject {
        id: 6,
        workspace_id: 3,
        name: "With client".to_string(),
        active: false,
        color: "#000".to_string(),
        billable: None,
        client_id: Some(77),
    };
    let p: Project = w.into();
    assert_eq!(p.client_id, Some(tgltrk::models::ClientId(77)));
    assert!(!p.active);
    assert_eq!(p.billable, None);
}

#[test]
fn wire_time_entry_keeps_ids_and_times() {
    let start = tgltrk::time::Timestamp { secs: 1_700_000_000, nanos: 5 };
    let w = WireTimeEntry {
        id: 9,
        workspace_id: 8,
        description: Some("d".to_string()),
        start,
        stop: None,
        duration: -1_700_000_000,
        project_id: Some(3),
        task_id: Some(4),
        tags: None,
        billable: true,
    };
    let e = TimeEntry::from_wire(w);
    assert_eq!(e.id, tgltrk::models::TimeEntryId(9));
    assert_eq!(e.workspace_id, WorkspaceId(8));
    assert_eq!(e.start, start);
    assert_eq!(e.task_id, Some(tgltrk::models::TaskId(4)));
    assert!(e.is_running());
}
