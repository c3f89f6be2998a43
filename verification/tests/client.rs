use tgltrk::api::client::{
    basic_auth_value, build_create_project_request, build_create_request, build_update_request,
    check_status, is_no_timer_body, time_entries_query, CreateProjectParams,
    CreateTimeEntryParams, Endpoint, UpdateTimeEntryParams, CLIENT_NAME,
};
use tgltrk::error::AppError;
use tgltrk::models::{ProjectId, TagId, TaskId, TimeEntry, TimeEntryId, WorkspaceId};
use tgltrk::time::{now, Timestamp};

#[test]
fn from_time_entry_to_create_params() {
    let now = now();
    let entry = TimeEntry {
        id: TimeEntryId(42),
        workspace_id: WorkspaceId(1),
        description: Some("My task".to_string()),
        start: now,
        stop: Some(now),
        duration: 3600,
        project_id: Some(10),
        task_id: Some(TaskId(20)),
        tags: vec!["a".to_string(), "b".to_string()],
        billable: true,
    };

    let params = CreateTimeEntryParams::from_entry(&entry);

    assert_eq!(params.description, entry.description);
    assert_eq!(params.project_id, entry.project_id);
    assert_eq!(params.task_id, entry.task_id);
    assert_eq!(params.tags, entry.tags);
    assert_eq!(params.billable, entry.billable);
}

#[test]
fn continued_entry_starts_running_now() {
    let entry = TimeEntry {
        id: TimeEntryId(42),
        workspace_id: WorkspaceId(1),
        description: Some("Bug fix".to_string()),
        start: Timestamp { secs: 100, nanos: 0 },
        stop: Some(Timestamp { secs: 200, nanos: 0 }),
        duration: 100,
        project_id: Some(10),
        task_id: None,
        tags: vec![],
        billable: false,
    };
    let params = CreateTimeEntryParams::from_entry(&entry);
    assert!(params.start.is_none() && params.stop.is_none() && params.duration.is_none());
    let at = Timestamp { secs: 1_705_309_200, nanos: 7 };
    let body = build_create_request(WorkspaceId(1), &params, at);
    assert_eq!(body.start, at);
    assert_eq!(body.duration, -1_705_309_200);
    assert_eq!(body.stop, None);
    assert_eq!(body.created_with, CLIENT_NAME);
    assert_eq!(body.created_with, "tgltrk");
    assert_eq!(body.workspace_id, WorkspaceId(1));
}

#[test]
fn finished_entry_body_keeps_its_times() {
    let params = CreateTimeEntryParams {
        description: None,
        project_id: None,
        task_id: None,
        tags: vec!["t".to_string()],
        billable: true,
        start: Some(Timestamp { secs: 1_000, nanos: 0 }),
        stop: Some(Timestamp { secs: 1_600, nanos: 0 }),
        duration: Some(600),
    };
    let body = build_create_request(WorkspaceId(3), &params, now());
    assert_eq!(body.start, Timestamp { secs: 1_000, nanos: 0 });
    assert_eq!(body.duration, 600);
    assert_eq!(body.stop, Some(Timestamp { secs: 1_600, nanos: 0 }));
    assert_eq!(body.tags, vec!["t".to_string()]);
}

#[test]
fn update_bodies_hold_exactly_the_given_fields() {
    let params = UpdateTimeEntryParams {
        description: Some("d".to_string()),
        project_id: None,
        tags: Some(vec![]),
        billable: None,
        start: None,
        stop: None,
        duration: Some(5),
    };
    let body = build_update_request(&params);
    assert_eq!(body.description.as_deref(), Some("d"));
    assert_eq!(body.tags, Some(vec![]));
    assert_eq!(body.duration, Some(5));
    assert!(body.start.is_none() && body.billable.is_none() && body.project_id.is_none());
    let p = build_create_project_request(&CreateProjectParams {
        name: "New".to_string(),
        client_id: Some(4),
    });
    assert!(p.active);
    assert_eq!(p.name, "New");
    assert_eq!(p.client_id, Some(4));
}

#[test]
fn basic_auth_encodes_token_and_suffix() {
    assert_eq!(basic_auth_value("test_token"), "Basic dGVzdF90b2tlbjphcGlfdG9rZW4=");
    assert_eq!(basic_auth_value(""), "Basic OmFwaV90b2tlbg==");
}

#[test]
fn status_codes_outside_2xx_are_errors() {
    assert!(check_status(200, String::new()).is_ok());
    assert!(check_status(204, String::new()).is_ok());
    assert!(check_status(299, String::new()).is_ok());
    match check_status(401, "unauthorized".to_string()) {
        Err(AppError::HttpStatus { status, body }) => {
            assert_eq!(status, 401);
            assert_eq!(body, "unauthorized");
        }
        other => panic!("got: {other:?}"),
    }
    assert!(check_status(300, String::new()).is_err());
    assert!(check_status(199, String::new()).is_err());
    assert!(check_status(500, String::new()).is_err());
}

#[test]
fn current_timer_body_null_or_empty_means_none() {
    assert!(is_no_timer_body("null"));
    assert!(is_no_timer_body("  null\n"));
    assert!(is_no_timer_body(""));
    assert!(is_no_timer_body(" \t"));
    assert!(!is_no_timer_body("{\"id\":1}"));
    assert!(!is_no_timer_body("nul"));
}

#[test]
fn endpoints_and_queries() {
    let base = "https://api.track.toggl.com/api/v9";
    assert_eq!(Endpoint::Me.url(base), format!("{base}/me"));
    assert_eq!(Endpoint::CurrentTimer.url(base), format!("{base}/me/time_entries/current"));
    assert_eq!(
        Endpoint::StopTimeEntry(WorkspaceId(12), TimeEntryId(34)).url(base),
        format!("{base}/workspaces/12/time_entries/34/stop")
    );
    assert_eq!(
        Endpoint::Project(WorkspaceId(1), ProjectId(5)).url(base),
        format!("{base}/workspaces/1/projects/5")
    );
    assert_eq!(Endpoint::Tag(WorkspaceId(1), TagId(2)).url(""), "/workspaces/1/tags/2");
    assert_eq!(Endpoint::MyTimeEntry(TimeEntryId(9)).url(""), "/me/time_entries/9");
    let q = time_entries_query(&Some("2024-01-01".to_string()), &Some("2024-01-31".to_string()));
    assert_eq!(
        q,
        vec![
            ("start_date".to_string(), "2024-01-01".to_string()),
            ("end_date".to_string(), "2024-01-31".to_string()),
        ]
    );
    assert_eq!(time_entries_query(&None, &Some("x".to_string())), vec![("end_date".to_string(), "x".to_string())]);
    assert!(time_entries_query(&None, &None).is_empty());
}
