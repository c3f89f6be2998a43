use tgltrk::commands::entries::{
    create_entry_params, edit_entry_params, entry_list_line_at, entry_workspaces,
    order_entries, parse_datetime, plan_entry_times,
};
use tgltrk::error::AppError;
use tgltrk::models::{Client, ClientId, Project, ProjectId, TimeEntry, TimeEntryId, WorkspaceId};
use tgltrk::time::Timestamp;

fn to_chrono(t: Timestamp) -> chrono::DateTime<chrono::Utc> {
    chrono::DateTime::<chrono::Utc>::from_timestamp(t.secs, t.nanos).unwrap()
}

fn invalid(e: AppError) -> String {
    match e {
        AppError::InvalidInput(m) => m,
        other => panic!("expected InvalidInput, got: {other:?}"),
    }
}

fn entry(id: i64, ws: i64, start_secs: i64) -> TimeEntry {
    TimeEntry {
        id: TimeEntryId(id),
        workspace_id: WorkspaceId(ws),
        description: Some(format!("e{id}")),
        start: Timestamp { secs: start_secs, nanos: 0 },
        stop: Some(Timestamp { secs: start_secs + 60, nanos: 0 }),
        duration: 60,
        project_id: None,
        task_id: None,
        tags: vec![],
        billable: false,
    }
}

fn ids(v: &[TimeEntry]) -> Vec<i64> {
    v.iter().map(|e| e.id.0).collect()
}

#[test]
fn parse_datetime_utc_format() {
    let dt = parse_datetime("2026-03-20T09:00:00Z").unwrap();
    assert_eq!(to_chrono(dt).to_rfc3339(), "2026-03-20T09:00:00+00:00");
}

#[test]
fn parse_datetime_local_t_separator() {
    let dt = parse_datetime("2026-03-20T09:00").unwrap();
    // Should parse without error (exact UTC value depends on local TZ)
    assert_eq!(to_chrono(dt).format("%Y-%m-%d").to_string(), "2026-03-20");
}

#[test]
fn parse_datetime_local_space_separator() {
    let dt = parse_datetime("2026-03-20 09:00").unwrap();
    assert_eq!(to_chrono(dt).format("%Y-%m-%d").to_string(), "2026-03-20");
}

#[test]
fn parse_datetime_with_seconds() {
    let dt = parse_datetime("2026-03-20T09:30:45").unwrap();
    assert_eq!(to_chrono(dt).format("%Y-%m-%d").to_string(), "2026-03-20");
}

#[test]
fn parse_datetime_invalid_input() {
    assert!(parse_datetime("not-a-date").is_err());
    assert!(parse_datetime("").is_err());
    assert!(parse_datetime("2026-13-01 00:00").is_err());
}

#[test]
fn parse_datetime_messages() {
    assert_eq!(
        invalid(parse_datetime("not-a-date").unwrap_err()),
        "Invalid datetime: 'not-a-date' (expected YYYY-MM-DD HH:MM or YYYY-MM-DDTHH:MM)"
    );
    let t = parse_datetime("2024-01-15T10:30:00.5+02:00").unwrap();
    assert_eq!(t, Timestamp { secs: 1_705_307_400, nanos: 500_000_000 });
}

#[test]
fn create_with_stop_sends_the_span() {
    let p = create_entry_params(
        Some("Morning meeting".to_string()),
        Some(10),
        Some(20),
        Some(vec!["a".to_string()]),
        true,
        "2024-01-15T09:00:00Z",
        Some("2024-01-15T10:30:00Z".to_string()),
        None,
    )
    .unwrap()
    .unwrap();
    assert_eq!(p.description.as_deref(), Some("Morning meeting"));
    assert_eq!(p.project_id, Some(10));
    assert_eq!(p.task_id, Some(tgltrk::models::TaskId(20)));
    assert_eq!(p.tags, vec!["a".to_string()]);
    assert!(p.billable);
    assert_eq!(p.start, Some(Timestamp { secs: 1_705_309_200, nanos: 0 }));
    assert_eq!(p.stop, Some(Timestamp { secs: 1_705_314_600, nanos: 0 }));
    assert_eq!(p.duration, Some(5400));
}

#[test]
fn create_with_duration_moves_the_stop() {
    let p = create_entry_params(
        None,
        None,
        None,
        None,
        false,
        "2024-01-15T14:00:00Z",
        None,
        Some("2h".to_string()),
    )
    .unwrap()
    .unwrap();
    let start = p.start.unwrap();
    let stop = p.stop.unwrap();
    assert_eq!(p.duration, Some(7200));
    assert_eq!(stop.secs - start.secs, 7200);
    assert_eq!(stop.nanos, start.nanos);
    assert!(p.tags.is_empty());
    assert_eq!(p.task_id, None);
}

#[test]
fn create_refuses_missing_or_double_end() {
    let both = create_entry_params(
        None,
        None,
        None,
        None,
        false,
        "2024-01-15T14:00:00Z",
        Some("2024-01-15T15:00:00Z".to_string()),
        Some("1h".to_string()),
    );
    assert_eq!(invalid(both.unwrap().unwrap_err()), "specify --stop or --duration, not both");
    let neither =
        create_entry_params(None, None, None, None, false, "2024-01-15T14:00:00Z", None, None);
    assert_eq!(
        invalid(neither.unwrap().unwrap_err()),
        "--stop or --duration is required for entries create"
    );
}

#[test]
fn create_refuses_stop_before_start() {
    let r = create_entry_params(
        None,
        None,
        None,
        None,
        false,
        "2024-01-15T14:00:00Z",
        Some("2024-01-15T13:00:00Z".to_string()),
        None,
    );
    assert_eq!(invalid(r.unwrap().unwrap_err()), "stop must be after start");
    let same = create_entry_params(
        None,
        None,
        None,
        None,
        false,
        "2024-01-15T14:00:00Z",
        Some("2024-01-15T14:00:00.5Z".to_string()),
        None,
    );
    assert_eq!(invalid(same.unwrap().unwrap_err()), "stop must be after start");
}

#[test]
fn create_reports_bad_texts() {
    let r = create_entry_params(None, None, None, None, false, "soon", None, Some("1h".to_string()));
    assert!(invalid(r.unwrap().unwrap_err()).starts_with("Invalid datetime: 'soon'"));
    let r = create_entry_params(
        None,
        None,
        None,
        None,
        false,
        "2024-01-15T14:00:00Z",
        None,
        Some("2x".to_string()),
    );
    assert_eq!(
        invalid(r.unwrap().unwrap_err()),
        "Invalid duration unit 'x' in '2x' (expected h, m, or s)"
    );
}

#[test]
fn create_with_a_duration_beyond_the_calendar_is_none() {
    let r = create_entry_params(
        None,
        None,
        None,
        None,
        false,
        "2024-01-15T14:00:00Z",
        None,
        Some(i64::MAX.to_string()),
    );
    assert!(r.is_none());
}

#[test]
fn plan_entry_times_cases() {
    let start = Timestamp { secs: 1_000, nanos: 0 };
    let stop = Timestamp { secs: 1_090, nanos: 999 };
    let (s, d) = plan_entry_times(start, Some(stop), None).unwrap();
    assert_eq!((s, d), (stop, 90));
    let (s, d) = plan_entry_times(start, None, Some(-30)).unwrap();
    assert_eq!((s, d), (Timestamp { secs: 970, nanos: 0 }, -30));
    assert!(plan_entry_times(start, None, None).is_err());
    assert!(plan_entry_times(start, Some(stop), Some(5)).is_err());
}

#[test]
fn edit_reads_only_what_is_given() {
    let p = edit_entry_params(
        Some("Standup".to_string()),
        None,
        None,
        Some(true),
        Some("2024-01-15T09:30:00Z".to_string()),
        None,
        Some("45m".to_string()),
    )
    .unwrap();
    assert_eq!(p.description.as_deref(), Some("Standup"));
    assert_eq!(p.billable, Some(true));
    assert_eq!(p.start, Some(Timestamp { secs: 1_705_311_000, nanos: 0 }));
    assert_eq!(p.stop, None);
    assert_eq!(p.duration, Some(2700));
    assert!(p.tags.is_none());
}

#[test]
fn edit_refuses_stop_with_duration() {
    let r = edit_entry_params(
        None,
        None,
        None,
        None,
        Some("not even read".to_string()),
        Some("2024-01-15T09:30:00Z".to_string()),
        Some("45m".to_string()),
    );
    assert_eq!(invalid(r.unwrap_err()), "specify --stop or --duration, not both");
    let r = edit_entry_params(None, None, None, None, Some("bad".to_string()), None, None);
    assert!(invalid(r.unwrap_err()).starts_with("Invalid datetime: 'bad'"));
}

#[test]
fn listing_is_newest_first_and_stable() {
    let v = vec![entry(1, 1, 100), entry(2, 1, 300), entry(3, 2, 200), entry(4, 1, 300)];
    let all = order_entries(v, None);
    assert_eq!(ids(&all), vec![2, 4, 3, 1]);
    let v = vec![entry(1, 1, 100), entry(2, 1, 300), entry(3, 2, 200), entry(4, 1, 300)];
    assert_eq!(ids(&order_entries(v, Some(2))), vec![2, 4]);
    let v = vec![entry(1, 1, 100), entry(2, 1, 300)];
    assert_eq!(ids(&order_entries(v, Some(10))), vec![2, 1]);
    assert!(order_entries(vec![entry(1, 1, 5)], Some(0)).is_empty());
    let mut a = entry(5, 1, 100);
    a.start.nanos = 1;
    let v = vec![entry(6, 1, 100), a];
    assert_eq!(ids(&order_entries(v, None)), vec![5, 6]);
}

#[test]
fn listing_names_each_workspace_once() {
    let v = vec![entry(1, 3, 1), entry(2, 1, 2), entry(3, 3, 3), entry(4, 2, 4), entry(5, 1, 5)];
    let mut w: Vec<i64> = entry_workspaces(&v).iter().map(|w| w.0).collect();
    w.sort();
    assert_eq!(w, vec![1, 2, 3]);
    assert!(entry_workspaces(&vec![]).is_empty());
}

#[test]
fn listing_line_shows_project_and_client() {
    let projects = vec![
        Project {
            id: ProjectId(10),
            workspace_id: WorkspaceId(1),
            name: "Old name".to_string(),
            active: true,
            color: String::new(),
            billable: None,
            client_id: None,
        },
        Project {
            id: ProjectId(10),
            workspace_id: WorkspaceId(1),
            name: "Website".to_string(),
            active: true,
            color: String::new(),
            billable: None,
            client_id: Some(ClientId(7)),
        },
        Project {
            id: ProjectId(11),
            workspace_id: WorkspaceId(1),
            name: "Internal".to_string(),
            active: true,
            color: String::new(),
            billable: None,
            client_id: Some(ClientId(99)),
        },
    ];
    let clients = vec![Client { id: ClientId(7), workspace_id: WorkspaceId(1), name: "Acme".to_string() }];
    let now = Timestamp { secs: 10_000, nanos: 0 };
    let mut e = entry(5, 1, 1000);
    e.duration = 3600;
    e.project_id = Some(10);
    e.tags = vec!["x".to_string(), "y".to_string()];
    assert_eq!(
        entry_list_line_at(&e, &projects, &clients, now),
        "#5 e5 01:00:00 (Website [Acme]) [x, y]"
    );
    e.project_id = Some(11);
    e.tags = vec![];
    assert_eq!(entry_list_line_at(&e, &projects, &clients, now), "#5 e5 01:00:00 (Internal)");
    e.project_id = Some(12);
    assert_eq!(entry_list_line_at(&e, &projects, &clients, now), "#5 e5 01:00:00");
    e.duration = -1000;
    e.project_id = None;
    assert_eq!(entry_list_line_at(&e, &projects, &clients, now), "#5 e5 02:30:00 [running]");
}

#[test]
fn local_datetime_is_within_a_day_of_its_reading() {
    let naive = chrono::NaiveDateTime::parse_from_str("2026-03-20T09:30:45", "%Y-%m-%dT%H:%M:%S")
        .unwrap()
        .and_utc()
        .timestamp();
    for text in ["2026-03-20 09:30:45", "2026-03-20T09:30:45"] {
        let t = parse_datetime(text).unwrap();
        assert!((t.secs - naive).abs() < 86_400, "{text}: {t:?}");
        assert_eq!(t.nanos, 0);
    }
    let t = parse_datetime("2026-03-20 09:30").unwrap();
    assert!((t.secs - (naive - 45)).abs() < 86_400);
}

#[test]
fn create_entry_with_stop() {
    let p = create_entry_params(
        Some("Test".to_string()),
        None,
        None,
        None,
        false,
        "2026-03-20T09:00:00Z",
        Some("2026-03-20T10:00:00Z".to_string()),
        None,
    )
    .unwrap()
    .unwrap();
    assert_eq!(p.start.map(to_chrono).unwrap().to_rfc3339(), "2026-03-20T09:00:00+00:00");
    assert_eq!(p.stop.map(to_chrono).unwrap().to_rfc3339(), "2026-03-20T10:00:00+00:00");
    assert_eq!(p.duration, Some(3600));
    assert!(p.tags.is_empty());
    assert_eq!(p.description.as_deref(), Some("Test"));
    assert!(!p.billable);
}

#[test]
fn create_entry_rejects_stop_before_start() {
    for stop in ["2026-03-20T09:00:00Z", "2026-03-20T10:00:00Z"] {
        let r = create_entry_params(None, None, None, None, false, "2026-03-20T10:00:00Z", Some(stop.to_string()), None);
        assert_eq!(invalid(r.unwrap().unwrap_err()), "stop must be after start");
    }
}

#[test]
fn listing_keeps_the_given_order_of_equal_starts() {
    let v = vec![entry(1, 1, 50), entry(2, 1, 70), entry(3, 1, 50), entry(4, 1, 70), entry(5, 1, 50)];
    assert_eq!(ids(&order_entries(v, None)), vec![2, 4, 1, 3, 5]);
}
