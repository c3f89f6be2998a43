use tgltrk::cache::{validate_key, CacheFileStatus};
use tgltrk::cli::{ClientsAction, ProjectsAction, TagsAction};
use tgltrk::commands::auth::{check_login_token, clear_outcome, login_next};
use tgltrk::commands::cache_cmd::{cache_status_text, require_cache};
use tgltrk::commands::projects::project_list_line;
use tgltrk::commands::timer::{plan_stop, timer_start_params};
use tgltrk::commands::{
    resolve_entry_workspace, resolve_workspace_id, take_cached,
    cache_key, clients_invalidation, compute_fingerprint, deleted_message, listing_key,
    projects_invalidation, tags_invalidation, CacheHits, Listing,
};
use tgltrk::error::AppError;
use tgltrk::models::{
    User,
    Client, ClientId, Project, ProjectId, TaskId, TimeEntry, TimeEntryId, WorkspaceId,
};
use tgltrk::time::Timestamp;

#[test]
fn cache_hits_keep_their_order() {
    let mut hits = CacheHits::new();
    assert!(hits.entities().is_empty());
    hits.record("user");
    hits.record("projects_1");
    hits.record("user");
    assert_eq!(hits.entities(), &["user".to_string(), "projects_1".to_string(), "user".to_string()]);
    let d = CacheHits::default();
    assert!(d.entities().is_empty());
}

#[test]
fn fingerprint_is_sixteen_hex_digits_and_stable() {
    let a = compute_fingerprint("token_a");
    let b = compute_fingerprint("token_a");
    assert_eq!(a, b);
    assert_eq!(a.len(), 16);
    assert!(a.chars().all(|c| c.is_ascii_digit() || ('a'..='f').contains(&c)));
    let key = cache_key(&Some(a.clone()), "projects_1");
    assert_eq!(key, format!("{a}_projects_1"));
    assert!(validate_key(&key).is_ok());
    assert_eq!(cache_key(&None, "user"), "user");
    assert_ne!(cache_key(&Some(a.clone()), "user"), cache_key(&Some(a), "tags_1"));
}

#[test]
fn listing_keys_and_invalidation() {
    let w = WorkspaceId(1234);
    assert_eq!(listing_key(Listing::Projects, w), "projects_1234");
    assert_eq!(listing_key(Listing::Tags, w), "tags_1234");
    assert_eq!(listing_key(Listing::Clients, w), "clients_1234");
    assert!(validate_key(&listing_key(Listing::Tags, w)).is_ok());
    assert!(validate_key(&listing_key(Listing::Tags, WorkspaceId(-1))).is_err());

    assert_eq!(projects_invalidation(&ProjectsAction::List, w), None);
    assert_eq!(projects_invalidation(&ProjectsAction::Get { id: 1 }, w), None);
    assert_eq!(
        projects_invalidation(&ProjectsAction::Create { name: "n".to_string(), client: None }, w),
        Some("projects_1234".to_string())
    );
    assert_eq!(
        projects_invalidation(&ProjectsAction::Update { id: 1, name: None, client: Some(2) }, w),
        Some("projects_1234".to_string())
    );
    assert_eq!(projects_invalidation(&ProjectsAction::Delete { id: 1 }, w), Some("projects_1234".to_string()));
    assert_eq!(tags_invalidation(&TagsAction::List, w), None);
    assert_eq!(
        tags_invalidation(&TagsAction::Update { id: 1, name: "x".to_string() }, w),
        Some("tags_1234".to_string())
    );
    assert_eq!(clients_invalidation(&ClientsAction::Get { id: 3 }, w), None);
    assert_eq!(clients_invalidation(&ClientsAction::Delete { id: 3 }, w), Some("clients_1234".to_string()));
}

#[test]
fn deleted_messages() {
    assert_eq!(deleted_message("Entry", 12345677), "Entry #12345677 deleted");
    assert_eq!(deleted_message("Tag", 504), "Tag #504 deleted");
    assert_eq!(deleted_message("Project", -1), "Project #-1 deleted");
}

#[test]
fn project_listing_lines() {
    let clients = vec![
        Client { id: ClientId(7), workspace_id: WorkspaceId(1), name: "Old".to_string() },
        Client { id: ClientId(7), workspace_id: WorkspaceId(1), name: "Acme".to_string() },
    ];
    let mut p = Project {
        id: ProjectId(1003),
        workspace_id: WorkspaceId(1),
        name: "API Migration".to_string(),
        active: false,
        color: String::new(),
        billable: None,
        client_id: None,
    };
    assert_eq!(project_list_line(&p, &clients), "#1003 API Migration (archived)");
    p.client_id = Some(ClientId(7));
    assert_eq!(project_list_line(&p, &clients), "#1003 API Migration [Acme] (archived)");
    p.active = true;
    p.client_id = Some(ClientId(8));
    assert_eq!(project_list_line(&p, &clients), "#1003 API Migration");
    assert_eq!(project_list_line(&p, &vec![]), "#1003 API Migration");
}

#[test]
fn cache_status_texts() {
    assert_eq!(cache_status_text("/c", &vec![]), "Cache is empty\nCache dir: /c\n");
    let st = vec![
        CacheFileStatus {
            key: "user".to_string(),
            size: 245,
            modified: Some(Timestamp { secs: 1_705_314_600, nanos: 0 }),
        },
        CacheFileStatus { key: "projects_1234".to_string(), size: 1024, modified: None },
    ];
    assert_eq!(
        cache_status_text("/c", &st),
        "Cache dir: /c\n  user: 245 bytes, last updated 2024-01-15 10:30:00 UTC\n  projects_1234: 1024 bytes, last updated unknown\n"
    );
}

#[test]
fn timer_start_runs_from_now() {
    let p = timer_start_params(
        Some("Code review".to_string()),
        Some(12345),
        Some(TaskId(3)),
        Some(vec!["bug".to_string(), "review".to_string()]),
        true,
    );
    assert_eq!(p.description.as_deref(), Some("Code review"));
    assert_eq!(p.project_id, Some(12345));
    assert_eq!(p.task_id, Some(TaskId(3)));
    assert_eq!(p.tags, vec!["bug".to_string(), "review".to_string()]);
    assert!(p.billable);
    assert!(p.start.is_none() && p.stop.is_none() && p.duration.is_none());
    let minimal = timer_start_params(None, None, None, None, false);
    assert!(minimal.tags.is_empty() && minimal.description.is_none());
}

#[test]
fn timer_stop_needs_a_running_entry() {
    match plan_stop(&None, Some(5)) {
        Err(AppError::NotFound(m)) => assert_eq!(m, "No running timer"),
        other => panic!("got: {other:?}"),
    }
    let running = TimeEntry {
        id: TimeEntryId(12345679),
        workspace_id: WorkspaceId(9),
        description: None,
        start: Timestamp { secs: 0, nanos: 0 },
        stop: None,
        duration: -1,
        project_id: None,
        task_id: None,
        tags: vec![],
        billable: false,
    };
    let current = Some(running);
    assert_eq!(plan_stop(&current, None).unwrap(), (WorkspaceId(9), TimeEntryId(12345679)));
    assert_eq!(plan_stop(&current, Some(2)).unwrap(), (WorkspaceId(2), TimeEntryId(12345679)));
}

#[test]
fn login_token_must_not_be_blank() {
    assert!(check_login_token("abc").is_ok());
    assert!(check_login_token("  abc\n").is_ok());
    for t in ["", "   ", "\n\t"] {
        match check_login_token(t) {
            Err(AppError::InvalidInput(m)) => assert_eq!(m, "API token cannot be empty"),
            other => panic!("got: {other:?}"),
        }
    }
}

#[test]
fn accounts_do_not_share_cache_keys() {
    let a = compute_fingerprint("token_of_alice");
    let b = compute_fingerprint("token_of_bob");
    assert_ne!(a, b);
    assert_ne!(cache_key(&Some(a), "user"), cache_key(&Some(b), "user"));
}

struct CountingStore {
    cleared: std::cell::Cell<u32>,
    refuse: bool,
}

impl tgltrk::credentials::CredentialStore for CountingStore {
    fn read(&self) -> Result<tgltrk::credentials::Credential, AppError> {
        Ok(tgltrk::credentials::Credential { api_token: "t".to_string() })
    }

    fn save(&self, _token: &str) -> Result<(), AppError> {
        Ok(())
    }

    fn clear(&self) -> Result<(), AppError> {
        self.cleared.set(self.cleared.get() + 1);
        if self.refuse {
            Err(AppError::Keyring("locked".to_string()))
        } else {
            Ok(())
        }
    }
}

#[test]
fn clear_inner_calls_store_clear() {
    let store = CountingStore { cleared: std::cell::Cell::new(0), refuse: false };
    let mut buf = Vec::new();
    assert!(tgltrk::commands::auth::clear_inner(&store, false, &mut buf).is_ok());
    assert_eq!(store.cleared.get(), 1);
    let text = String::from_utf8(buf).unwrap();
    assert!(text.ends_with(" Token removed\n"), "got: {text}");
}

#[test]
fn clear_inner_reports_a_refusing_store() {
    let store = CountingStore { cleared: std::cell::Cell::new(0), refuse: true };
    let mut buf = Vec::new();
    match tgltrk::commands::auth::clear_inner(&store, true, &mut buf) {
        Err(AppError::Keyring(m)) => assert_eq!(m, "locked"),
        other => panic!("got: {other:?}"),
    }
    assert!(buf.is_empty());
    let env = tgltrk::credentials::EnvStore { token: "abc".to_string() };
    assert!(tgltrk::commands::auth::clear_inner(&env, false, &mut buf).is_err());
    assert!(buf.is_empty());
    let mut json = Vec::new();
    tgltrk::commands::auth::clear_inner(&CountingStore { cleared: std::cell::Cell::new(0), refuse: false }, true, &mut json).unwrap();
    let parsed: serde_json::Value = serde_json::from_slice(&json).unwrap();
    assert!(parsed["data"].is_null());
}

#[test]
fn cache_commands_need_a_cache() {
    match require_cache(None) {
        Err(AppError::Cache(m)) => assert_eq!(m, "Failed to initialize cache"),
        other => panic!("got: {other:?}"),
    }
    let c = tgltrk::cache::FileCache::new("/tmp/c".to_string(), tgltrk::cache::cache_ttl());
    assert_eq!(require_cache(Some(c)).unwrap().cache_dir(), "/tmp/c");
}

#[test]
fn clear_outcome_follows_the_store() {
    let mut buf = Vec::new();
    match clear_outcome(Err(AppError::Keyring("locked".to_string())), false, &mut buf) {
        Err(AppError::Keyring(m)) => assert_eq!(m, "locked"),
        other => panic!("got: {other:?}"),
    }
    assert!(buf.is_empty());
    clear_outcome(Ok(()), false, &mut buf).unwrap();
    assert!(String::from_utf8(buf).unwrap().ends_with(" Token removed\n"));
    let mut json = Vec::new();
    clear_outcome(Ok(()), true, &mut json).unwrap();
    let parsed: serde_json::Value = serde_json::from_slice(&json).unwrap();
    assert!(parsed["data"].is_null());
    assert_eq!(parsed["meta"]["cached"], serde_json::Value::Array(vec![]));
}

#[test]
fn workspace_comes_from_override_else_the_record() {
    let user = User {
        email: "a@b.com".to_string(),
        fullname: "A".to_string(),
        default_workspace_id: WorkspaceId(1234),
        timezone: "UTC".to_string(),
    };
    assert_eq!(resolve_workspace_id(Some(42), None), Some(WorkspaceId(42)));
    assert_eq!(resolve_workspace_id(Some(42), Some(&user)), Some(WorkspaceId(42)));
    assert_eq!(resolve_workspace_id(None, None), None);
    assert_eq!(resolve_workspace_id(None, Some(&user)), Some(WorkspaceId(1234)));
    let entry = TimeEntry {
        id: TimeEntryId(1),
        workspace_id: WorkspaceId(9),
        description: None,
        start: Timestamp { secs: 0, nanos: 0 },
        stop: None,
        duration: -1,
        project_id: None,
        task_id: None,
        tags: vec![],
        billable: false,
    };
    assert_eq!(resolve_entry_workspace(None, None), None);
    assert_eq!(resolve_entry_workspace(None, Some(&entry)), Some(WorkspaceId(9)));
    assert_eq!(resolve_entry_workspace(Some(3), Some(&entry)), Some(WorkspaceId(3)));
}

#[test]
fn cached_values_are_served_and_noted() {
    let mut hits = CacheHits::new();
    assert_eq!(take_cached(Some(vec![1, 2]), "projects_1", &mut hits), Some(vec![1, 2]));
    assert_eq!(take_cached::<Vec<i32>>(None, "tags_1", &mut hits), None);
    assert_eq!(take_cached(Some("u".to_string()), "user", &mut hits), Some("u".to_string()));
    assert_eq!(hits.entities(), &["projects_1".to_string(), "user".to_string()]);
}

#[test]
fn login_clears_the_cache_only_once_saved() {
    assert!(matches!(login_next(true, Ok(())), Ok(true)));
    assert!(matches!(login_next(false, Ok(())), Ok(false)));
    match login_next(true, Err(AppError::Keyring("Failed to save token: denied".to_string()))) {
        Err(AppError::Keyring(m)) => assert_eq!(m, "Failed to save token: denied"),
        other => panic!("got: {other:?}"),
    }
}
