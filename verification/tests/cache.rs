use tgltrk::cache::{
    cache_file_path, cache_temp_path, cache_ttl, entry_key_of_file, validate_key, CacheError, CacheFileStatus,
    CachedEntry, FileCache, CACHE_TTL_HOURS,
};
use tgltrk::error::AppError;
use tgltrk::time::{is_expired, now, Span, Timestamp};

fn hours(h: i64) -> Span {
    Span { secs: h * 3600, nanos: 0 }
}

fn later(t: Timestamp, secs: i64) -> Timestamp {
    Timestamp { secs: t.secs + secs, nanos: t.nanos }
}

#[test]
fn is_expired_returns_false_when_within_ttl() {
    let cached_at = now();
    let ttl = hours(72);
    let now = later(cached_at, 3600);
    assert!(!is_expired(cached_at, ttl, now));
}

#[test]
fn is_expired_returns_true_when_past_ttl() {
    let cached_at = now();
    let ttl = hours(72);
    let now = later(cached_at, 73 * 3600);
    assert!(is_expired(cached_at, ttl, now));
}

#[test]
fn is_expired_returns_true_at_exact_boundary() {
    let cached_at = now();
    let ttl = hours(72);
    let now = later(cached_at, 72 * 3600);
    assert!(is_expired(cached_at, ttl, now));
}

#[test]
fn validate_key_accepts_valid_keys() {
    assert!(validate_key("projects").is_ok());
    assert!(validate_key("tags").is_ok());
    assert!(validate_key("user_info").is_ok());
    assert!(validate_key("abc123").is_ok());
}

#[test]
fn validate_key_rejects_empty_key() {
    assert!(validate_key("").is_err());
}

#[test]
fn validate_key_rejects_special_characters() {
    assert!(validate_key("../etc/passwd").is_err());
    assert!(validate_key("my-key").is_err());
    assert!(validate_key("key with spaces").is_err());
    assert!(validate_key("key.json").is_err());
}

#[test]
fn cache_file_path_generates_correct_path() {
    let path = cache_file_path("/tmp/cache", "projects").unwrap();
    assert_eq!(path, "/tmp/cache/projects.json");
}

#[test]
fn cache_file_path_rejects_invalid_key() {
    assert!(cache_file_path("/tmp/cache", "../hack").is_err());
}

#[test]
fn cache_error_display_invalid_key() {
    let e = CacheError::InvalidKey("bad!".to_string());
    let msg = e.to_string();
    assert!(msg.contains("Invalid cache key"), "got: {msg}");
}

#[test]
fn cache_error_display_io() {
    let source = std::io::Error::new(std::io::ErrorKind::NotFound, "not found");
    let e = CacheError::Io {
        op: "read".to_string(),
        path: "/tmp/test".to_string(),
        source: source.to_string(),
    };
    let msg = e.to_string();
    assert!(msg.contains("Cache read failed"), "got: {msg}");
}

#[test]
fn cache_error_display_json() {
    let json_err = serde_json::from_str::<String>("bad").unwrap_err();
    let e = CacheError::Json {
        path: "/tmp/test.json".to_string(),
        source: json_err.to_string(),
    };
    let msg = e.to_string();
    assert!(msg.contains("Cache JSON error"), "got: {msg}");
}

#[test]
fn cache_file_status_display() {
    let status = CacheFileStatus {
        key: "projects".to_string(),
        size: 1024,
        modified: None,
    };
    let msg = status.to_string();
    assert!(msg.contains("projects"), "got: {msg}");
    assert!(msg.contains("1024"), "got: {msg}");
}

#[test]
fn from_cache_error() {
    let cache_err = CacheError::InvalidKey("bad".to_string());
    let app_err = AppError::from_cache_error(cache_err);
    match &app_err {
        AppError::Cache(msg) => assert!(msg.contains("Invalid cache key"), "got: {msg}"),
        other => panic!("expected Cache, got: {other:?}"),
    }
}

#[test]
fn cache_error_messages_are_exact() {
    assert_eq!(
        CacheError::InvalidKey("a-b".to_string()).to_string(),
        "Invalid cache key: 'a-b' (only [a-zA-Z0-9_] allowed)"
    );
    let io = CacheError::Io {
        op: "write_tmp".to_string(),
        path: "/c/.k.tmp.json".to_string(),
        source: "denied".to_string(),
    };
    assert_eq!(io.to_string(), "Cache write_tmp failed for /c/.k.tmp.json: denied");
    let json = CacheError::Json { path: "/c/k.json".to_string(), source: "eof".to_string() };
    assert_eq!(json.to_string(), "Cache JSON error for /c/k.json: eof");
    assert_eq!(
        AppError::from_cache_error(CacheError::InvalidKey("x y".to_string())).to_string(),
        "Cache error: Invalid cache key: 'x y' (only [a-zA-Z0-9_] allowed)"
    );
}

#[test]
fn cache_file_status_shows_modified_time_in_utc() {
    let status = CacheFileStatus {
        key: "user".to_string(),
        size: 245,
        modified: Some(Timestamp { secs: 1_705_314_600, nanos: 0 }),
    };
    assert_eq!(status.to_string(), "user: 245 bytes, last updated 2024-01-15 10:30:00 UTC");
    let unknown = CacheFileStatus { key: "tags".to_string(), size: 0, modified: None };
    assert_eq!(unknown.to_string(), "tags: 0 bytes, last updated unknown");
}

#[test]
fn cache_file_path_joins_without_doubling_the_separator() {
    assert_eq!(cache_file_path("/tmp/cache/", "tags").unwrap(), "/tmp/cache/tags.json");
    assert_eq!(cache_file_path("", "tags").unwrap(), "tags.json");
    assert_eq!(cache_temp_path("/tmp/cache", "tags").unwrap(), "/tmp/cache/.tags.tmp.json");
    match cache_temp_path("/tmp/cache", "a/b") {
        Err(CacheError::InvalidKey(k)) => assert_eq!(k, "a/b"),
        _ => panic!("expected InvalidKey"),
    }
}

#[test]
fn entry_files_of_different_keys_are_apart() {
    let a = cache_file_path("/c", "projects_1").unwrap();
    let b = cache_file_path("/c", "projects_2").unwrap();
    let t = cache_temp_path("/c", "projects_1").unwrap();
    assert_ne!(a, b);
    assert_ne!(t, a);
    assert_ne!(t, b);
}

#[test]
fn expiry_stays_once_reached() {
    let cached_at = Timestamp { secs: 1_000, nanos: 500 };
    let ttl = hours(1);
    let at_limit = later(cached_at, 3600);
    assert!(is_expired(cached_at, ttl, at_limit));
    assert!(is_expired(cached_at, ttl, later(at_limit, 1)));
    assert!(is_expired(cached_at, ttl, later(at_limit, 1_000_000)));
    let just_before = Timestamp { secs: cached_at.secs + 3599, nanos: 999_999_999 };
    assert!(!is_expired(cached_at, ttl, just_before));
}

#[test]
fn file_cache_judges_entries_by_their_age() {
    let ttl = cache_ttl();
    assert_eq!(CACHE_TTL_HOURS, 72);
    assert_eq!(ttl, Span { secs: 72 * 3600, nanos: 0 });
    let cache = FileCache::new("/tmp/c".to_string(), ttl);
    assert_eq!(cache.cache_dir(), "/tmp/c");
    let t = Timestamp { secs: 10_000, nanos: 0 };
    assert_eq!(cache.judge(None, t), CachedEntry::Unparsable);
    assert_eq!(cache.judge(Some(t), later(t, 3600)), CachedEntry::Fresh);
    assert_eq!(cache.judge(Some(t), later(t, 72 * 3600)), CachedEntry::Expired);
    assert_eq!(cache.entry_path("user").unwrap(), "/tmp/c/user.json");
    assert!(cache.entry_path("../user").is_err());
    let zero = FileCache::new("/tmp/c".to_string(), Span { secs: 0, nanos: 0 });
    assert_eq!(zero.judge(Some(t), t), CachedEntry::Expired);
}

#[test]
fn only_entry_files_name_a_key() {
    assert_eq!(entry_key_of_file("projects_1.json"), Some("projects_1".to_string()));
    assert_eq!(entry_key_of_file("user.json"), Some("user".to_string()));
    assert_eq!(entry_key_of_file(".user.tmp.json"), None);
    assert_eq!(entry_key_of_file(".json"), None);
    assert_eq!(entry_key_of_file("user.txt"), None);
    assert_eq!(entry_key_of_file("json"), None);
    assert_eq!(entry_key_of_file("a-b.json"), None);
    let path = cache_file_path("/c", "tags_9").unwrap();
    let name = path.rsplit('/').next().unwrap();
    assert_eq!(entry_key_of_file(name), Some("tags_9".to_string()));
}
