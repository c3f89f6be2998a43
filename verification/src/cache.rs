//! The rules of the on-disk cache: which keys are accepted, where an entry is
//! stored, when it has expired, and how its errors and status read. The file
//! operations themselves are done by the program around the library.

use vstd::prelude::*;

use crate::text::{dec_nat, push_char, push_chars, push_dec_u64, str_chars};
use crate::time::{
    format_rfc3339, format_utc, is_expired, rfc3339_utc, utc_format, Span, Timestamp,
};

verus! {

broadcast use vstd::string::group_string_axioms;

/// What can go wrong with the cache. File and JSON failures carry the text of
/// the underlying error.
#[derive(Debug)]
pub enum CacheError {
    InvalidKey(String),
    Io { op: String, path: String, source: String },
    Json { path: String, source: String },
}

/// A `CacheError` with its texts as character sequences.
pub enum CacheErrorView {
    InvalidKey(Seq<char>),
    Io { op: Seq<char>, path: Seq<char>, source: Seq<char> },
    Json { path: Seq<char>, source: Seq<char> },
}

impl View for CacheError {
    type V = CacheErrorView;

    open spec fn view(&self) -> CacheErrorView {
        match self {
            CacheError::InvalidKey(k) => CacheErrorView::InvalidKey(k@),
            CacheError::Io { op, path, source } => CacheErrorView::Io {
                op: op@,
                path: path@,
                source: source@,
            },
            CacheError::Json { path, source } => CacheErrorView::Json {
                path: path@,
                source: source@,
            },
        }
    }
}

/// The message that a cache error displays.
pub open spec fn cache_error_message(e: CacheErrorView) -> Seq<char> {
    match e {
        CacheErrorView::InvalidKey(k) => "Invalid cache key: '"@ + k
            + "' (only [a-zA-Z0-9_] allowed)"@,
        CacheErrorView::Io { op, path, source } => "Cache "@ + op + " failed for "@ + path
            + ": "@ + source,
        CacheErrorView::Json { path, source } => "Cache JSON error for "@ + path + ": "@
            + source,
    }
}

impl CacheError {
    /// The human-readable message of the error.
    pub fn to_string(&self) -> (s: String)
        ensures
            s@ == cache_error_message(self@),
    {
        let mut s = String::new();
        match self {
            CacheError::InvalidKey(k) => {
                s.append("Invalid cache key: '");
                s.append(k.as_str());
                s.append("' (only [a-zA-Z0-9_] allowed)");
            },
            CacheError::Io { op, path, source } => {
                s.append("Cache ");
                s.append(op.as_str());
                s.append(" failed for ");
                s.append(path.as_str());
                s.append(": ");
                s.append(source.as_str());
            },
            CacheError::Json { path, source } => {
                s.append("Cache JSON error for ");
                s.append(path.as_str());
                s.append(": ");
                s.append(source.as_str());
            },
        }
        s
    }
}

/// A character allowed in a cache key: `[a-zA-Z0-9_]`.
pub open spec fn is_key_char(c: char) -> bool {
    ('a' <= c && c <= 'z') || ('A' <= c && c <= 'Z') || ('0' <= c && c <= '9') || c == '_'
}

/// A cache key is non-empty and made of `[a-zA-Z0-9_]` only.
pub open spec fn valid_key(k: Seq<char>) -> bool {
    k.len() > 0 && forall|i: int| 0 <= i < k.len() ==> #[trigger] is_key_char(k[i])
}

/// `dir.join(name)` on Unix for a relative `name` without separators: a `/` is
/// put between them unless `dir` is empty or already ends with one.
pub open spec fn join_path(dir: Seq<char>, name: Seq<char>) -> Seq<char> {
    if dir.len() > 0 && dir.last() != '/' {
        dir + seq!['/'] + name
    } else {
        dir + name
    }
}

/// The file that holds the entry of `key`: `<dir>/<key>.json`.
pub open spec fn entry_path(dir: Seq<char>, key: Seq<char>) -> Seq<char> {
    join_path(dir, key + ".json"@)
}

/// The temporary file written before an entry is renamed into place:
/// `<dir>/.<key>.tmp.json`.
pub open spec fn temp_entry_path(dir: Seq<char>, key: Seq<char>) -> Seq<char> {
    join_path(dir, seq!['.'] + key + ".tmp.json"@)
}

/// Two different keys are stored in two different files, and the temporary
/// file written for one key is never the file of an entry.
pub proof fn law_entry_files_apart(dir: Seq<char>, k1: Seq<char>, k2: Seq<char>)
    requires
        valid_key(k1),
        valid_key(k2),
    ensures
        k1 != k2 ==> entry_path(dir, k1) != entry_path(dir, k2),
        temp_entry_path(dir, k1) != entry_path(dir, k2),
{
    reveal_strlit(".json");
    reveal_strlit(".tmp.json");
    let pre = if dir.len() > 0 && dir.last() != '/' {
        dir + seq!['/']
    } else {
        dir
    };
    let n1 = k1 + ".json"@;
    let n2 = k2 + ".json"@;
    let t1 = seq!['.'] + k1 + ".tmp.json"@;
    assert(entry_path(dir, k1) == pre + n1);
    assert(entry_path(dir, k2) == pre + n2);
    assert(temp_entry_path(dir, k1) == pre + t1);
    if entry_path(dir, k1) == entry_path(dir, k2) {
        assert(n1 =~= (pre + n1).subrange(pre.len() as int, (pre + n1).len() as int));
        assert(n2 =~= (pre + n2).subrange(pre.len() as int, (pre + n2).len() as int));
        assert(k1 =~= n1.subrange(0, n1.len() - 5));
        assert(k2 =~= n2.subrange(0, n2.len() - 5));
    }
    if temp_entry_path(dir, k1) == entry_path(dir, k2) {
        assert((pre + t1)[pre.len() as int] == t1[0]);
        assert((pre + n2)[pre.len() as int] == n2[0]);
        assert(n2[0] == k2[0]);
        assert(is_key_char(k2[0]));
    }
}

/// The key whose entry file is named `name`: `name` is `<key>.json` for a
/// key that the cache accepts. Temporary files (`.<key>.tmp.json`) and
/// foreign files have none.
pub open spec fn key_of_file_name(name: Seq<char>) -> Option<Seq<char>> {
    if name.len() >= 5 && name.skip(name.len() - 5) == ".json"@ && valid_key(
        name.take(name.len() - 5),
    ) {
        Some(name.take(name.len() - 5))
    } else {
        None
    }
}

/// The key of a file found in the cache directory, if it is an entry file.
pub fn entry_key_of_file(name: &str) -> (r: Option<String>)
    ensures
        match key_of_file_name(name@) {
            Some(k) => r matches Some(s) && s@ == k,
            None => r is None,
        },
{
    proof {
        reveal_strlit(".json");
    }
    let cs = str_chars(name);
    let ext = str_chars(".json");
    assert(ext@.len() == 5);
    if cs.len() < 5 {
        return None;
    }
    let cut = cs.len() - 5;
    let mut i: usize = 0;
    while i < 5
        invariant
            cs@ == name@,
            ext@ == ".json"@,
            cut == cs.len() - 5,
            ext@.len() == 5,
            i <= 5,
            forall|j: int| 0 <= j < i ==> cs@[cut + j] == ext@[j],
        decreases 5 - i,
    {
        if cs[cut + i] != ext[i] {
            assert(cs@.skip(cut as int)[i as int] != ".json"@[i as int]);
            return None;
        }
        i = i + 1;
    }
    assert(cs@.skip(cut as int) =~= ".json"@);
    let mut key = String::new();
    push_chars(&mut key, &cs, 0, cut);
    assert(key@ =~= cs@.take(cut as int));
    let mut j: usize = 0;
    while j < cut
        invariant
            cs@ == name@,
            cut == cs.len() - 5,
            j <= cut,
            forall|k: int| 0 <= k < j ==> #[trigger] is_key_char(cs@[k]),
        decreases cut - j,
    {
        if !key_char_allowed(cs[j]) {
            assert(!is_key_char(cs@.take(cut as int)[j as int]));
            return None;
        }
        j = j + 1;
    }
    if cut == 0 {
        return None;
    }
    assert(valid_key(cs@.take(cut as int)));
    Some(key)
}

/// Whether `c` may appear in a cache key.
pub fn key_char_allowed(c: char) -> (b: bool)
    ensures
        b == is_key_char(c),
{
    ('a' <= c && c <= 'z') || ('A' <= c && c <= 'Z') || ('0' <= c && c <= '9') || c == '_'
}

/// Accepts a cache key made of `[a-zA-Z0-9_]` only, and refuses any other
/// (the empty key too) with `InvalidKey(key)`.
pub fn validate_key(key: &str) -> (r: Result<(), CacheError>)
    ensures
        r is Ok <==> valid_key(key@),
        r matches Err(e) ==> e@ == CacheErrorView::InvalidKey(key@),
{
    let cs = str_chars(key);
    let mut ok = cs.len() > 0;
    let mut i: usize = 0;
    while i < cs.len()
        invariant
            i <= cs.len(),
            cs@ == key@,
            ok == (cs.len() > 0 && forall|j: int| 0 <= j < i ==> #[trigger] is_key_char(cs@[j])),
        decreases cs.len() - i,
    {
        if !key_char_allowed(cs[i]) {
            ok = false;
        }
        i = i + 1;
    }
    if ok {
        Ok(())
    } else {
        Err(CacheError::InvalidKey(key.to_string()))
    }
}

/// Appends `name` to the directory path `dir` as `Path::join` does for a
/// relative name on Unix.
pub fn join_path_exec(dir: &str, name: &Vec<char>) -> (p: String)
    ensures
        p@ == join_path(dir@, name@),
{
    let d = str_chars(dir);
    let mut p = dir.to_string();
    if d.len() > 0 && d[d.len() - 1] != '/' {
        push_char(&mut p, '/');
    }
    push_chars(&mut p, name, 0, name.len());
    assert(name@.subrange(0, name@.len() as int) =~= name@);
    assert(p@ =~= join_path(dir@, name@));
    p
}

/// The path of the file that holds the entry of `key`, after checking the key.
pub fn cache_file_path(cache_dir: &str, key: &str) -> (r: Result<String, CacheError>)
    ensures
        r is Ok <==> valid_key(key@),
        r matches Ok(p) ==> p@ == entry_path(cache_dir@, key@),
        r matches Err(e) ==> e@ == CacheErrorView::InvalidKey(key@),
{
    validate_key(key)?;
    let mut name = str_chars(key);
    let ext = str_chars(".json");
    let mut i: usize = 0;
    let ghost k = name@;
    while i < ext.len()
        invariant
            i <= ext.len(),
            name@ == k + ext@.take(i as int),
        decreases ext.len() - i,
    {
        name.push(ext[i]);
        i = i + 1;
        assert(name@ =~= k + ext@.take(i as int));
    }
    assert(ext@.take(ext.len() as int) =~= ext@);
    Ok(join_path_exec(cache_dir, &name))
}

/// The path of the temporary file that a write of `key` goes through, after
/// checking the key.
pub fn cache_temp_path(cache_dir: &str, key: &str) -> (r: Result<String, CacheError>)
    ensures
        r is Ok <==> valid_key(key@),
        r matches Ok(p) ==> p@ == temp_entry_path(cache_dir@, key@),
        r matches Err(e) ==> e@ == CacheErrorView::InvalidKey(key@),
{
    validate_key(key)?;
    let mut s = String::new();
    push_char(&mut s, '.');
    s.append(key);
    s.append(".tmp.json");
    let name = str_chars(s.as_str());
    assert(name@ =~= seq!['.'] + key@ + ".tmp.json"@);
    Ok(join_path_exec(cache_dir, &name))
}

/// The size and last change of one cache file, for `cache status`.
#[derive(Debug)]
pub struct CacheFileStatus {
    pub key: String,
    pub size: u64,
    pub modified: Option<Timestamp>,
}

/// How the last change of a cache file reads: chrono's
/// `%Y-%m-%d %H:%M:%S UTC` rendering, or `unknown`.
pub open spec fn modified_text(m: Option<Timestamp>) -> Seq<char> {
    match m {
        Some(t) => match utc_format(t.secs, t.nanos) {
            Some(s) => s,
            None => "unknown"@,
        },
        None => "unknown"@,
    }
}

impl CacheFileStatus {
    /// The last change in RFC 3339 (`to_rfc3339`), as the JSON answer of
    /// `cache status` shows it; `None` when unknown.
    pub fn modified_rfc3339(&self) -> (r: Option<String>)
        ensures
            match self.modified {
                Some(t) => match rfc3339_utc(t.secs, t.nanos) {
                    Some(text) => r matches Some(s) && s@ == text,
                    None => r is None,
                },
                None => r is None,
            },
    {
        match &self.modified {
            Some(t) => format_rfc3339(t),
            None => None,
        }
    }

    /// `<key>: <size> bytes, last updated <modified>`.
    pub fn to_string(&self) -> (s: String)
        ensures
            s@ == self.key@ + ": "@ + dec_nat(self.size as nat) + " bytes, last updated "@
                + modified_text(self.modified),
    {
        let mut s = String::new();
        s.append(self.key.as_str());
        s.append(": ");
        push_dec_u64(&mut s, self.size);
        s.append(" bytes, last updated ");
        match &self.modified {
            Some(t) => match format_utc(t, "%Y-%m-%d %H:%M:%S UTC") {
                Some(m) => s.append(m.as_str()),
                None => s.append("unknown"),
            },
            None => s.append("unknown"),
        }
        s
    }
}

// ---------------------------------------------------------------------------
// The cache directory and the freshness of its entries
// ---------------------------------------------------------------------------

/// How long a cached entry stays fresh, in hours.
pub const CACHE_TTL_HOURS: i64 = 72;

/// The lifetime of a cached entry: 72 hours.
pub fn cache_ttl() -> (t: Span)
    ensures
        t.secs == CACHE_TTL_HOURS * 3600,
        t.nanos == 0,
{
    Span { secs: CACHE_TTL_HOURS * 3600, nanos: 0 }
}

/// A cache of JSON files in one directory, whose entries live for `default_ttl`.
#[derive(Debug)]
pub struct FileCache {
    pub cache_dir: String,
    pub default_ttl: Span,
}

/// What a cache file that was read turns out to be.
#[derive(Clone, Copy, Debug, PartialEq, Eq, Structural)]
pub enum CachedEntry {
    /// Not a cache entry of the expected shape: it is removed and counts as a miss.
    Unparsable,
    /// Older than the lifetime: it is removed and counts as a miss.
    Expired,
    /// Its data is returned.
    Fresh,
}

impl FileCache {
    /// A cache in `cache_dir` whose entries live for `default_ttl`.
    pub fn new(cache_dir: String, default_ttl: Span) -> (c: FileCache)
        ensures
            c.cache_dir@ == cache_dir@,
            c.default_ttl == default_ttl,
    {
        FileCache { cache_dir, default_ttl }
    }

    /// The directory of the cache.
    pub fn cache_dir(&self) -> (d: &str)
        ensures
            d@ == self.cache_dir@,
    {
        self.cache_dir.as_str()
    }

    /// The file that holds the entry of `key`.
    pub fn entry_path(&self, key: &str) -> (r: Result<String, CacheError>)
        ensures
            valid_key(key@) ==> (r matches Ok(p) && p@ == entry_path(self.cache_dir@, key@)),
            !valid_key(key@) ==> (r matches Err(e) && e@ == CacheErrorView::InvalidKey(key@)),
    {
        cache_file_path(self.cache_dir.as_str(), key)
    }

    /// The verdict on an entry read from disk: `None` for a file that did not
    /// parse, else its time of caching, compared with the lifetime at `now`.
    pub fn judge(&self, cached_at: Option<Timestamp>, now: Timestamp) -> (v: CachedEntry)
        ensures
            match cached_at {
                None => v == CachedEntry::Unparsable,
                Some(t) => if now.total_nanos() - t.total_nanos() >= self.default_ttl.total_nanos() {
                    v == CachedEntry::Expired
                } else {
                    v == CachedEntry::Fresh
                },
            },
    {
        match cached_at {
            None => CachedEntry::Unparsable,
            Some(t) => if is_expired(t, self.default_ttl, now) {
                CachedEntry::Expired
            } else {
                CachedEntry::Fresh
            },
        }
    }
}

} // verus!
