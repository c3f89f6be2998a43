//! The text of `cache status`.

use vstd::prelude::*;

use crate::cache::{modified_text, CacheFileStatus, FileCache};
use crate::error::{AppError, AppErrorView};
use crate::text::{dec_nat, push_char};

verus! {

broadcast use vstd::string::group_string_axioms;

/// `<key>: <size> bytes, last updated <modified>`.
pub open spec fn status_line(s: CacheFileStatus) -> Seq<char> {
    s.key@ + ": "@ + dec_nat(s.size as nat) + " bytes, last updated "@ + modified_text(s.modified)
}

/// Each cache file on a line of its own, indented by two spaces.
pub open spec fn status_lines(st: Seq<CacheFileStatus>) -> Seq<char>
    decreases st.len(),
{
    if st.len() == 0 {
        Seq::empty()
    } else {
        status_lines(st.drop_last()) + "  "@ + status_line(st.last()) + seq!['\n']
    }
}

/// The text of `cache status`: the cache directory and one line per cache
/// file, or, with no file, `Cache is empty` before the directory.
pub open spec fn cache_status_text_spec(dir: Seq<char>, st: Seq<CacheFileStatus>) -> Seq<char> {
    if st.len() == 0 {
        "Cache is empty\n"@ + "Cache dir: "@ + dir + seq!['\n']
    } else {
        "Cache dir: "@ + dir + seq!['\n'] + status_lines(st)
    }
}

/// The text that `cache status` prints.
pub fn cache_status_text(dir: &str, statuses: &Vec<CacheFileStatus>) -> (s: String)
    ensures
        s@ == cache_status_text_spec(dir@, statuses@),
{
    let mut s = String::new();
    if statuses.len() == 0 {
        s.append("Cache is empty\n");
    }
    s.append("Cache dir: ");
    s.append(dir);
    push_char(&mut s, '\n');
    let ghost head = s@;
    let mut i: usize = 0;
    while i < statuses.len()
        invariant
            i <= statuses.len(),
            s@ == head + status_lines(statuses@.take(i as int)),
        decreases statuses.len() - i,
    {
        s.append("  ");
        let line = statuses[i].to_string();
        s.append(line.as_str());
        push_char(&mut s, '\n');
        assert(statuses@.take(i + 1).drop_last() =~= statuses@.take(i as int));
        assert(s@ =~= head + status_lines(statuses@.take(i + 1)));
        i = i + 1;
    }
    assert(statuses@.take(i as int) =~= statuses@);
    assert(s@ =~= cache_status_text_spec(dir@, statuses@));
    s
}

/// The cache that the `cache` commands work on: the one found, or
/// `Cache("Failed to initialize cache")` when none could be located.
pub fn require_cache(found: Option<FileCache>) -> (r: Result<FileCache, AppError>)
    ensures
        match found {
            Some(c) => r matches Ok(d) && d.cache_dir@ == c.cache_dir@ && d.default_ttl
                == c.default_ttl,
            None => r matches Err(e) && e@ == AppErrorView::Cache("Failed to initialize cache"@),
        },
{
    match found {
        Some(c) => Ok(c),
        None => Err(AppError::Cache("Failed to initialize cache".to_string())),
    }
}

} // verus!
