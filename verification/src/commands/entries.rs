//! The rules of the `entries` commands: reading date-times, working out the
//! stop and duration of a new entry, the fields of an edit, the order of the
//! listing and the text of each listed entry.

use vstd::prelude::*;

use crate::api::client::{CreateTimeEntryParams, UpdateTimeEntryParams};
use crate::commands::duration::{
    duration_fault_message, duration_value, parse_duration_str, DurationFault,
};
use crate::error::{AppError, AppErrorView};
use crate::models::{
    description_text, elapsed_seconds, hms_text, running_marker, tags_text, Client, ClientId,
    Project, TaskId, TimeEntry, WorkspaceId,
};
use crate::text::{dec_int, push_char, push_dec_i64, push_joined, str_chars, trim};
use crate::time::{
    add_seconds, chrono_max_secs, chrono_min_secs, is_after, local_to_utc, max_delta_secs, now,
    naive_datetime_value, parse_naive_datetime, parse_utc_datetime, seconds_between,
    seconds_since, utc_datetime_parse, Timestamp,
};

verus! {

broadcast use vstd::string::group_string_axioms;

// ---------------------------------------------------------------------------
// Date-times
// ---------------------------------------------------------------------------

/// The text with every space replaced by `T`.
pub open spec fn spaces_to_t(s: Seq<char>) -> Seq<char> {
    s.map_values(|c: char| if c == ' ' { 'T' } else { c })
}

/// The first local format tried: `YYYY-MM-DDTHH:MM`.
pub open spec fn minutes_format() -> Seq<char> {
    "%Y-%m-%dT%H:%M"@
}

/// The second local format tried: `YYYY-MM-DDTHH:MM:SS`.
pub open spec fn seconds_format() -> Seq<char> {
    "%Y-%m-%dT%H:%M:%S"@
}

/// The message for a date-time text that no format accepts.
pub open spec fn invalid_datetime_message(s: Seq<char>) -> Seq<char> {
    "Invalid datetime: '"@ + s + "' (expected YYYY-MM-DD HH:MM or YYYY-MM-DDTHH:MM)"@
}

/// The message for a local time that the time zone makes ambiguous or skips.
pub open spec fn ambiguous_time_message(s: Seq<char>) -> Seq<char> {
    "Ambiguous local time: '"@ + s + "'"@
}

/// The local date and time that the text names (spaces read as `T`), as
/// `(timestamp, nanos)` read as if it were UTC: by the first local format that
/// accepts it.
pub open spec fn local_naive(s: Seq<char>) -> Option<(i64, u32)> {
    match naive_datetime_value(spaces_to_t(s), minutes_format()) {
        Some(v) => Some(v),
        None => naive_datetime_value(spaces_to_t(s), seconds_format()),
    }
}

/// The outcomes that `parse_datetime` may have for `s`: the UTC instant that
/// an RFC 3339 text names; otherwise, for a local date and time, an instant
/// less than a day away from it with the same fraction of a second (the
/// machine's time zone decides the offset), or the ambiguity error; otherwise
/// the invalid-datetime error.
pub open spec fn datetime_outcome(s: Seq<char>, r: Result<Timestamp, AppErrorView>) -> bool {
    match utc_datetime_parse(s) {
        Some((secs, nanos)) => r == Ok::<Timestamp, AppErrorView>(Timestamp { secs, nanos }),
        None => match local_naive(s) {
            Some((ns, nn)) => (r matches Ok(t) && t.in_range() && -86_400 < t.secs - ns < 86_400
                && t.nanos == nn) || r == Err::<Timestamp, AppErrorView>(
                AppErrorView::InvalidInput(ambiguous_time_message(s)),
            ),
            None => r == Err::<Timestamp, AppErrorView>(
                AppErrorView::InvalidInput(invalid_datetime_message(s)),
            ),
        },
    }
}

/// A result with its error taken by its view.
pub open spec fn result_view<T>(r: Result<T, AppError>) -> Result<T, AppErrorView> {
    match r {
        Ok(t) => Ok(t),
        Err(e) => Err(e@),
    }
}

fn replace_spaces(s: &str) -> (r: String)
    ensures
        r@ == spaces_to_t(s@),
{
    let cs = str_chars(s);
    let mut r = String::new();
    let mut i: usize = 0;
    while i < cs.len()
        invariant
            i <= cs.len(),
            cs@ == s@,
            r@ == spaces_to_t(cs@.take(i as int)),
        decreases cs.len() - i,
    {
        let c = cs[i];
        if c == ' ' {
            push_char(&mut r, 'T');
        } else {
            push_char(&mut r, c);
        }
        i = i + 1;
        assert(r@ =~= spaces_to_t(cs@.take(i as int)));
    }
    assert(cs@.take(cs.len() as int) =~= cs@);
    r
}

/// Reads a date-time argument: an RFC 3339 text (`2026-03-20T09:00:00Z`), or
/// a local date and time `YYYY-MM-DD HH:MM[:SS]` (with a space or a `T`)
/// taken in the machine's time zone.
pub fn parse_datetime(s: &str) -> (r: Result<Timestamp, AppError>)
    ensures
        datetime_outcome(s@, result_view(r)),
        r matches Ok(t) ==> t.in_range(),
{
    if let Some(t) = parse_utc_datetime(s) {
        return Ok(t);
    }
    let normalized = replace_spaces(s);
    let naive = match parse_naive_datetime(normalized.as_str(), "%Y-%m-%dT%H:%M") {
        Some(n) => n,
        None => match parse_naive_datetime(normalized.as_str(), "%Y-%m-%dT%H:%M:%S") {
            Some(n) => n,
            None => {
                let mut m = "Invalid datetime: '".to_string();
                m.append(s);
                m.append("' (expected YYYY-MM-DD HH:MM or YYYY-MM-DDTHH:MM)");
                return Err(AppError::InvalidInput(m));
            },
        },
    };
    match local_to_utc(naive) {
        Some(t) => Ok(t),
        None => {
            let mut m = "Ambiguous local time: '".to_string();
            m.append(s);
            m.append("'");
            Err(AppError::InvalidInput(m))
        },
    }
}

// ---------------------------------------------------------------------------
// Creating an entry
// ---------------------------------------------------------------------------

/// Whether chrono can move `start` by `d` seconds (`start + TimeDelta::seconds(d)`
/// neither overflows the span nor leaves the range of instants).
pub open spec fn shift_fits(start: Timestamp, d: int) -> bool {
    &&& -max_delta_secs() <= d <= max_delta_secs()
    &&& chrono_min_secs() <= start.secs + d <= chrono_max_secs()
}

/// The stop and duration of a new entry that starts at `start`, given the
/// stop instant or the duration.
pub open spec fn entry_times(start: Timestamp, stop: Option<Timestamp>, duration: Option<int>) -> Result<
    (Timestamp, int),
    Seq<char>,
> {
    match (stop, duration) {
        (Some(s), None) => {
            let d = seconds_between(s, start);
            if d <= 0 {
                Err("stop must be after start"@)
            } else {
                Ok((s, d))
            }
        },
        (None, Some(d)) => Ok((Timestamp { secs: (start.secs + d) as i64, nanos: start.nanos }, d)),
        (None, None) => Err("--stop or --duration is required for entries create"@),
        (Some(_), Some(_)) => Err("specify --stop or --duration, not both"@),
    }
}

/// The duration sent with a new entry is the time from its start to the
/// stop sent with it, in whole seconds: given a stop, by definition; given a
/// duration, because the stop is the start moved by it.
pub proof fn law_entry_times_agree(start: Timestamp, stop: Option<Timestamp>, duration: Option<int>)
    requires
        stop is None && duration is Some ==> shift_fits(start, duration->Some_0),
    ensures
        entry_times(start, stop, duration) matches Ok((s, d)) ==> seconds_between(s, start) == d,
{
    if let (None, Some(d)) = (stop, duration) {
        let s = Timestamp { secs: (start.secs + d) as i64, nanos: start.nanos };
        assert(s.total_nanos() - start.total_nanos() == d * 1_000_000_000) by (nonlinear_arith)
            requires
                s.secs == start.secs + d,
                s.nanos == start.nanos,
                s.total_nanos() == s.secs * 1_000_000_000 + s.nanos,
                start.total_nanos() == start.secs * 1_000_000_000 + start.nanos,
        ;
        if d >= 0 {
            assert((d * 1_000_000_000) / 1_000_000_000 == d) by (nonlinear_arith)
                requires
                    d >= 0,
            ;
        } else {
            assert((-(d * 1_000_000_000)) / 1_000_000_000 == -d) by (nonlinear_arith)
                requires
                    d < 0,
            ;
        }
    }
}

/// The tags given, or none.
pub open spec fn tags_or_empty(tags: Option<Vec<String>>) -> Seq<String> {
    match tags {
        Some(t) => t@,
        None => Seq::empty(),
    }
}

/// An optional task id, wrapped.
pub open spec fn task_of(task: Option<i64>) -> Option<TaskId> {
    match task {
        Some(t) => Some(TaskId(t)),
        None => None,
    }
}

/// The stop and duration of a new entry, once its start is known: the stop
/// given (which must come at least a second after the start) with the seconds
/// between them, or the duration given with the start moved by it.
pub fn plan_entry_times(start: Timestamp, stop: Option<Timestamp>, duration: Option<i64>) -> (r:
    Result<(Timestamp, i64), AppError>)
    requires
        start.in_range(),
        stop matches Some(s) ==> s.in_range(),
        stop is None && duration is Some ==> shift_fits(start, duration->Some_0 as int),
    ensures
        match entry_times(
            start,
            stop,
            match duration {
                Some(d) => Some(d as int),
                None => None,
            },
        ) {
            Ok((s, d)) => r matches Ok((s2, d2)) && s2 == s && d2 == d,
            Err(m) => r matches Err(e) && e@ == AppErrorView::InvalidInput(m),
        },
{
    match (stop, duration) {
        (Some(s), None) => {
            let d = seconds_since(s, start);
            if d <= 0 {
                Err(AppError::InvalidInput("stop must be after start".to_string()))
            } else {
                Ok((s, d))
            }
        },
        (None, Some(d)) => Ok((add_seconds(start, d), d)),
        (None, None) => Err(
            AppError::InvalidInput("--stop or --duration is required for entries create".to_string()),
        ),
        (Some(_), Some(_)) => Err(
            AppError::InvalidInput("specify --stop or --duration, not both".to_string()),
        ),
    }
}

/// Whether the start can be moved by `d` seconds.
fn shift_fits_exec(start: Timestamp, d: i64) -> (b: bool)
    ensures
        b == shift_fits(start, d as int),
{
    let lim: i64 = 9_223_372_036_854_775;
    if d > lim || d < -lim {
        return false;
    }
    let t: i128 = (start.secs as i128) + (d as i128);
    -8_334_601_228_800 <= t && t <= 8_210_266_876_799
}

/// The parameters of `entries create`.
///
/// The start is read first, then the stop (or the duration) that the command
/// was given; exactly one of the two is required. `None` where the duration
/// would move the stop outside the instants chrono represents.
pub fn create_entry_params(
    description: Option<String>,
    project: Option<i64>,
    task: Option<i64>,
    tags: Option<Vec<String>>,
    billable: bool,
    start_str: &str,
    stop_str: Option<String>,
    duration_str: Option<String>,
) -> (r: Option<Result<CreateTimeEntryParams, AppError>>)
    ensures
        r matches Some(Ok(p)) ==> {
            &&& p.description == description
            &&& p.project_id == project
            &&& p.task_id == task_of(task)
            &&& p.tags@ == tags_or_empty(tags)
            &&& p.billable == billable
            &&& p.start matches Some(st) && datetime_outcome(start_str@, Ok(st)) && st.in_range()
            &&& p.stop matches Some(sp) && sp.in_range()
            &&& p.stop is Some && p.duration is Some
            &&& (stop_str matches Some(s) ==> datetime_outcome(s@, Ok(p.stop->Some_0)))
            &&& entry_times(
                p.start->Some_0,
                match stop_str {
                    Some(_) => p.stop,
                    None => None,
                },
                match duration_str {
                    Some(d) => match duration_value(trim(d@)) {
                        Ok(v) => Some(v),
                        Err(_) => None,
                    },
                    None => None,
                },
            ) == Ok::<(Timestamp, int), Seq<char>>((p.stop->Some_0, p.duration->Some_0 as int))
        },
        r is None ==> stop_str is None && (duration_str matches Some(d) && duration_value(trim(d@))
            matches Ok(v) && exists|st: Timestamp|
            #![trigger datetime_outcome(start_str@, Ok(st))]
            datetime_outcome(start_str@, Ok(st)) && !shift_fits(st, v)),
        stop_str is Some && duration_str is Some ==> r matches Some(Err(_)),
        stop_str is None && duration_str is None ==> r matches Some(Err(_)),
        (utc_datetime_parse(start_str@) matches Some((secs, nanos)) && stop_str is None && (
        duration_str matches Some(d) && duration_value(trim(d@)) matches Ok(v) && shift_fits(
            Timestamp { secs, nanos },
            v,
        ))) ==> r matches Some(Ok(_)),
        (utc_datetime_parse(start_str@) matches Some((secs, nanos)) && duration_str is None && (
        stop_str matches Some(s) && utc_datetime_parse(s@) matches Some((s2, n2))
            && seconds_between(Timestamp { secs: s2, nanos: n2 }, Timestamp { secs, nanos })
            > 0)) ==> r matches Some(Ok(_)),
        (utc_datetime_parse(start_str@) matches Some((secs, nanos)) && duration_str is None && (
        stop_str matches Some(s) && utc_datetime_parse(s@) matches Some((s2, n2))
            && seconds_between(Timestamp { secs: s2, nanos: n2 }, Timestamp { secs, nanos })
            <= 0)) ==> (r matches Some(Err(e)) && e@ == AppErrorView::InvalidInput(
            "stop must be after start"@,
        )),
        r matches Some(Err(e)) ==> datetime_outcome(start_str@, Err(e@)) || (match (
            stop_str,
            duration_str,
        ) {
            (Some(_), Some(_)) => e@ == AppErrorView::InvalidInput(
                "specify --stop or --duration, not both"@,
            ),
            (None, None) => e@ == AppErrorView::InvalidInput(
                "--stop or --duration is required for entries create"@,
            ),
            (Some(s), None) => datetime_outcome(s@, Err(e@)) || e@ == AppErrorView::InvalidInput(
                "stop must be after start"@,
            ),
            (None, Some(d)) => match duration_value(trim(d@)) {
                Err(f) => e@ == AppErrorView::InvalidInput(duration_fault_message(f, trim(d@))),
                Ok(_) => false,
            },
        }),
{
    let start = match parse_datetime(start_str) {
        Ok(t) => t,
        Err(e) => return Some(Err(e)),
    };
    let times = match (&stop_str, &duration_str) {
        (Some(s), None) => {
            let stop = match parse_datetime(s.as_str()) {
                Ok(t) => t,
                Err(e) => return Some(Err(e)),
            };
            plan_entry_times(start, Some(stop), None)
        },
        (None, Some(d)) => {
            let dur = match parse_duration_str(d.as_str()) {
                Ok(v) => v,
                Err(e) => return Some(Err(e)),
            };
            if !shift_fits_exec(start, dur) {
                return None;
            }
            plan_entry_times(start, None, Some(dur))
        },
        (None, None) => plan_entry_times(start, None, None),
        (Some(_), Some(_)) => Err(
            AppError::InvalidInput("specify --stop or --duration, not both".to_string()),
        ),
    };
    let (stop, duration) = match times {
        Ok(t) => t,
        Err(e) => return Some(Err(e)),
    };
    let tags = match tags {
        Some(t) => t,
        None => Vec::new(),
    };
    let task_id = match task {
        Some(t) => Some(TaskId(t)),
        None => None,
    };
    Some(
        Ok(
            CreateTimeEntryParams {
                description,
                project_id: project,
                task_id,
                tags,
                billable,
                start: Some(start),
                stop: Some(stop),
                duration: Some(duration),
            },
        ),
    )
}

// ---------------------------------------------------------------------------
// Editing an entry
// ---------------------------------------------------------------------------

/// The parameters of `entries edit`: every field given, the start and stop
/// read as date-times and the duration as a duration, in that order. A stop
/// and a duration together are refused before anything is read.
pub fn edit_entry_params(
    description: Option<String>,
    project: Option<i64>,
    tags: Option<Vec<String>>,
    billable: Option<bool>,
    start_str: Option<String>,
    stop_str: Option<String>,
    duration_str: Option<String>,
) -> (r: Result<UpdateTimeEntryParams, AppError>)
    ensures
        stop_str is Some && duration_str is Some ==> (r matches Err(e) && e@
            == AppErrorView::InvalidInput("specify --stop or --duration, not both"@)),
        (!(stop_str is Some && duration_str is Some) && (start_str matches Some(s)
            ==> utc_datetime_parse(s@) is Some) && (stop_str matches Some(s) ==> utc_datetime_parse(
            s@,
        ) is Some) && (duration_str matches Some(d) ==> duration_value(trim(d@)) is Ok)) ==> r is Ok,
        r matches Ok(p) ==> {
            &&& p.description == description
            &&& p.project_id == project
            &&& p.tags == tags
            &&& p.billable == billable
            &&& (match start_str {
                Some(s) => p.start matches Some(t) && datetime_outcome(s@, Ok(t)),
                None => p.start is None,
            })
            &&& (match stop_str {
                Some(s) => p.stop matches Some(t) && datetime_outcome(s@, Ok(t)),
                None => p.stop is None,
            })
            &&& (match duration_str {
                Some(d) => p.duration matches Some(v) && duration_value(trim(d@)) == Ok::<
                    int,
                    DurationFault,
                >(v as int),
                None => p.duration is None,
            })
        },
        r matches Err(e) ==> (stop_str is Some && duration_str is Some) || (start_str matches Some(
            s,
        ) && datetime_outcome(s@, Err(e@))) || (stop_str matches Some(s) && datetime_outcome(
            s@,
            Err(e@),
        )) || (duration_str matches Some(d) && duration_value(trim(d@)) matches Err(f) && e@
            == AppErrorView::InvalidInput(duration_fault_message(f, trim(d@)))),
{
    if stop_str.is_some() && duration_str.is_some() {
        return Err(AppError::InvalidInput("specify --stop or --duration, not both".to_string()));
    }
    let start = match &start_str {
        Some(s) => Some(parse_datetime(s.as_str())?),
        None => None,
    };
    let stop = match &stop_str {
        Some(s) => Some(parse_datetime(s.as_str())?),
        None => None,
    };
    let duration = match &duration_str {
        Some(d) => Some(parse_duration_str(d.as_str())?),
        None => None,
    };
    Ok(
        UpdateTimeEntryParams {
            description,
            project_id: project,
            tags,
            billable,
            start,
            stop,
            duration,
        },
    )
}

// ---------------------------------------------------------------------------
// Listing entries
// ---------------------------------------------------------------------------

/// Whether `a` started strictly later than `b`.
pub open spec fn started_later(a: TimeEntry, b: TimeEntry) -> bool {
    !a.start.not_after(b.start)
}

/// `e` put into the newest-first list `t`: after every entry that started
/// no earlier than it, before the first that started earlier.
pub open spec fn insert_newest_first(t: Seq<TimeEntry>, e: TimeEntry) -> Seq<TimeEntry>
    decreases t.len(),
{
    if t.len() == 0 {
        seq![e]
    } else if started_later(e, t[0]) {
        seq![e] + t
    } else {
        seq![t[0]] + insert_newest_first(t.drop_first(), e)
    }
}

/// The entries newest first; entries that started at the same instant keep
/// their order (a stable sort on the start, descending).
pub open spec fn newest_first(s: Seq<TimeEntry>) -> Seq<TimeEntry>
    decreases s.len(),
{
    if s.len() == 0 {
        Seq::empty()
    } else {
        insert_newest_first(newest_first(s.drop_last()), s.last())
    }
}

/// The listing: newest first, cut to `count` entries when a count is given.
pub open spec fn listed_entries(s: Seq<TimeEntry>, count: Option<usize>) -> Seq<TimeEntry> {
    match count {
        Some(n) => if n < s.len() {
            newest_first(s).take(n as int)
        } else {
            newest_first(s)
        },
        None => newest_first(s),
    }
}

/// No entry of the list started later than one before it.
pub open spec fn is_newest_first(t: Seq<TimeEntry>) -> bool {
    forall|i: int, j: int| 0 <= i < j < t.len() ==> !started_later(#[trigger] t[j], #[trigger] t[i])
}

/// Inserting at the first entry that started earlier than `e`.
proof fn lemma_insert_at(t: Seq<TimeEntry>, e: TimeEntry, j: int)
    requires
        0 <= j <= t.len(),
        forall|k: int| 0 <= k < j ==> !started_later(e, #[trigger] t[k]),
        j < t.len() ==> started_later(e, t[j]),
    ensures
        insert_newest_first(t, e) == t.take(j).push(e) + t.skip(j),
    decreases t.len(),
{
    if t.len() == 0 {
        assert(t.take(j).push(e) + t.skip(j) =~= seq![e]);
    } else if j == 0 {
        assert(t.take(0).push(e) + t.skip(0) =~= seq![e] + t);
    } else {
        let u = t.drop_first();
        assert forall|k: int| 0 <= k < j - 1 implies !started_later(e, #[trigger] u[k]) by {
            assert(u[k] == t[k + 1]);
        }
        lemma_insert_at(u, e, j - 1);
        assert(seq![t[0]] + (u.take(j - 1).push(e) + u.skip(j - 1)) =~= t.take(j).push(e) + t.skip(
            j,
        ));
    }
}

/// Inserting keeps the list newest first and adds exactly `e`.
proof fn lemma_insert_keeps_order(t: Seq<TimeEntry>, e: TimeEntry)
    requires
        is_newest_first(t),
    ensures
        is_newest_first(insert_newest_first(t, e)),
        insert_newest_first(t, e).to_multiset() == t.to_multiset().insert(e),
    decreases t.len(),
{
    broadcast use vstd::seq_lib::group_to_multiset_ensures;

    let r = insert_newest_first(t, e);
    if t.len() == 0 {
        assert(r.to_multiset() =~= t.to_multiset().insert(e)) by {
            assert(r =~= Seq::<TimeEntry>::empty().push(e));
        }
    } else if started_later(e, t[0]) {
        assert forall|i: int, j: int| 0 <= i < j < r.len() implies !started_later(
            #[trigger] r[j],
            #[trigger] r[i],
        ) by {
            if i == 0 {
                assert(r[j] == t[j - 1]);
                if j - 1 > 0 {
                    assert(!started_later(t[j - 1], t[0]));
                }
            } else {
                assert(r[i] == t[i - 1] && r[j] == t[j - 1]);
            }
        }
        assert(r =~= t.insert(0, e));
        vstd::seq_lib::lemma_multiset_commutative(seq![e], t);
        assert(seq![e].to_multiset() =~= vstd::multiset::Multiset::<TimeEntry>::empty().insert(e)) by {
            assert(seq![e] =~= Seq::<TimeEntry>::empty().push(e));
        }
    } else {
        let u = t.drop_first();
        assert(is_newest_first(u)) by {
            assert forall|i: int, j: int| 0 <= i < j < u.len() implies !started_later(
                #[trigger] u[j],
                #[trigger] u[i],
            ) by {
                assert(u[i] == t[i + 1] && u[j] == t[j + 1]);
            }
        }
        lemma_insert_keeps_order(u, e);
        let ru = insert_newest_first(u, e);
        assert(r == seq![t[0]] + ru);
        assert forall|i: int, j: int| 0 <= i < j < r.len() implies !started_later(
            #[trigger] r[j],
            #[trigger] r[i],
        ) by {
            if i == 0 {
                assert(r[j] == ru[j - 1]);
                let x = ru[j - 1];
                assert(ru.contains(x));
                assert(ru.to_multiset().count(x) > 0);
                if x != e {
                    assert(u.to_multiset().count(x) > 0);
                    assert(u.contains(x));
                    let k = choose|k: int| 0 <= k < u.len() && u[k] == x;
                    assert(u[k] == t[k + 1]);
                }
            } else {
                assert(r[i] == ru[i - 1] && r[j] == ru[j - 1]);
            }
        }
        vstd::seq_lib::lemma_multiset_commutative(seq![t[0]], ru);
        vstd::seq_lib::lemma_multiset_commutative(seq![t[0]], u);
        assert(seq![t[0]] + u =~= t);
    }
}

/// The listing order is newest first and holds exactly the entries given.
pub proof fn law_listing_is_sorted_permutation(s: Seq<TimeEntry>)
    ensures
        is_newest_first(newest_first(s)),
        newest_first(s).to_multiset() == s.to_multiset(),
    decreases s.len(),
{
    broadcast use vstd::seq_lib::group_to_multiset_ensures;

    if s.len() > 0 {
        law_listing_is_sorted_permutation(s.drop_last());
        lemma_insert_keeps_order(newest_first(s.drop_last()), s.last());
        assert(s.drop_last().push(s.last()) =~= s);
    }
}

/// The entries of `s` that started at `tau`, in their order in `s`.
pub open spec fn started_at(s: Seq<TimeEntry>, tau: Timestamp) -> Seq<TimeEntry>
    decreases s.len(),
{
    if s.len() == 0 {
        Seq::empty()
    } else if s.last().start == tau {
        started_at(s.drop_last(), tau).push(s.last())
    } else {
        started_at(s.drop_last(), tau)
    }
}

/// Picking the entries that started at `tau` goes piece by piece.
proof fn lemma_started_at_concat(a: Seq<TimeEntry>, b: Seq<TimeEntry>, tau: Timestamp)
    ensures
        started_at(a + b, tau) == started_at(a, tau) + started_at(b, tau),
    decreases b.len(),
{
    if b.len() == 0 {
        assert(a + b =~= a);
        assert(started_at(a, tau) + started_at(b, tau) =~= started_at(a, tau));
    } else {
        lemma_started_at_concat(a, b.drop_last(), tau);
        assert((a + b).drop_last() =~= a + b.drop_last());
        assert((a + b).last() == b.last());
        if b.last().start == tau {
            assert(started_at(a, tau) + started_at(b.drop_last(), tau).push(b.last())
                =~= (started_at(a, tau) + started_at(b.drop_last(), tau)).push(b.last()));
        }
    }
}

/// A list in which no entry started at `tau` has none to pick.
proof fn lemma_started_at_none(t: Seq<TimeEntry>, tau: Timestamp)
    requires
        forall|k: int| 0 <= k < t.len() ==> #[trigger] t[k].start != tau,
    ensures
        started_at(t, tau) == Seq::<TimeEntry>::empty(),
    decreases t.len(),
{
    if t.len() > 0 {
        assert(t[t.len() - 1].start != tau);
        lemma_started_at_none(t.drop_last(), tau);
    }
}

/// Inserting `e` into a newest-first list puts it after every entry that
/// started at the same instant.
proof fn lemma_insert_keeps_ties(t: Seq<TimeEntry>, e: TimeEntry, tau: Timestamp)
    requires
        is_newest_first(t),
    ensures
        started_at(insert_newest_first(t, e), tau) == if e.start == tau {
            started_at(t, tau).push(e)
        } else {
            started_at(t, tau)
        },
    decreases t.len(),
{
    let single = seq![e];
    assert(started_at(single, tau) == if e.start == tau {
        seq![e]
    } else {
        Seq::<TimeEntry>::empty()
    }) by {
        assert(single.drop_last() =~= Seq::<TimeEntry>::empty());
        assert(started_at(single.drop_last(), tau) == Seq::<TimeEntry>::empty());
        assert(single.last() == e);
        assert(Seq::<TimeEntry>::empty().push(e) =~= seq![e]);
    }
    if t.len() == 0 {
        assert(insert_newest_first(t, e) == single);
        assert(started_at(t, tau) == Seq::<TimeEntry>::empty());
        assert(Seq::<TimeEntry>::empty().push(e) =~= seq![e]);
    } else if started_later(e, t[0]) {
        lemma_started_at_concat(single, t, tau);
        if e.start == tau {
            assert forall|k: int| 0 <= k < t.len() implies #[trigger] t[k].start != tau by {
                if k > 0 {
                    assert(!started_later(t[k], t[0]));
                }
            }
            lemma_started_at_none(t, tau);
            assert(seq![e] + Seq::<TimeEntry>::empty() =~= Seq::<TimeEntry>::empty().push(e));
        } else {
            assert(Seq::<TimeEntry>::empty() + started_at(t, tau) =~= started_at(t, tau));
        }
    } else {
        let u = t.drop_first();
        assert(is_newest_first(u)) by {
            assert forall|i: int, j: int| 0 <= i < j < u.len() implies !started_later(
                #[trigger] u[j],
                #[trigger] u[i],
            ) by {
                assert(u[i] == t[i + 1] && u[j] == t[j + 1]);
            }
        }
        lemma_insert_keeps_ties(u, e, tau);
        let head = seq![t[0]];
        assert(head + u =~= t);
        lemma_started_at_concat(head, u, tau);
        lemma_started_at_concat(head, insert_newest_first(u, e), tau);
        if e.start == tau {
            assert(started_at(head, tau) + started_at(u, tau).push(e) =~= (started_at(head, tau)
                + started_at(u, tau)).push(e));
        }
    }
}

/// The listing order is stable: for every instant, the entries that started
/// at it come out in the order in which they were given.
pub proof fn law_listing_is_stable(s: Seq<TimeEntry>, tau: Timestamp)
    ensures
        started_at(newest_first(s), tau) == started_at(s, tau),
    decreases s.len(),
{
    if s.len() > 0 {
        law_listing_is_stable(s.drop_last(), tau);
        law_listing_is_sorted_permutation(s.drop_last());
        lemma_insert_keeps_ties(newest_first(s.drop_last()), s.last(), tau);
    }
}

/// `entries list -n <count>` shows the most recent entries: as many as the
/// count allows, and no entry left out started later than one shown.
pub proof fn law_count_keeps_most_recent(s: Seq<TimeEntry>, n: usize)
    ensures
        listed_entries(s, Some(n)).len() == if n < s.len() {
            n as int
        } else {
            s.len() as int
        },
        forall|i: int, j: int|
            0 <= i < listed_entries(s, Some(n)).len() <= j < s.len() ==> !started_later(
                #[trigger] newest_first(s)[j],
                #[trigger] listed_entries(s, Some(n))[i],
            ),
{
    broadcast use vstd::seq_lib::group_to_multiset_ensures;

    law_listing_is_sorted_permutation(s);
    let t = newest_first(s);
    assert(t.len() == t.to_multiset().len());
    let l = listed_entries(s, Some(n));
    assert forall|i: int, j: int| 0 <= i < l.len() <= j < s.len() implies !started_later(
        #[trigger] t[j],
        #[trigger] l[i],
    ) by {
        assert(l[i] == t[i]);
    }
}

/// Puts the entries newest first (entries that started at the same instant
/// keep their order) and keeps the first `count` of them when a count is given.
pub fn order_entries(entries: Vec<TimeEntry>, count: Option<usize>) -> (r: Vec<TimeEntry>)
    ensures
        r@ == listed_entries(entries@, count),
{
    let ghost orig = entries@;
    let mut rest = entries;
    let mut out: Vec<TimeEntry> = Vec::new();
    let n: usize = rest.len();
    let mut i: usize = 0;
    while rest.len() > 0
        invariant
            orig.len() == n,
            i + rest@.len() == orig.len(),
            rest@ == orig.skip(i as int),
            out@ == newest_first(orig.take(i as int)),
        decreases rest.len(),
    {
        let e = rest.remove(0);
        let mut j: usize = 0;
        while j < out.len() && !is_after(&e.start, &out[j].start)
            invariant
                j <= out.len(),
                forall|k: int| 0 <= k < j ==> !started_later(e, #[trigger] out@[k]),
            decreases out.len() - j,
        {
            j = j + 1;
        }
        proof {
            lemma_insert_at(out@, e, j as int);
            assert(orig.take(i + 1).drop_last() =~= orig.take(i as int));
            assert(orig.take(i + 1).last() == e);
        }
        out.insert(j, e);
        assert(out@ =~= newest_first(orig.take(i + 1)));
        i = i + 1;
    }
    assert(orig.take(i as int) =~= orig);
    proof {
        broadcast use vstd::seq_lib::group_to_multiset_ensures;

        law_listing_is_sorted_permutation(orig);
        assert(out@.len() == out@.to_multiset().len());
    }
    match count {
        Some(c) => {
            out.truncate(c);
            assert(c >= orig.len() ==> out@ =~= newest_first(orig));
        },
        None => {},
    }
    out
}

/// The last project of the list with the id (later ones replace earlier ones).
pub open spec fn project_named(projects: Seq<Project>, pid: i64) -> Option<Project>
    decreases projects.len(),
{
    if projects.len() == 0 {
        None
    } else if projects.last().id.0 == pid {
        Some(projects.last())
    } else {
        project_named(projects.drop_last(), pid)
    }
}

/// The name of the last client of the list with the id.
pub open spec fn client_named(clients: Seq<Client>, cid: i64) -> Option<Seq<char>>
    decreases clients.len(),
{
    if clients.len() == 0 {
        None
    } else if clients.last().id.0 == cid {
        Some(clients.last().name@)
    } else {
        client_named(clients.drop_last(), cid)
    }
}

/// ` [client]` for a project whose client is known, else nothing.
pub open spec fn client_part(cid: Option<ClientId>, clients: Seq<Client>) -> Seq<char> {
    match cid {
        Some(c) => match client_named(clients, c.0) {
            Some(n) => " ["@ + n + "]"@,
            None => Seq::empty(),
        },
        None => Seq::empty(),
    }
}

/// ` (project[ [client]])` for an entry whose project is known, else nothing.
pub open spec fn project_info(pid: Option<i64>, projects: Seq<Project>, clients: Seq<Client>) -> Seq<
    char,
> {
    match pid {
        Some(p) => match project_named(projects, p) {
            Some(pr) => " ("@ + pr.name@ + client_part(pr.client_id, clients) + ")"@,
            None => Seq::empty(),
        },
        None => Seq::empty(),
    }
}

/// `#<id> <description> <HH:MM:SS>[ [running]][ (project[ [client]])][ [tags]]`:
/// one line of the text listing, as of `now`.
pub open spec fn list_line(
    e: TimeEntry,
    now: Timestamp,
    projects: Seq<Project>,
    clients: Seq<Client>,
) -> Seq<char> {
    seq!['#'] + dec_int(e.id.0 as int) + seq![' '] + description_text(e.description) + seq![' ']
        + hms_text(elapsed_seconds(e, now)) + running_marker(e) + project_info(
        e.project_id,
        projects,
        clients,
    ) + tags_text(e.tags@)
}

/// The index of the last project with the id.
fn find_project(projects: &Vec<Project>, pid: i64) -> (r: Option<usize>)
    ensures
        match project_named(projects@, pid) {
            Some(p) => r matches Some(i) && i < projects.len() && projects@[i as int] == p,
            None => r is None,
        },
{
    let mut i: usize = projects.len();
    assert(projects@.take(i as int) =~= projects@);
    while i > 0
        invariant
            i <= projects.len(),
            project_named(projects@, pid) == project_named(projects@.take(i as int), pid),
        decreases i,
    {
        let ghost t = projects@.take(i as int);
        assert(t.drop_last() =~= projects@.take(i - 1));
        if projects[i - 1].id.0 == pid {
            return Some(i - 1);
        }
        i = i - 1;
    }
    assert(projects@.take(0) =~= Seq::<Project>::empty());
    None
}

/// The index of the last client with the id.
pub(crate) fn find_client(clients: &Vec<Client>, cid: i64) -> (r: Option<usize>)
    ensures
        match client_named(clients@, cid) {
            Some(n) => r matches Some(i) && i < clients.len() && clients@[i as int].name@ == n,
            None => r is None,
        },
{
    let mut i: usize = clients.len();
    assert(clients@.take(i as int) =~= clients@);
    while i > 0
        invariant
            i <= clients.len(),
            client_named(clients@, cid) == client_named(clients@.take(i as int), cid),
        decreases i,
    {
        let ghost t = clients@.take(i as int);
        assert(t.drop_last() =~= clients@.take(i - 1));
        if clients[i - 1].id.0 == cid {
            return Some(i - 1);
        }
        i = i - 1;
    }
    assert(clients@.take(0) =~= Seq::<Client>::empty());
    None
}

/// Appends the project part of a listing line.
fn push_project_info(
    s: &mut String,
    project_id: Option<i64>,
    projects: &Vec<Project>,
    clients: &Vec<Client>,
)
    ensures
        final(s)@ == old(s)@ + project_info(project_id, projects@, clients@),
{
    match project_id {
        Some(pid) => match find_project(projects, pid) {
            Some(i) => {
                let p = &projects[i];
                s.append(" (");
                s.append(p.name.as_str());
                match p.client_id {
                    Some(c) => match find_client(clients, c.0) {
                        Some(k) => {
                            s.append(" [");
                            s.append(clients[k].name.as_str());
                            s.append("]");
                        },
                        None => {},
                    },
                    None => {},
                }
                s.append(")");
            },
            None => {},
        },
        None => {},
    }
    assert(s@ =~= old(s)@ + project_info(project_id, projects@, clients@));
}

/// One line of the text listing as of `now`: the entry as it is shown
/// alone, with the name of its project (and the project's client) between
/// the running marker and the tags. A project or client that is not in the
/// lists given is left out.
pub fn entry_list_line_at(
    e: &TimeEntry,
    projects: &Vec<Project>,
    clients: &Vec<Client>,
    now: Timestamp,
) -> (s: String)
    ensures
        s@ == list_line(*e, now, projects@, clients@),
{
    let mut s = String::new();
    push_char(&mut s, '#');
    push_dec_i64(&mut s, e.id.0);
    push_char(&mut s, ' ');
    match &e.description {
        Some(d) => s.append(d.as_str()),
        None => s.append("(no description)"),
    }
    push_char(&mut s, ' ');
    let d = e.display_duration_at(now);
    s.append(d.as_str());
    if e.is_running() {
        s.append(" [running]");
    }
    push_project_info(&mut s, e.project_id, projects, clients);
    if e.tags.len() > 0 {
        s.append(" [");
        push_joined(&mut s, &e.tags, ", ");
        s.append("]");
    }
    assert(s@ =~= list_line(*e, now, projects@, clients@));
    s
}

/// One line of the text listing, a running entry measured up to the current
/// instant.
pub fn entry_list_line(e: &TimeEntry, projects: &Vec<Project>, clients: &Vec<Client>) -> (s:
    String)
    ensures
        exists|t: Timestamp|
            t.in_range() && t.secs >= 0 && t.nanos < 1_000_000_000 && s@ == list_line(
                *e,
                t,
                projects@,
                clients@,
            ),
{
    let t = now();
    entry_list_line_at(e, projects, clients, t)
}

/// The workspaces of the entries, each once.
pub fn entry_workspaces(entries: &Vec<TimeEntry>) -> (r: Vec<WorkspaceId>)
    ensures
        r@.no_duplicates(),
        forall|w: WorkspaceId| #[trigger] r@.contains(w) <==> exists|i: int|
            0 <= i < entries.len() && #[trigger] entries@[i].workspace_id == w,
{
    let mut r: Vec<WorkspaceId> = Vec::new();
    let mut i: usize = 0;
    while i < entries.len()
        invariant
            i <= entries.len(),
            r@.no_duplicates(),
            forall|w: WorkspaceId| #[trigger] r@.contains(w) <==> exists|k: int|
                0 <= k < i && #[trigger] entries@[k].workspace_id == w,
        decreases entries.len() - i,
    {
        let w = entries[i].workspace_id;
        let mut j: usize = 0;
        let mut seen = false;
        while j < r.len()
            invariant
                j <= r.len(),
                seen <==> exists|k: int| 0 <= k < j && r@[k] == w,
            decreases r.len() - j,
        {
            if r[j].0 == w.0 {
                seen = true;
            }
            j = j + 1;
        }
        let ghost old_r = r@;
        if !seen {
            r.push(w);
            assert forall|x: WorkspaceId| #[trigger] r@.contains(x) <==> old_r.contains(x) || x == w by {
                if x == w {
                    assert(r@[old_r.len() as int] == w);
                }
                if old_r.contains(x) {
                    let k = choose|k: int| 0 <= k < old_r.len() && old_r[k] == x;
                    assert(r@[k] == x);
                }
                if r@.contains(x) {
                    let k = choose|k: int| 0 <= k < r@.len() && r@[k] == x;
                    if k < old_r.len() {
                        assert(old_r[k] == x);
                    }
                }
            }
        } else {
            let ghost k = choose|k: int| 0 <= k < j && r@[k] == w;
            assert(r@.contains(w));
        }
        assert forall|x: WorkspaceId| #[trigger] r@.contains(x) <==> exists|k: int|
            0 <= k < i + 1 && #[trigger] entries@[k].workspace_id == x by {
            if x == w {
                assert(entries@[i as int].workspace_id == x);
            }
        }
        i = i + 1;
    }
    r
}

} // verus!
