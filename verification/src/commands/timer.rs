//! The rules of `timer start` and `timer stop`.

use vstd::prelude::*;

use crate::api::client::CreateTimeEntryParams;
use crate::error::{AppError, AppErrorView};
use crate::models::{TaskId, TimeEntry, TimeEntryId, WorkspaceId};

verus! {

broadcast use vstd::string::group_string_axioms;

/// The parameters of a new running timer: the given fields, no tags when none
/// are given, and no start, stop or duration (it starts now and runs).
pub fn timer_start_params(
    description: Option<String>,
    project: Option<i64>,
    task: Option<TaskId>,
    tags: Option<Vec<String>>,
    billable: bool,
) -> (p: CreateTimeEntryParams)
    ensures
        p.description == description,
        p.project_id == project,
        p.task_id == task,
        p.tags@ == (match tags {
            Some(t) => t@,
            None => Seq::empty(),
        }),
        p.billable == billable,
        p.start is None,
        p.stop is None,
        p.duration is None,
{
    let tags = match tags {
        Some(t) => t,
        None => Vec::new(),
    };
    CreateTimeEntryParams {
        description,
        project_id: project,
        task_id: task,
        tags,
        billable,
        start: None,
        stop: None,
        duration: None,
    }
}

/// Which entry `timer stop` stops, and in which workspace: the running entry,
/// in the workspace given on the command line or else in its own; with no
/// running entry, `NotFound("No running timer")`.
pub fn plan_stop(current: &Option<TimeEntry>, workspace: Option<i64>) -> (r: Result<
    (WorkspaceId, TimeEntryId),
    AppError,
>)
    ensures
        r is Ok <==> current is Some,
        r matches Ok((w, id)) ==> id == current->Some_0.id && w == (match workspace {
            Some(o) => WorkspaceId(o),
            None => current->Some_0.workspace_id,
        }),
        r matches Err(e) ==> e@ == AppErrorView::NotFound("No running timer"@),
{
    match current {
        None => Err(AppError::NotFound("No running timer".to_string())),
        Some(entry) => {
            let w = match workspace {
                Some(o) => WorkspaceId(o),
                None => entry.workspace_id,
            };
            Ok((w, entry.id))
        },
    }
}

} // verus!
