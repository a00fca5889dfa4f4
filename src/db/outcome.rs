//! How the results a store returns become repository results: a missing
//! row becomes the not-found error of its id, a delete that removed no row
//! likewise, and an ownership count becomes a yes or no.
use vstd::prelude::*;
use crate::error::{AppError, AppResult, is_task_not_found};
use crate::models::Task;

verus! {

/// The row a lookup of task `id` returned, or `TaskNotFound(id)` when it
/// returned none.
pub fn found_or_not_found(row: Option<Task>, id: i64) -> (r: AppResult<Task>)
    ensures
        match row {
            Some(t) => r == Ok::<Task, AppError>(t),
            None => r is Err && is_task_not_found(r->Err_0, id),
        },
{
    match row {
        Some(t) => Ok(t),
        None => Err(AppError::TaskNotFound(id)),
    }
}

/// The outcome of deleting task `id` from the number of rows the delete
/// removed: `TaskNotFound(id)` when it removed none.
pub fn delete_outcome(rows_affected: u64, id: i64) -> (r: AppResult<()>)
    ensures
        rows_affected > 0 ==> r is Ok,
        rows_affected == 0 ==> r is Err && is_task_not_found(r->Err_0, id),
{
    if rows_affected == 0 {
        return Err(AppError::TaskNotFound(id));
    }
    Ok(())
}

/// Whether a task belongs to a user, from the number of rows that have
/// both its id and the user's id.
pub fn owned_from_count(count: i64) -> (r: bool)
    ensures
        r == (count > 0),
{
    count > 0
}

} // verus!
