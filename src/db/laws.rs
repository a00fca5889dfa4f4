//! What holds across the repository's operations, stated over the views
//! and spec functions that the operations' own contracts use.
use vstd::prelude::*;
use crate::db::repository::{
    TableView, TaskFilter, apply_update, count_owned, created_row, find_task, has_task,
    lemma_newest_first_members, lemma_newest_first_sorted, newest_first, next_stamp, owns,
    table_wf, task_index, without_task, writable,
};
use crate::db::statement::{TaskColumn, lemma_set_columns_members, set_columns};
use crate::models::{CreateTask, Task, Timestamp, UpdateTask};

verus! {

/// In a well-formed table, a row rewritten in place under its own id is
/// what a lookup of that id then finds.
proof fn lemma_find_after_rewrite(v: TableView, id: i64, row: Task)
    requires
        table_wf(v),
        has_task(v.rows, id),
        row.id == id,
    ensures
        find_task(v.rows.update(task_index(v.rows, id), row), id) == Some(row),
{
    let idx = task_index(v.rows, id);
    let rows2 = v.rows.update(idx, row);
    assert(rows2[idx].id == id);
    assert(has_task(rows2, id));
    let j = task_index(rows2, id);
    if j != idx {
        assert(rows2[j] == v.rows[j]);
        if j < idx {
            assert(v.rows[j].id < v.rows[idx].id);
        } else {
            assert(v.rows[idx].id < v.rows[j].id);
        }
    }
}

/// Creating a task and then looking up the id it was given finds a row
/// whose title, description, status, priority, due date and owner are
/// those supplied, and whose two timestamps were both set by the table,
/// later than any earlier write.
pub proof fn law_create_then_find(v: TableView, c: CreateTask, now: Timestamp)
    requires
        table_wf(v),
        writable(v),
    ensures
        ({
            let row = created_row(v, c, now);
            &&& find_task(v.rows.push(row), row.id) == Some(row)
            &&& row.title == c.title
            &&& row.description == c.description
            &&& row.status == c.status
            &&& row.priority == c.priority
            &&& row.due_date == c.due_date
            &&& row.user_id == c.user_id
            &&& row.created_at == row.updated_at
            &&& row.created_at > v.clock
        }),
{
    let row = created_row(v, c, now);
    let rows2 = v.rows.push(row);
    let n = v.rows.len() as int;
    assert(rows2[n] == row);
    assert(has_task(rows2, row.id));
    let j = task_index(rows2, row.id);
    if j < n {
        assert(rows2[j] == v.rows[j]);
        assert(v.rows[j].id < v.next_id);
    }
}

/// An update with no field present leaves every column of the row as it
/// was but `updated_at`, which strictly increases.
pub proof fn law_empty_update(v: TableView, id: i64, u: UpdateTask, now: Timestamp)
    requires
        table_wf(v),
        v.clock < i64::MAX,
        has_task(v.rows, id),
        u.title is None,
        u.description is None,
        u.status is None,
        u.priority is None,
        u.due_date is None,
    ensures
        ({
            let before = find_task(v.rows, id)->0;
            let written = apply_update(before, u, next_stamp(v.clock, now));
            let after = v.rows.update(task_index(v.rows, id), written);
            &&& find_task(after, id) == Some(written)
            &&& written.id == before.id
            &&& written.title == before.title
            &&& written.description == before.description
            &&& written.status == before.status
            &&& written.priority == before.priority
            &&& written.due_date == before.due_date
            &&& written.user_id == before.user_id
            &&& written.created_at == before.created_at
            &&& written.updated_at > before.updated_at
        }),
{
    let idx = task_index(v.rows, id);
    let before = v.rows[idx];
    assert(before.updated_at <= v.clock);
    lemma_find_after_rewrite(v, id, apply_update(before, u, next_stamp(v.clock, now)));
}

/// An update that sets only the title changes the title and `updated_at`,
/// which strictly increases, and nothing else.
pub proof fn law_title_update(v: TableView, id: i64, u: UpdateTask, now: Timestamp)
    requires
        table_wf(v),
        v.clock < i64::MAX,
        has_task(v.rows, id),
        u.title is Some,
        u.description is None,
        u.status is None,
        u.priority is None,
        u.due_date is None,
    ensures
        ({
            let before = find_task(v.rows, id)->0;
            let written = apply_update(before, u, next_stamp(v.clock, now));
            let after = v.rows.update(task_index(v.rows, id), written);
            &&& find_task(after, id) == Some(written)
            &&& written.title == u.title->0
            &&& written.id == before.id
            &&& written.description == before.description
            &&& written.status == before.status
            &&& written.priority == before.priority
            &&& written.due_date == before.due_date
            &&& written.user_id == before.user_id
            &&& written.created_at == before.created_at
            &&& written.updated_at > before.updated_at
        }),
{
    let idx = task_index(v.rows, id);
    let before = v.rows[idx];
    assert(before.updated_at <= v.clock);
    lemma_find_after_rewrite(v, id, apply_update(before, u, next_stamp(v.clock, now)));
}

/// After a task is deleted, a lookup of its id finds nothing.
pub proof fn law_delete_then_find(v: TableView, id: i64)
    requires
        table_wf(v),
    ensures
        find_task(without_task(v.rows, id), id) is None,
{
    if has_task(v.rows, id) {
        let idx = task_index(v.rows, id);
        let rows2 = v.rows.remove(idx);
        if has_task(rows2, id) {
            let k = choose|k: int| 0 <= k < rows2.len() && #[trigger] rows2[k].id == id;
            if k < idx {
                assert(rows2[k] == v.rows[k]);
                assert(v.rows[k].id < v.rows[idx].id);
            } else {
                assert(rows2[k] == v.rows[k + 1]);
                assert(v.rows[idx].id < v.rows[k + 1].id);
            }
        }
    }
}

/// A user's listing is ordered by creation time, latest first.
pub proof fn law_listing_newest_first(v: TableView, user_id: i64)
    requires
        table_wf(v),
    ensures
        forall|i: int, j: int| 0 <= i < j < newest_first(v.rows, TaskFilter::Owner(user_id)).len()
            ==> #[trigger] newest_first(v.rows, TaskFilter::Owner(user_id))[i].created_at
                > #[trigger] newest_first(v.rows, TaskFilter::Owner(user_id))[j].created_at,
{
    lemma_newest_first_sorted(v.rows, TaskFilter::Owner(user_id));
}

/// A task belongs to a user exactly when the user's listing holds a task
/// with its id; for any other user, existing or not, the answer is no.
pub proof fn law_belongs_iff_listed(v: TableView, task_id: i64, user_id: i64)
    ensures
        owns(v.rows, task_id, user_id) <==> exists|k: int|
            0 <= k < newest_first(v.rows, TaskFilter::Owner(user_id)).len()
                && #[trigger] newest_first(v.rows, TaskFilter::Owner(user_id))[k].id == task_id,
{
    let f = TaskFilter::Owner(user_id);
    let listed = newest_first(v.rows, f);
    if owns(v.rows, task_id, user_id) {
        let i = choose|i: int| 0 <= i < v.rows.len() && #[trigger] v.rows[i].id == task_id && v.rows[i].user_id == user_id;
        let t = v.rows[i];
        assert(v.rows.contains(t));
        lemma_newest_first_members(v.rows, f, t);
        let k = choose|k: int| 0 <= k < listed.len() && listed[k] == t;
        assert(listed[k].id == task_id);
    }
    if exists|k: int| 0 <= k < listed.len() && #[trigger] listed[k].id == task_id {
        let k = choose|k: int| 0 <= k < listed.len() && #[trigger] listed[k].id == task_id;
        let t = listed[k];
        assert(listed.contains(t));
        lemma_newest_first_members(v.rows, f, t);
        let i = choose|i: int| 0 <= i < v.rows.len() && v.rows[i] == t;
        assert(v.rows[i].id == task_id && v.rows[i].user_id == user_id);
    }
}

/// A user's task count is the length of the user's listing.
pub proof fn law_count_is_listing_len(rows: Seq<Task>, user_id: i64)
    ensures
        count_owned(rows, user_id) == newest_first(rows, TaskFilter::Owner(user_id)).len(),
    decreases rows.len(),
{
    if rows.len() > 0 {
        law_count_is_listing_len(rows.drop_last(), user_id);
    }
}

/// The statement for an update names exactly the columns the update
/// changes: a set column takes the update's value, whatever it is, and a
/// column that is not set keeps the row's value.
pub proof fn law_statement_columns_are_changed_columns(t: Task, u: UpdateTask, stamp: Timestamp)
    ensures
        ({
            let w = apply_update(t, u, stamp);
            let cols = set_columns(u);
            &&& (cols.contains(TaskColumn::Title) ==> w.title == u.title->0)
            &&& (!cols.contains(TaskColumn::Title) ==> w.title == t.title)
            &&& (cols.contains(TaskColumn::Description) ==> w.description == u.description->0)
            &&& (!cols.contains(TaskColumn::Description) ==> w.description == t.description)
            &&& (cols.contains(TaskColumn::Status) ==> w.status == u.status->0)
            &&& (!cols.contains(TaskColumn::Status) ==> w.status == t.status)
            &&& (cols.contains(TaskColumn::Priority) ==> w.priority == u.priority->0)
            &&& (!cols.contains(TaskColumn::Priority) ==> w.priority == t.priority)
            &&& (cols.contains(TaskColumn::DueDate) ==> w.due_date == Some(u.due_date->0))
            &&& (!cols.contains(TaskColumn::DueDate) ==> w.due_date == t.due_date)
            &&& w.id == t.id && w.user_id == t.user_id && w.created_at == t.created_at
            &&& w.updated_at == stamp
        }),
{
    lemma_set_columns_members(u, TaskColumn::Title);
    lemma_set_columns_members(u, TaskColumn::Description);
    lemma_set_columns_members(u, TaskColumn::Status);
    lemma_set_columns_members(u, TaskColumn::Priority);
    lemma_set_columns_members(u, TaskColumn::DueDate);
}

} // verus!
