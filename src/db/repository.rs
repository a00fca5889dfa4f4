//! The task repository: create, read, update and delete over the rows of
//! the `tasks` table, specified over the table's view.
use vstd::prelude::*;
use vstd::string::StringExecFns;
use crate::db::outcome::delete_outcome;
use crate::error::{AppError, AppResult, is_task_not_found};
use crate::models::{CreateTask, Task, TaskPriority, TaskStatus, Timestamp, UpdateTask};

verus! {

/// Operations on the `tasks` table; holds no state of its own.
pub struct TaskRepository;

/// The rows of the `tasks` table, in order of insertion, with the id the
/// next insertion gets and the latest timestamp the table has assigned.
pub struct TaskTable {
    rows: Vec<Task>,
    next_id: i64,
    clock: Timestamp,
}

/// What a `TaskTable` holds, as mathematical values.
pub ghost struct TableView {
    pub rows: Seq<Task>,
    pub next_id: i64,
    pub clock: Timestamp,
}

impl View for TaskTable {
    type V = TableView;

    closed spec fn view(&self) -> TableView {
        TableView { rows: self.rows@, next_id: self.next_id, clock: self.clock }
    }
}

/// A table is well formed when ids are positive, below `next_id` and
/// increase with insertion order, creation times increase with insertion
/// order, and no timestamp lies after the clock.
pub open spec fn table_wf(v: TableView) -> bool {
    &&& v.next_id >= 1
    &&& v.rows.len() < v.next_id
    &&& forall|i: int| 0 <= i < v.rows.len() ==> 0 < #[trigger] v.rows[i].id < v.next_id
    &&& forall|i: int, j: int| 0 <= i < j < v.rows.len() ==> #[trigger] v.rows[i].id < #[trigger] v.rows[j].id
    &&& forall|i: int, j: int| 0 <= i < j < v.rows.len() ==> #[trigger] v.rows[i].created_at < #[trigger] v.rows[j].created_at
    &&& forall|i: int| 0 <= i < v.rows.len() ==> #[trigger] v.rows[i].created_at <= v.rows[i].updated_at <= v.clock
}

/// The table can take another write: an id and a timestamp remain.
pub open spec fn writable(v: TableView) -> bool {
    v.next_id < i64::MAX && v.clock < i64::MAX
}

/// Some row has id `id`.
pub open spec fn has_task(rows: Seq<Task>, id: i64) -> bool {
    exists|i: int| 0 <= i < rows.len() && #[trigger] rows[i].id == id
}

/// The position of the row with id `id` (meaningful where `has_task`).
pub open spec fn task_index(rows: Seq<Task>, id: i64) -> int {
    choose|i: int| 0 <= i < rows.len() && #[trigger] rows[i].id == id
}

/// The row with id `id`, if any.
pub open spec fn find_task(rows: Seq<Task>, id: i64) -> Option<Task> {
    if has_task(rows, id) {
        Some(rows[task_index(rows, id)])
    } else {
        None
    }
}

/// Task `task_id` exists and belongs to user `user_id`.
pub open spec fn owns(rows: Seq<Task>, task_id: i64, user_id: i64) -> bool {
    exists|i: int| 0 <= i < rows.len() && #[trigger] rows[i].id == task_id && rows[i].user_id == user_id
}

/// The timestamp the table assigns to a write at wall-clock time `now`:
/// `now` itself when it lies after every earlier write, else one second
/// after the latest one, so that the table's timestamps strictly increase.
pub open spec fn next_stamp(clock: Timestamp, now: Timestamp) -> Timestamp {
    if now > clock {
        now
    } else {
        (clock + 1) as i64
    }
}

/// The row that creating `c` at time `now` inserts into `v`.
pub open spec fn created_row(v: TableView, c: CreateTask, now: Timestamp) -> Task {
    let stamp = next_stamp(v.clock, now);
    Task {
        id: v.next_id,
        title: c.title,
        description: c.description,
        status: c.status,
        priority: c.priority,
        due_date: c.due_date,
        user_id: c.user_id,
        created_at: stamp,
        updated_at: stamp,
    }
}

/// Row `t` after update `u` stamped `stamp`: each present field overwrites
/// its column, `updated_at` becomes `stamp`, the rest is unchanged.
pub open spec fn apply_update(t: Task, u: UpdateTask, stamp: Timestamp) -> Task {
    Task {
        id: t.id,
        title: match u.title {
            Some(x) => x,
            None => t.title,
        },
        description: match u.description {
            Some(x) => x,
            None => t.description,
        },
        status: match u.status {
            Some(x) => x,
            None => t.status,
        },
        priority: match u.priority {
            Some(x) => x,
            None => t.priority,
        },
        due_date: match u.due_date {
            Some(x) => Some(x),
            None => t.due_date,
        },
        user_id: t.user_id,
        created_at: t.created_at,
        updated_at: stamp,
    }
}

/// The rows after deleting task `id` (unchanged where there is none).
pub open spec fn without_task(rows: Seq<Task>, id: i64) -> Seq<Task> {
    if has_task(rows, id) {
        rows.remove(task_index(rows, id))
    } else {
        rows
    }
}

/// Which of a user's tasks a listing selects.
#[derive(Clone, Copy, Debug, PartialEq, Eq, Structural)]
pub enum TaskFilter {
    /// All tasks of the user.
    Owner(i64),
    /// The user's tasks with the given status.
    OwnerStatus(i64, TaskStatus),
    /// The user's tasks with the given priority.
    OwnerPriority(i64, TaskPriority),
}

/// Filter `f` selects row `t`.
pub open spec fn selects(f: TaskFilter, t: Task) -> bool {
    match f {
        TaskFilter::Owner(u) => t.user_id == u,
        TaskFilter::OwnerStatus(u, s) => t.user_id == u && t.status == s,
        TaskFilter::OwnerPriority(u, p) => t.user_id == u && t.priority == p,
    }
}

/// The rows that `f` selects, latest insertion first.
pub open spec fn newest_first(rows: Seq<Task>, f: TaskFilter) -> Seq<Task>
    decreases rows.len(),
{
    if rows.len() == 0 {
        Seq::empty()
    } else {
        let rest = newest_first(rows.drop_last(), f);
        if selects(f, rows.last()) {
            seq![rows.last()] + rest
        } else {
            rest
        }
    }
}

/// The number of rows owned by user `user_id`.
pub open spec fn count_owned(rows: Seq<Task>, user_id: i64) -> nat
    decreases rows.len(),
{
    if rows.len() == 0 {
        0
    } else {
        count_owned(rows.drop_last(), user_id) + if rows.last().user_id == user_id {
            1nat
        } else {
            0nat
        }
    }
}

/// Under a well-formed table, the row with id `id` is the one at `i`.
proof fn lemma_task_index(v: TableView, id: i64, i: int)
    requires
        table_wf(v),
        0 <= i < v.rows.len(),
        v.rows[i].id == id,
    ensures
        has_task(v.rows, id),
        task_index(v.rows, id) == i,
        find_task(v.rows, id) == Some(v.rows[i]),
{
    assert(has_task(v.rows, id));
    let j = task_index(v.rows, id);
    if j < i {
        assert(v.rows[j].id < v.rows[i].id);
    } else if j > i {
        assert(v.rows[i].id < v.rows[j].id);
    }
}

/// Appending a row with the next id, created after every earlier write,
/// keeps a table well formed.
proof fn lemma_wf_push(v: TableView, row: Task, clock: Timestamp)
    requires
        table_wf(v),
        v.next_id < i64::MAX,
        row.id == v.next_id,
        v.clock < row.created_at,
        row.created_at <= row.updated_at <= clock,
    ensures
        table_wf(TableView { rows: v.rows.push(row), next_id: (v.next_id + 1) as i64, clock }),
{
    let rows = v.rows.push(row);
    let n = v.rows.len() as int;
    assert forall|i: int| 0 <= i < rows.len() implies 0 < #[trigger] rows[i].id < v.next_id + 1 by {
        if i < n {
            assert(rows[i] == v.rows[i]);
        }
    }
    assert forall|i: int, j: int| 0 <= i < j < rows.len() implies #[trigger] rows[i].id < #[trigger] rows[j].id by {
        assert(rows[i] == v.rows[i]);
        if j < n {
            assert(rows[j] == v.rows[j]);
        }
    }
    assert forall|i: int, j: int| 0 <= i < j < rows.len() implies #[trigger] rows[i].created_at
        < #[trigger] rows[j].created_at by {
        assert(rows[i] == v.rows[i]);
        assert(v.rows[i].created_at <= v.rows[i].updated_at <= v.clock);
        if j < n {
            assert(rows[j] == v.rows[j]);
        }
    }
    assert forall|i: int| 0 <= i < rows.len() implies #[trigger] rows[i].created_at <= rows[i].updated_at <= clock by {
        if i < n {
            assert(rows[i] == v.rows[i]);
            assert(v.rows[i].created_at <= v.rows[i].updated_at <= v.clock);
        }
    }
}

/// Rewriting a row in place, keeping its id and creation time and
/// stamping it no earlier than the clock, keeps a table well formed.
proof fn lemma_wf_rewrite(v: TableView, i: int, row: Task, clock: Timestamp)
    requires
        table_wf(v),
        0 <= i < v.rows.len(),
        row.id == v.rows[i].id,
        row.created_at == v.rows[i].created_at,
        row.updated_at == clock,
        v.clock < clock,
    ensures
        table_wf(TableView { rows: v.rows.update(i, row), next_id: v.next_id, clock }),
{
    let rows = v.rows.update(i, row);
    assert(v.rows[i].created_at <= v.rows[i].updated_at <= v.clock);
    assert forall|k: int| 0 <= k < rows.len() implies 0 < #[trigger] rows[k].id < v.next_id by {
        if k != i {
            assert(rows[k] == v.rows[k]);
        }
    }
    assert forall|k: int| 0 <= k < rows.len() implies #[trigger] rows[k].created_at <= rows[k].updated_at <= clock by {
        if k != i {
            assert(rows[k] == v.rows[k]);
            assert(v.rows[k].created_at <= v.rows[k].updated_at <= v.clock);
        }
    }
    assert forall|a: int, b: int| 0 <= a < b < rows.len() implies #[trigger] rows[a].id < #[trigger] rows[b].id by {
        assert(a != i ==> rows[a] == v.rows[a]);
        assert(b != i ==> rows[b] == v.rows[b]);
        assert(v.rows[a].id < v.rows[b].id);
    }
    assert forall|a: int, b: int| 0 <= a < b < rows.len() implies #[trigger] rows[a].created_at
        < #[trigger] rows[b].created_at by {
        assert(a != i ==> rows[a] == v.rows[a]);
        assert(b != i ==> rows[b] == v.rows[b]);
        assert(v.rows[a].created_at < v.rows[b].created_at);
    }
}

/// A listing holds exactly the rows that the filter selects.
pub proof fn lemma_newest_first_members(rows: Seq<Task>, f: TaskFilter, t: Task)
    ensures
        newest_first(rows, f).contains(t) <==> (rows.contains(t) && selects(f, t)),
    decreases rows.len(),
{
    if rows.len() > 0 {
        let init = rows.drop_last();
        lemma_newest_first_members(init, f, t);
        let rest = newest_first(init, f);
        assert(rows =~= init.push(rows.last()));
        if rows.contains(t) {
            let k = choose|k: int| 0 <= k < rows.len() && rows[k] == t;
            if k < rows.len() - 1 {
                assert(init[k] == t);
            }
        }
        if init.contains(t) {
            let k = choose|k: int| 0 <= k < init.len() && init[k] == t;
            assert(rows[k] == t);
        }
        if selects(f, rows.last()) {
            let s = seq![rows.last()] + rest;
            if rest.contains(t) {
                let k = choose|k: int| 0 <= k < rest.len() && rest[k] == t;
                assert(s[k + 1] == t);
            }
            if s.contains(t) {
                let k = choose|k: int| 0 <= k < s.len() && s[k] == t;
                if k > 0 {
                    assert(rest[k - 1] == t);
                }
            }
            assert(s[0] == rows.last());
        }
    }
}

/// Where creation times increase with insertion order, a listing is
/// ordered by creation time, latest first.
pub proof fn lemma_newest_first_sorted(rows: Seq<Task>, f: TaskFilter)
    requires
        forall|i: int, j: int| 0 <= i < j < rows.len() ==> #[trigger] rows[i].created_at < #[trigger] rows[j].created_at,
    ensures
        forall|i: int, j: int| 0 <= i < j < newest_first(rows, f).len()
            ==> #[trigger] newest_first(rows, f)[i].created_at > #[trigger] newest_first(rows, f)[j].created_at,
    decreases rows.len(),
{
    if rows.len() > 0 {
        let init = rows.drop_last();
        assert forall|i: int, j: int| 0 <= i < j < init.len() implies #[trigger] init[i].created_at < #[trigger] init[j].created_at by {
            assert(init[i] == rows[i] && init[j] == rows[j]);
        }
        lemma_newest_first_sorted(init, f);
        let rest = newest_first(init, f);
        if selects(f, rows.last()) {
            let s = seq![rows.last()] + rest;
            assert forall|i: int, j: int| 0 <= i < j < s.len() implies #[trigger] s[i].created_at > #[trigger] s[j].created_at by {
                if i == 0 {
                    lemma_newest_first_members(init, f, s[j]);
                    assert(rest[j - 1] == s[j]);
                    assert(rest.contains(s[j]));
                    let k = choose|k: int| 0 <= k < init.len() && init[k] == s[j];
                    assert(rows[k] == init[k]);
                    assert(rows[k].created_at < rows[rows.len() - 1].created_at);
                } else {
                    assert(s[i] == rest[i - 1] && s[j] == rest[j - 1]);
                }
            }
        }
    }
}

impl TaskFilter {
    /// Whether this filter selects `t`.
    pub fn matches(&self, t: &Task) -> (r: bool)
        ensures
            r == selects(*self, *t),
    {
        match self {
            TaskFilter::Owner(u) => t.user_id == *u,
            TaskFilter::OwnerStatus(u, s) => t.user_id == *u && t.status == *s,
            TaskFilter::OwnerPriority(u, p) => t.user_id == *u && t.priority == *p,
        }
    }
}

impl TaskTable {
    /// An empty table whose first row will get id 1.
    pub fn new() -> (r: TaskTable)
        ensures
            table_wf(r@),
            r@.rows.len() == 0,
            r@.next_id == 1,
            r@.clock == 0,
    {
        TaskTable { rows: Vec::new(), next_id: 1, clock: 0 }
    }

    /// Number of rows.
    pub fn len(&self) -> (r: usize)
        ensures
            r == self@.rows.len(),
    {
        self.rows.len()
    }

    /// Position of the row with id `id`, if any.
    fn position(&self, id: i64) -> (r: Option<usize>)
        ensures
            match r {
                Some(i) => i < self@.rows.len() && self@.rows[i as int].id == id,
                None => !has_task(self@.rows, id),
            },
    {
        let mut i: usize = 0;
        while i < self.rows.len()
            invariant
                i <= self.rows@.len(),
                forall|k: int| 0 <= k < i ==> self.rows@[k].id != id,
            decreases self.rows@.len() - i,
        {
            if self.rows[i].id == id {
                return Some(i);
            }
            i = i + 1;
        }
        None
    }

    /// The timestamp of a write made at wall-clock time `now`.
    fn stamp(&self, now: Timestamp) -> (r: Timestamp)
        requires
            self@.clock < i64::MAX,
        ensures
            r == next_stamp(self@.clock, now),
    {
        if now > self.clock {
            now
        } else {
            self.clock + 1
        }
    }

    /// Removes the row with id `id`, returning how many rows went.
    fn delete_rows(&mut self, id: i64) -> (n: usize)
        requires
            table_wf(old(self)@),
        ensures
            table_wf(final(self)@),
            final(self)@.rows == without_task(old(self)@.rows, id),
            final(self)@.next_id == old(self)@.next_id,
            final(self)@.clock == old(self)@.clock,
            n == (if has_task(old(self)@.rows, id) { 1usize } else { 0usize }),
    {
        match self.position(id) {
            Some(i) => {
                proof {
                    lemma_task_index(self@, id, i as int);
                }
                self.rows.remove(i);
                1
            },
            None => 0,
        }
    }
}

impl TaskRepository {
    /// Inserts a task stamped at time `now` and returns the stored row,
    /// with its new id and timestamps.
    pub fn create(table: &mut TaskTable, task: CreateTask, now: Timestamp) -> (r: AppResult<Task>)
        requires
            table_wf(old(table)@),
        ensures
            table_wf(final(table)@),
            writable(old(table)@) ==> {
                &&& final(table)@.rows == old(table)@.rows.push(created_row(old(table)@, task, now))
                &&& final(table)@.next_id == old(table)@.next_id + 1
                &&& final(table)@.clock == next_stamp(old(table)@.clock, now)
                &&& r == Ok::<Task, AppError>(created_row(old(table)@, task, now))
            },
            !writable(old(table)@) ==> final(table)@ == old(table)@ && r is Err && r->Err_0 is Database,
    {
        if table.next_id == i64::MAX || table.clock == i64::MAX {
            return Err(AppError::Database(String::from_str("the table has no ids or timestamps left")));
        }
        let stamp = table.stamp(now);
        let row = Task {
            id: table.next_id,
            title: task.title,
            description: task.description,
            status: task.status,
            priority: task.priority,
            due_date: task.due_date,
            user_id: task.user_id,
            created_at: stamp,
            updated_at: stamp,
        };
        let out = row.duplicate();
        let ghost before = table@;
        table.rows.push(row);
        table.next_id = table.next_id + 1;
        table.clock = stamp;
        proof {
            lemma_wf_push(before, out, stamp);
            assert(table@.rows =~= before.rows.push(out));
        }
        Ok(out)
    }

    /// The task with id `id`, or `TaskNotFound(id)`.
    pub fn find_by_id(table: &TaskTable, id: i64) -> (r: AppResult<Task>)
        requires
            table_wf(table@),
        ensures
            match find_task(table@.rows, id) {
                Some(t) => r == Ok::<Task, AppError>(t),
                None => r is Err && is_task_not_found(r->Err_0, id),
            },
    {
        match table.position(id) {
            Some(i) => {
                proof {
                    lemma_task_index(table@, id, i as int);
                }
                Ok(table.rows[i].duplicate())
            },
            None => Err(AppError::TaskNotFound(id)),
        }
    }

    /// The rows that `filter` selects, latest insertion first.
    pub fn list(table: &TaskTable, filter: TaskFilter) -> (r: Vec<Task>)
        ensures
            r@ == newest_first(table@.rows, filter),
    {
        let mut out: Vec<Task> = Vec::new();
        let mut i: usize = 0;
        while i < table.rows.len()
            invariant
                i <= table.rows@.len(),
                out@ == newest_first(table.rows@.subrange(0, i as int), filter),
            decreases table.rows@.len() - i,
        {
            let ghost prev = out@;
            assert(table.rows@.subrange(0, i + 1).drop_last() =~= table.rows@.subrange(0, i as int));
            if filter.matches(&table.rows[i]) {
                out.insert(0, table.rows[i].duplicate());
                assert(out@ =~= seq![table.rows@[i as int]] + prev);
            }
            i = i + 1;
        }
        assert(table.rows@.subrange(0, table.rows@.len() as int) =~= table.rows@);
        out
    }

    /// All tasks of user `user_id`, newest first; empty when there are none.
    pub fn find_by_user(table: &TaskTable, user_id: i64) -> (r: AppResult<Vec<Task>>)
        ensures
            r is Ok,
            r->Ok_0@ == newest_first(table@.rows, TaskFilter::Owner(user_id)),
    {
        Ok(Self::list(table, TaskFilter::Owner(user_id)))
    }

    /// The tasks of user `user_id` with status `status`, newest first.
    pub fn find_by_user_and_status(table: &TaskTable, user_id: i64, status: TaskStatus) -> (r: AppResult<Vec<Task>>)
        ensures
            r is Ok,
            r->Ok_0@ == newest_first(table@.rows, TaskFilter::OwnerStatus(user_id, status)),
    {
        Ok(Self::list(table, TaskFilter::OwnerStatus(user_id, status)))
    }

    /// The tasks of user `user_id` with priority `priority`, newest first.
    pub fn find_by_user_and_priority(table: &TaskTable, user_id: i64, priority: TaskPriority) -> (r: AppResult<Vec<Task>>)
        ensures
            r is Ok,
            r->Ok_0@ == newest_first(table@.rows, TaskFilter::OwnerPriority(user_id, priority)),
    {
        Ok(Self::list(table, TaskFilter::OwnerPriority(user_id, priority)))
    }

    /// Applies the fields present in `task` to task `id`, stamps the write
    /// at time `now` (always, even when no field is present) and returns
    /// the updated row; `TaskNotFound(id)` and no change where there is no
    /// such task.
    pub fn update(table: &mut TaskTable, id: i64, task: UpdateTask, now: Timestamp) -> (r: AppResult<Task>)
        requires
            table_wf(old(table)@),
        ensures
            table_wf(final(table)@),
            match find_task(old(table)@.rows, id) {
                Some(_) if old(table)@.clock == i64::MAX => final(table)@ == old(table)@ && r is Err
                    && r->Err_0 is Database,
                Some(t) => {
                    let stamp = next_stamp(old(table)@.clock, now);
                    let new_row = apply_update(t, task, stamp);
                    &&& final(table)@.rows == old(table)@.rows.update(task_index(old(table)@.rows, id), new_row)
                    &&& final(table)@.next_id == old(table)@.next_id
                    &&& final(table)@.clock == stamp
                    &&& r == Ok::<Task, AppError>(new_row)
                },
                None => final(table)@ == old(table)@ && r is Err && is_task_not_found(r->Err_0, id),
            },
    {
        match table.position(id) {
            None => Err(AppError::TaskNotFound(id)),
            Some(i) => {
                proof {
                    lemma_task_index(table@, id, i as int);
                }
                if table.clock == i64::MAX {
                    return Err(AppError::Database(String::from_str("the table has no timestamps left")));
                }
                let ghost before = table@;
                let stamp = table.stamp(now);
                assert(stamp > before.clock);
                let mut row = table.rows.remove(i);
                match task.title {
                    Some(x) => {
                        row.title = x;
                    },
                    None => {},
                }
                match task.description {
                    Some(x) => {
                        row.description = x;
                    },
                    None => {},
                }
                match task.status {
                    Some(x) => {
                        row.status = x;
                    },
                    None => {},
                }
                match task.priority {
                    Some(x) => {
                        row.priority = x;
                    },
                    None => {},
                }
                match task.due_date {
                    Some(x) => {
                        row.due_date = Some(x);
                    },
                    None => {},
                }
                row.updated_at = stamp;
                let out = row.duplicate();
                table.rows.insert(i, row);
                table.clock = stamp;
                assert(table@.rows =~= before.rows.update(i as int, out));
                proof {
                    lemma_wf_rewrite(before, i as int, out, stamp);
                }
                Ok(out)
            },
        }
    }

    /// Deletes task `id`; `TaskNotFound(id)` where no row was removed.
    pub fn delete(table: &mut TaskTable, id: i64) -> (r: AppResult<()>)
        requires
            table_wf(old(table)@),
        ensures
            table_wf(final(table)@),
            final(table)@.rows == without_task(old(table)@.rows, id),
            final(table)@.next_id == old(table)@.next_id,
            final(table)@.clock == old(table)@.clock,
            has_task(old(table)@.rows, id) ==> r is Ok,
            !has_task(old(table)@.rows, id) ==> r is Err && is_task_not_found(r->Err_0, id),
    {
        let removed = table.delete_rows(id);
        delete_outcome(removed as u64, id)
    }

    /// Number of tasks of user `user_id`.
    pub fn count_by_user(table: &TaskTable, user_id: i64) -> (r: AppResult<i64>)
        requires
            table_wf(table@),
        ensures
            r == Ok::<i64, AppError>(count_owned(table@.rows, user_id) as i64),
    {
        let mut c: i64 = 0;
        let mut i: usize = 0;
        while i < table.rows.len()
            invariant
                table_wf(table@),
                i <= table.rows@.len(),
                c <= i,
                c == count_owned(table.rows@.subrange(0, i as int), user_id),
            decreases table.rows@.len() - i,
        {
            assert(table.rows@.subrange(0, i + 1).drop_last() =~= table.rows@.subrange(0, i as int));
            if table.rows[i].user_id == user_id {
                c = c + 1;
            }
            i = i + 1;
        }
        assert(table.rows@.subrange(0, table.rows@.len() as int) =~= table.rows@);
        Ok(c)
    }

    /// Whether task `task_id` exists and belongs to user `user_id`; never
    /// a not-found error.
    pub fn belongs_to_user(table: &TaskTable, task_id: i64, user_id: i64) -> (r: AppResult<bool>)
        ensures
            r == Ok::<bool, AppError>(owns(table@.rows, task_id, user_id)),
    {
        let mut found: usize = 0;
        let mut i: usize = 0;
        while i < table.rows.len()
            invariant
                i <= table.rows@.len(),
                (found > 0) == (exists|k: int| 0 <= k < i && #[trigger] table.rows@[k].id == task_id && table.rows@[k].user_id == user_id),
                found <= i,
            decreases table.rows@.len() - i,
        {
            if table.rows[i].id == task_id && table.rows[i].user_id == user_id {
                found = found + 1;
            }
            i = i + 1;
        }
        Ok(found > 0)
    }
}

} // verus!
