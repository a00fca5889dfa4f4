//! The partial-update statement: one `column = ?` assignment per field
//! present in an update, in a fixed column order, then the timestamp
//! refresh and the row selection.
use vstd::prelude::*;
use vstd::string::StringExecFns;
use crate::models::UpdateTask;

verus! {

/// A column of `tasks` that an update may overwrite.
#[derive(Clone, Copy, Debug, PartialEq, Eq, Structural)]
pub enum TaskColumn {
    Title,
    Description,
    Status,
    Priority,
    DueDate,
}

/// The name of a column in the schema.
pub open spec fn column_text(c: TaskColumn) -> Seq<char> {
    match c {
        TaskColumn::Title => "title"@,
        TaskColumn::Description => "description"@,
        TaskColumn::Status => "status"@,
        TaskColumn::Priority => "priority"@,
        TaskColumn::DueDate => "due_date"@,
    }
}

/// `c` when `present`, else nothing.
pub open spec fn column_if(present: bool, c: TaskColumn) -> Seq<TaskColumn> {
    if present {
        seq![c]
    } else {
        Seq::empty()
    }
}

/// The columns that `u` overwrites, in schema order: a column is set
/// exactly when its field is present, whatever the field's value.
pub open spec fn set_columns(u: UpdateTask) -> Seq<TaskColumn> {
    column_if(u.title is Some, TaskColumn::Title) + column_if(u.description is Some, TaskColumn::Description)
        + column_if(u.status is Some, TaskColumn::Status) + column_if(u.priority is Some, TaskColumn::Priority)
        + column_if(u.due_date is Some, TaskColumn::DueDate)
}

/// `c1 = ?, c2 = ?, ` for the columns `cols`, each clause followed by a
/// comma.
pub open spec fn assignments(cols: Seq<TaskColumn>) -> Seq<char>
    decreases cols.len(),
{
    if cols.len() == 0 {
        Seq::empty()
    } else {
        assignments(cols.drop_last()) + column_text(cols.last()) + " = ?, "@
    }
}

/// The statement that applies `u`: the assignments of the set columns,
/// then `updated_at` refreshed to the store's current time, for the row
/// whose id is bound last.
pub open spec fn update_sql_text(u: UpdateTask) -> Seq<char> {
    "UPDATE tasks SET "@ + assignments(set_columns(u)) + "updated_at = datetime('now') WHERE id = ?"@
}

/// Field `c` of `u` is present.
pub open spec fn column_present(u: UpdateTask, c: TaskColumn) -> bool {
    match c {
        TaskColumn::Title => u.title is Some,
        TaskColumn::Description => u.description is Some,
        TaskColumn::Status => u.status is Some,
        TaskColumn::Priority => u.priority is Some,
        TaskColumn::DueDate => u.due_date is Some,
    }
}

/// An element of a concatenation lies in one of its two parts.
proof fn lemma_concat_contains(a: Seq<TaskColumn>, b: Seq<TaskColumn>, x: TaskColumn)
    ensures
        (a + b).contains(x) <==> (a.contains(x) || b.contains(x)),
{
    let s = a + b;
    if s.contains(x) {
        let k = choose|k: int| 0 <= k < s.len() && s[k] == x;
        if k < a.len() {
            assert(a[k] == x);
        } else {
            assert(b[k - a.len()] == x);
        }
    }
    if a.contains(x) {
        let k = choose|k: int| 0 <= k < a.len() && a[k] == x;
        assert(s[k] == x);
    }
    if b.contains(x) {
        let k = choose|k: int| 0 <= k < b.len() && b[k] == x;
        assert(s[k + a.len()] == x);
    }
}

/// `column_if(p, c)` holds `x` exactly when `p` holds and `x` is `c`.
proof fn lemma_column_if_contains(p: bool, c: TaskColumn, x: TaskColumn)
    ensures
        column_if(p, c).contains(x) <==> (p && x == c),
{
    if p {
        assert(column_if(p, c)[0] == c);
    }
}

/// An update sets a column exactly when its field is present.
pub proof fn lemma_set_columns_members(u: UpdateTask, c: TaskColumn)
    ensures
        set_columns(u).contains(c) <==> column_present(u, c),
{
    let p1 = column_if(u.title is Some, TaskColumn::Title);
    let p2 = column_if(u.description is Some, TaskColumn::Description);
    let p3 = column_if(u.status is Some, TaskColumn::Status);
    let p4 = column_if(u.priority is Some, TaskColumn::Priority);
    let p5 = column_if(u.due_date is Some, TaskColumn::DueDate);
    lemma_column_if_contains(u.title is Some, TaskColumn::Title, c);
    lemma_column_if_contains(u.description is Some, TaskColumn::Description, c);
    lemma_column_if_contains(u.status is Some, TaskColumn::Status, c);
    lemma_column_if_contains(u.priority is Some, TaskColumn::Priority, c);
    lemma_column_if_contains(u.due_date is Some, TaskColumn::DueDate, c);
    lemma_concat_contains(p1, p2, c);
    lemma_concat_contains(p1 + p2, p3, c);
    lemma_concat_contains(p1 + p2 + p3, p4, c);
    lemma_concat_contains(p1 + p2 + p3 + p4, p5, c);
}

impl TaskColumn {
    /// The name of this column in the schema.
    pub fn name(&self) -> (r: &'static str)
        ensures
            r@ == column_text(*self),
    {
        match self {
            TaskColumn::Title => "title",
            TaskColumn::Description => "description",
            TaskColumn::Status => "status",
            TaskColumn::Priority => "priority",
            TaskColumn::DueDate => "due_date",
        }
    }
}

impl UpdateTask {
    /// The columns this update overwrites, in schema order.
    pub fn set_columns(&self) -> (r: Vec<TaskColumn>)
        ensures
            r@ == set_columns(*self),
    {
        let mut cols: Vec<TaskColumn> = Vec::new();
        if self.title.is_some() {
            cols.push(TaskColumn::Title);
        }
        assert(cols@ =~= column_if(self.title is Some, TaskColumn::Title));
        let ghost a = cols@;
        if self.description.is_some() {
            cols.push(TaskColumn::Description);
        }
        assert(cols@ =~= a + column_if(self.description is Some, TaskColumn::Description));
        let ghost b = cols@;
        if self.status.is_some() {
            cols.push(TaskColumn::Status);
        }
        assert(cols@ =~= b + column_if(self.status is Some, TaskColumn::Status));
        let ghost c = cols@;
        if self.priority.is_some() {
            cols.push(TaskColumn::Priority);
        }
        assert(cols@ =~= c + column_if(self.priority is Some, TaskColumn::Priority));
        let ghost d = cols@;
        if self.due_date.is_some() {
            cols.push(TaskColumn::DueDate);
        }
        assert(cols@ =~= d + column_if(self.due_date is Some, TaskColumn::DueDate));
        cols
    }
}

/// The SQL text of the statement that applies `u`; the values to bind are
/// those of the set columns in order, then the row's id.
pub fn update_sql(u: &UpdateTask) -> (r: String)
    ensures
        r@ == update_sql_text(*u),
{
    let cols = u.set_columns();
    let mut sql = String::from_str("UPDATE tasks SET ");
    let mut i: usize = 0;
    while i < cols.len()
        invariant
            i <= cols@.len(),
            cols@ == set_columns(*u),
            sql@ == "UPDATE tasks SET "@ + assignments(cols@.subrange(0, i as int)),
        decreases cols@.len() - i,
    {
        assert(cols@.subrange(0, i + 1).drop_last() =~= cols@.subrange(0, i as int));
        let name = cols[i].name();
        sql.append(name);
        sql.append(" = ?, ");
        assert(sql@ =~= "UPDATE tasks SET "@ + assignments(cols@.subrange(0, i + 1)));
        i = i + 1;
    }
    assert(cols@.subrange(0, cols@.len() as int) =~= cols@);
    sql.append("updated_at = datetime('now') WHERE id = ?");
    sql
}

} // verus!
