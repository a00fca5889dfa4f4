//! Tasks: the status and priority enumerations with their stored text, the
//! task row and its create and update projections.
use vstd::prelude::*;
use vstd::string::{StrSliceExecFns, StringExecFns};
use crate::constants::{MAX_DESCRIPTION_LENGTH, MAX_TITLE_LENGTH};
use crate::error::{AppError, AppResult};

verus! {

/// A point in time, in whole seconds since 1970-01-01 00:00:00 UTC.
pub type Timestamp = i64;

/// Progress of a task: `Todo`, then `InProgress`, then `Done`.
#[derive(Clone, Copy, Debug, PartialEq, Eq, Structural)]
pub enum TaskStatus {
    Todo,
    InProgress,
    Done,
}

/// How urgent a task is, ordered from `Low` to `Urgent`.
#[derive(Clone, Copy, Debug, PartialEq, Eq, Structural, PartialOrd, Ord)]
pub enum TaskPriority {
    Low,
    Medium,
    High,
    Urgent,
}

/// The text under which a status is stored.
pub open spec fn status_text(s: TaskStatus) -> Seq<char> {
    match s {
        TaskStatus::Todo => seq!['t', 'o', 'd', 'o'],
        TaskStatus::InProgress => seq!['i', 'n', '_', 'p', 'r', 'o', 'g', 'r', 'e', 's', 's'],
        TaskStatus::Done => seq!['d', 'o', 'n', 'e'],
    }
}

/// The text under which a priority is stored.
pub open spec fn priority_text(p: TaskPriority) -> Seq<char> {
    match p {
        TaskPriority::Low => seq!['l', 'o', 'w'],
        TaskPriority::Medium => seq!['m', 'e', 'd', 'i', 'u', 'm'],
        TaskPriority::High => seq!['h', 'i', 'g', 'h'],
        TaskPriority::Urgent => seq!['u', 'r', 'g', 'e', 'n', 't'],
    }
}

/// Position of a priority in the order `Low < Medium < High < Urgent`.
pub open spec fn priority_rank(p: TaskPriority) -> nat {
    match p {
        TaskPriority::Low => 0,
        TaskPriority::Medium => 1,
        TaskPriority::High => 2,
        TaskPriority::Urgent => 3,
    }
}

impl TaskStatus {
    /// The stored text of this status (`todo`, `in_progress`, `done`).
    pub fn as_str(&self) -> (r: &'static str)
        ensures
            r@ == status_text(*self),
    {
        match self {
            TaskStatus::Todo => {
                proof {
                    reveal_strlit("todo");
                }
                "todo"
            },
            TaskStatus::InProgress => {
                proof {
                    reveal_strlit("in_progress");
                }
                "in_progress"
            },
            TaskStatus::Done => {
                proof {
                    reveal_strlit("done");
                }
                "done"
            },
        }
    }

    /// The status stored under `text`, if any.
    pub fn parse(text: &str) -> (r: Option<TaskStatus>)
        ensures
            forall|x: TaskStatus| #[trigger] status_text(x) == text@ <==> r == Some(x),
    {
        proof {
            assert forall|x: TaskStatus, y: TaskStatus| #[trigger] status_text(x) == #[trigger] status_text(y) implies x == y by {
                lemma_status_text_injective(x, y);
            }
        }
        let t = String::from_str(text);
        let todo = String::from_str(TaskStatus::Todo.as_str());
        let in_progress = String::from_str(TaskStatus::InProgress.as_str());
        let done = String::from_str(TaskStatus::Done.as_str());
        if t == todo {
            Some(TaskStatus::Todo)
        } else if t == in_progress {
            Some(TaskStatus::InProgress)
        } else if t == done {
            Some(TaskStatus::Done)
        } else {
            proof {
                assert forall|x: TaskStatus| status_text(x) != text@ by {
                    match x {
                        TaskStatus::Todo => {},
                        TaskStatus::InProgress => {},
                        TaskStatus::Done => {},
                    }
                }
            }
            None
        }
    }
}

impl TaskPriority {
    /// The stored text of this priority (`low`, `medium`, `high`, `urgent`).
    pub fn as_str(&self) -> (r: &'static str)
        ensures
            r@ == priority_text(*self),
    {
        match self {
            TaskPriority::Low => {
                proof {
                    reveal_strlit("low");
                }
                "low"
            },
            TaskPriority::Medium => {
                proof {
                    reveal_strlit("medium");
                }
                "medium"
            },
            TaskPriority::High => {
                proof {
                    reveal_strlit("high");
                }
                "high"
            },
            TaskPriority::Urgent => {
                proof {
                    reveal_strlit("urgent");
                }
                "urgent"
            },
        }
    }

    /// The priority stored under `text`, if any.
    pub fn parse(text: &str) -> (r: Option<TaskPriority>)
        ensures
            forall|x: TaskPriority| #[trigger] priority_text(x) == text@ <==> r == Some(x),
    {
        proof {
            assert forall|x: TaskPriority, y: TaskPriority| #[trigger] priority_text(x) == #[trigger] priority_text(y) implies x == y by {
                lemma_priority_text_injective(x, y);
            }
        }
        let t = String::from_str(text);
        let low = String::from_str(TaskPriority::Low.as_str());
        let medium = String::from_str(TaskPriority::Medium.as_str());
        let high = String::from_str(TaskPriority::High.as_str());
        let urgent = String::from_str(TaskPriority::Urgent.as_str());
        if t == low {
            Some(TaskPriority::Low)
        } else if t == medium {
            Some(TaskPriority::Medium)
        } else if t == high {
            Some(TaskPriority::High)
        } else if t == urgent {
            Some(TaskPriority::Urgent)
        } else {
            proof {
                assert forall|x: TaskPriority| priority_text(x) != text@ by {
                    match x {
                        TaskPriority::Low => {},
                        TaskPriority::Medium => {},
                        TaskPriority::High => {},
                        TaskPriority::Urgent => {},
                    }
                }
            }
            None
        }
    }

    /// Position of this priority in the order `Low < Medium < High < Urgent`.
    pub fn rank(&self) -> (r: u8)
        ensures
            r as nat == priority_rank(*self),
    {
        match self {
            TaskPriority::Low => 0,
            TaskPriority::Medium => 1,
            TaskPriority::High => 2,
            TaskPriority::Urgent => 3,
        }
    }
}

/// Distinct statuses are stored under distinct texts.
pub proof fn lemma_status_text_injective(a: TaskStatus, b: TaskStatus)
    ensures
        status_text(a) == status_text(b) ==> a == b,
{
    if a != b {
        match a {
            TaskStatus::Todo => assert(status_text(a)[0] != status_text(b)[0] || status_text(a).len() != status_text(b).len()),
            TaskStatus::InProgress => assert(status_text(a)[0] != status_text(b)[0]),
            TaskStatus::Done => assert(status_text(a)[0] != status_text(b)[0] || status_text(a).len() != status_text(b).len()),
        }
    }
}

/// Distinct priorities are stored under distinct texts.
pub proof fn lemma_priority_text_injective(a: TaskPriority, b: TaskPriority)
    ensures
        priority_text(a) == priority_text(b) ==> a == b,
{
    if a != b {
        assert(priority_text(a)[0] != priority_text(b)[0] || priority_text(a).len() != priority_text(b).len());
    }
}

impl Default for TaskStatus {
    fn default() -> (r: Self)
        ensures
            r == TaskStatus::Todo,
    {
        TaskStatus::Todo
    }
}

impl Default for TaskPriority {
    fn default() -> (r: Self)
        ensures
            r == TaskPriority::Medium,
    {
        TaskPriority::Medium
    }
}

/// A row of the `tasks` table.
#[derive(Clone, Debug)]
pub struct Task {
    /// Store-assigned identifier, never changed after creation.
    pub id: i64,
    pub title: String,
    pub description: String,
    pub status: TaskStatus,
    pub priority: TaskPriority,
    /// Deadline, if one is set.
    pub due_date: Option<Timestamp>,
    /// Owner of the task, never changed after creation.
    pub user_id: i64,
    /// Set by the store when the row is inserted.
    pub created_at: Timestamp,
    /// Set by the store on insertion and on every update.
    pub updated_at: Timestamp,
}

impl Task {
    /// A copy of this row, field for field.
    pub fn duplicate(&self) -> (r: Task)
        ensures
            r == *self,
    {
        Task {
            id: self.id,
            title: self.title.clone(),
            description: self.description.clone(),
            status: self.status,
            priority: self.priority,
            due_date: self.due_date,
            user_id: self.user_id,
            created_at: self.created_at,
            updated_at: self.updated_at,
        }
    }
}

/// The fields a caller supplies to create a task.
#[derive(Clone, Debug)]
pub struct CreateTask {
    pub title: String,
    pub description: String,
    pub status: TaskStatus,
    pub priority: TaskPriority,
    pub due_date: Option<Timestamp>,
    pub user_id: i64,
}

/// A title fits its column: at most `MAX_TITLE_LENGTH` characters.
pub open spec fn title_fits(t: Seq<char>) -> bool {
    t.len() <= MAX_TITLE_LENGTH
}

/// A description fits its column: at most `MAX_DESCRIPTION_LENGTH`
/// characters.
pub open spec fn description_fits(d: Seq<char>) -> bool {
    d.len() <= MAX_DESCRIPTION_LENGTH
}

/// `Ok` when the title and description fit their limits, else a
/// validation error naming the first field that does not.
fn check_lengths(title: &str, description: &str) -> (r: AppResult<()>)
    ensures
        r is Ok <==> title_fits(title@) && description_fits(description@),
        r is Err ==> r->Err_0 is Validation,
{
    if title.unicode_len() > MAX_TITLE_LENGTH {
        return Err(AppError::Validation(String::from_str("title is longer than 200 characters")));
    }
    if description.unicode_len() > MAX_DESCRIPTION_LENGTH {
        return Err(AppError::Validation(String::from_str("description is longer than 2000 characters")));
    }
    Ok(())
}

impl CreateTask {
    /// `Ok` when the title and description fit their limits, else a
    /// validation error.
    pub fn validate(&self) -> (r: AppResult<()>)
        ensures
            r is Ok <==> title_fits(self.title@) && description_fits(self.description@),
            r is Err ==> r->Err_0 is Validation,
    {
        check_lengths(self.title.as_str(), self.description.as_str())
    }
}

/// A partial update: each field that is present overwrites the column of
/// the same name, each absent field leaves it as it is.
#[derive(Clone, Debug)]
pub struct UpdateTask {
    pub title: Option<String>,
    pub description: Option<String>,
    pub status: Option<TaskStatus>,
    pub priority: Option<TaskPriority>,
    pub due_date: Option<Timestamp>,
}

impl UpdateTask {
    /// `Ok` when each present title or description fits its limit, else a
    /// validation error.
    pub fn validate(&self) -> (r: AppResult<()>)
        ensures
            r is Ok <==> (self.title is Some ==> title_fits(self.title->0@))
                && (self.description is Some ==> description_fits(self.description->0@)),
            r is Err ==> r->Err_0 is Validation,
    {
        let title = match &self.title {
            Some(t) => t.as_str(),
            None => "",
        };
        let description = match &self.description {
            Some(d) => d.as_str(),
            None => "",
        };
        proof {
            reveal_strlit("");
        }
        check_lengths(title, description)
    }

    /// An update that sets no field.
    pub fn empty() -> (r: UpdateTask)
        ensures
            r.title is None,
            r.description is None,
            r.status is None,
            r.priority is None,
            r.due_date is None,
    {
        UpdateTask { title: None, description: None, status: None, priority: None, due_date: None }
    }
}

} // verus!
