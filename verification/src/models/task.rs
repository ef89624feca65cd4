use vstd::prelude::*;

use crate::clock::{parse_rfc3339, spec_parse_rfc3339, Timestamp};
use crate::ids::{parse_id, spec_parse_id};
use crate::models::user::spec_reads_as_time;
use crate::text::{concat, str_equals};

verus! {

/// How far a task has come.
#[derive(Clone, Copy, Debug, PartialEq, Eq, Structural)]
pub enum TaskStatus {
    Todo,
    InProgress,
    Done,
}

/// The stored and displayed text of a status.
pub open spec fn spec_status_text(s: TaskStatus) -> Seq<char> {
    match s {
        TaskStatus::Todo => seq!['t', 'o', 'd', 'o'],
        TaskStatus::InProgress => seq!['i', 'n', '_', 'p', 'r', 'o', 'g', 'r', 'e', 's', 's'],
        TaskStatus::Done => seq!['d', 'o', 'n', 'e'],
    }
}

/// The status whose text is `s`, if any.
pub open spec fn spec_parse_status(s: Seq<char>) -> Option<TaskStatus> {
    if s == spec_status_text(TaskStatus::Todo) {
        Some(TaskStatus::Todo)
    } else if s == spec_status_text(TaskStatus::InProgress) {
        Some(TaskStatus::InProgress)
    } else if s == spec_status_text(TaskStatus::Done) {
        Some(TaskStatus::Done)
    } else {
        None
    }
}

impl TaskStatus {
    pub fn as_str(&self) -> (r: &'static str)
        ensures
            r@ == spec_status_text(*self),
    {
        match self {
            TaskStatus::Todo => {
                proof {
                    reveal_strlit("todo");
                }
                "todo"
            },
            TaskStatus::InProgress => {
                proof {
                    reveal_strlit("in_progress");
                }
                "in_progress"
            },
            TaskStatus::Done => {
                proof {
                    reveal_strlit("done");
                }
                "done"
            },
        }
    }

    /// Reads a status from its text; any other text is refused with the
    /// message `invalid status: <text>`.
    pub fn from_str(s: &str) -> (r: Result<TaskStatus, String>)
        ensures
            match r {
                Ok(status) => spec_parse_status(s@) == Some(status),
                Err(msg) => spec_parse_status(s@) is None && msg@ == "invalid status: "@ + s@,
            },
    {
        if str_equals(s, TaskStatus::Todo.as_str()) {
            Ok(TaskStatus::Todo)
        } else if str_equals(s, TaskStatus::InProgress.as_str()) {
            Ok(TaskStatus::InProgress)
        } else if str_equals(s, TaskStatus::Done.as_str()) {
            Ok(TaskStatus::Done)
        } else {
            Err(concat("invalid status: ", s))
        }
    }
}

/// How urgent a task is.
#[derive(Clone, Copy, Debug, PartialEq, Eq, Structural)]
pub enum Priority {
    Low,
    Medium,
    High,
}

/// The stored and displayed text of a priority.
pub open spec fn spec_priority_text(p: Priority) -> Seq<char> {
    match p {
        Priority::Low => seq!['l', 'o', 'w'],
        Priority::Medium => seq!['m', 'e', 'd', 'i', 'u', 'm'],
        Priority::High => seq!['h', 'i', 'g', 'h'],
    }
}

/// The priority whose text is `s`, if any.
pub open spec fn spec_parse_priority(s: Seq<char>) -> Option<Priority> {
    if s == spec_priority_text(Priority::Low) {
        Some(Priority::Low)
    } else if s == spec_priority_text(Priority::Medium) {
        Some(Priority::Medium)
    } else if s == spec_priority_text(Priority::High) {
        Some(Priority::High)
    } else {
        None
    }
}

impl Priority {
    pub fn as_str(&self) -> (r: &'static str)
        ensures
            r@ == spec_priority_text(*self),
    {
        match self {
            Priority::Low => {
                proof {
                    reveal_strlit("low");
                }
                "low"
            },
            Priority::Medium => {
                proof {
                    reveal_strlit("medium");
                }
                "medium"
            },
            Priority::High => {
                proof {
                    reveal_strlit("high");
                }
                "high"
            },
        }
    }

    /// Reads a priority from its text; any other text is refused with the
    /// message `invalid priority: <text>`.
    pub fn from_str(s: &str) -> (r: Result<Priority, String>)
        ensures
            match r {
                Ok(p) => spec_parse_priority(s@) == Some(p),
                Err(msg) => spec_parse_priority(s@) is None && msg@ == "invalid priority: "@ + s@,
            },
    {
        if str_equals(s, Priority::Low.as_str()) {
            Ok(Priority::Low)
        } else if str_equals(s, Priority::Medium.as_str()) {
            Ok(Priority::Medium)
        } else if str_equals(s, Priority::High.as_str()) {
            Ok(Priority::High)
        } else {
            Err(concat("invalid priority: ", s))
        }
    }
}

/// Reading back the text of a status gives the status.
pub proof fn lemma_status_text_round_trip(s: TaskStatus)
    ensures
        spec_parse_status(spec_status_text(s)) == Some(s),
{
    assert(spec_status_text(TaskStatus::Todo)[0] != spec_status_text(TaskStatus::InProgress)[0]);
    assert(spec_status_text(TaskStatus::Todo)[0] != spec_status_text(TaskStatus::Done)[0]);
    assert(spec_status_text(TaskStatus::InProgress)[0] != spec_status_text(TaskStatus::Done)[0]);
}

/// Reading back the text of a priority gives the priority.
pub proof fn lemma_priority_text_round_trip(p: Priority)
    ensures
        spec_parse_priority(spec_priority_text(p)) == Some(p),
{
    assert(spec_priority_text(Priority::Low)[0] != spec_priority_text(Priority::Medium)[0]);
    assert(spec_priority_text(Priority::Low)[0] != spec_priority_text(Priority::High)[0]);
    assert(spec_priority_text(Priority::Medium)[0] != spec_priority_text(Priority::High)[0]);
}

/// A text read as a status or a priority is that value's text.
pub proof fn lemma_task_texts_parse_inverse(s: Seq<char>)
    ensures
        spec_parse_status(s) matches Some(st) ==> spec_status_text(st) == s,
        spec_parse_priority(s) matches Some(p) ==> spec_priority_text(p) == s,
{
}

/// A task as stored: identifiers, status, priority and times are text.
#[derive(Debug)]
pub struct TaskRow {
    pub id: String,
    pub title: String,
    pub description: String,
    pub status: String,
    pub priority: String,
    pub created_by_id: String,
    pub assigned_to_id: Option<String>,
    pub created_at: String,
    pub updated_at: String,
}

/// A task, with its fields read from their text.
#[derive(Debug)]
pub struct Task {
    pub id: u128,
    pub title: String,
    pub description: String,
    pub status: TaskStatus,
    pub priority: Priority,
    pub created_by_id: u128,
    pub assigned_to_id: Option<u128>,
    pub created_at: Timestamp,
    pub updated_at: Timestamp,
}

/// The stored assignee text, where there is one, reads as an identifier.
pub open spec fn spec_assignee_valid(a: Option<String>) -> bool {
    match a {
        Some(t) => spec_parse_id(t@) is Some,
        None => true,
    }
}

/// `id` is what the stored assignee text stands for.
pub open spec fn spec_assignee_from(a: Option<String>, id: Option<u128>) -> bool {
    match a {
        Some(t) => id is Some && spec_parse_id(t@) == id,
        None => id is None,
    }
}

/// Every text field of a stored task reads as what it stands for.
pub open spec fn spec_task_row_valid(row: TaskRow) -> bool {
    &&& spec_parse_id(row.id@) is Some
    &&& spec_parse_status(row.status@) is Some
    &&& spec_parse_priority(row.priority@) is Some
    &&& spec_parse_id(row.created_by_id@) is Some
    &&& spec_assignee_valid(row.assigned_to_id)
    &&& spec_parse_rfc3339(row.created_at@) is Some
    &&& spec_parse_rfc3339(row.updated_at@) is Some
}

/// `task` is what the stored `row` stands for.
pub open spec fn spec_task_from_row(row: TaskRow, task: Task) -> bool {
    &&& spec_parse_id(row.id@) == Some(task.id)
    &&& task.title@ == row.title@
    &&& task.description@ == row.description@
    &&& spec_parse_status(row.status@) == Some(task.status)
    &&& spec_parse_priority(row.priority@) == Some(task.priority)
    &&& spec_parse_id(row.created_by_id@) == Some(task.created_by_id)
    &&& spec_assignee_from(row.assigned_to_id, task.assigned_to_id)
    &&& spec_reads_as_time(row.created_at@, task.created_at)
    &&& spec_reads_as_time(row.updated_at@, task.updated_at)
}

impl Task {
    /// Reads a stored task. Fails exactly where some field does not read.
    /// Fields are read in order (identifier, status, priority, creator,
    /// assignee, times); where the status or the priority is the first that
    /// fails, the message is `invalid status: <text>` or
    /// `invalid priority: <text>`, while the wording for an identifier or a
    /// time comes from the reading crate and is left unsaid.
    pub fn try_from(row: TaskRow) -> (r: Result<Task, String>)
        ensures
            r is Ok <==> spec_task_row_valid(row),
            r matches Ok(task) ==> spec_task_from_row(row, task),
            spec_parse_id(row.id@) is Some && spec_parse_status(row.status@) is None ==> (r matches Err(
                msg,
            ) ==> msg@ == "invalid status: "@ + row.status@),
            spec_parse_id(row.id@) is Some && spec_parse_status(row.status@) is Some
                && spec_parse_priority(row.priority@) is None ==> (r matches Err(msg) ==> msg@
                == "invalid priority: "@ + row.priority@),
    {
        let id = match parse_id(row.id.as_str()) {
            Ok(v) => v,
            Err(e) => return Err(e),
        };
        let status = match TaskStatus::from_str(row.status.as_str()) {
            Ok(v) => v,
            Err(e) => return Err(e),
        };
        let priority = match Priority::from_str(row.priority.as_str()) {
            Ok(v) => v,
            Err(e) => return Err(e),
        };
        let created_by_id = match parse_id(row.created_by_id.as_str()) {
            Ok(v) => v,
            Err(e) => return Err(e),
        };
        let assigned_to_id = match &row.assigned_to_id {
            Some(text) => match parse_id(text.as_str()) {
                Ok(v) => Some(v),
                Err(e) => return Err(e),
            },
            None => None,
        };
        let created_at = match parse_rfc3339(row.created_at.as_str()) {
            Ok(v) => v,
            Err(e) => return Err(e),
        };
        let updated_at = match parse_rfc3339(row.updated_at.as_str()) {
            Ok(v) => v,
            Err(e) => return Err(e),
        };
        Ok(Task {
            id,
            title: row.title,
            description: row.description,
            status,
            priority,
            created_by_id,
            assigned_to_id,
            created_at,
            updated_at,
        })
    }
}

/// The request to create a task.
#[derive(Debug)]
pub struct CreateTaskRequest {
    pub title: String,
    pub description: Option<String>,
    pub priority: Option<String>,
}

/// The request to assign a task to a user.
#[derive(Debug)]
pub struct AssignTaskRequest {
    pub task_id: u128,
    pub assigned_to_id: u128,
}

/// A task as shown in responses; `assigned_to` is the assignee's email.
#[derive(Debug)]
pub struct TaskResponse {
    pub id: u128,
    pub title: String,
    pub description: String,
    pub status: String,
    pub priority: String,
    pub assigned_to: Option<String>,
}

/// Whether an optional text holds the given optional characters.
pub open spec fn spec_opt_text(a: Option<String>, b: Option<Seq<char>>) -> bool {
    match (a, b) {
        (Some(x), Some(y)) => x@ == y,
        (None, None) => true,
        _ => false,
    }
}

impl TaskResponse {
    /// The shown form of a task, given the email of its assignee (if any).
    pub fn from_task(task: &Task, assigned_to: Option<String>) -> (r: TaskResponse)
        ensures
            r.id == task.id,
            r.title@ == task.title@,
            r.description@ == task.description@,
            r.status@ == spec_status_text(task.status),
            r.priority@ == spec_priority_text(task.priority),
            r.assigned_to == assigned_to,
    {
        TaskResponse {
            id: task.id,
            title: task.title.clone(),
            description: task.description.clone(),
            status: task.status.as_str().to_owned(),
            priority: task.priority.as_str().to_owned(),
            assigned_to,
        }
    }
}

/// The caller, as shown with their tasks.
#[derive(Debug)]
pub struct ViewMyTasksUser {
    pub email: String,
    pub role: String,
}

/// How many tasks are assigned to the caller.
#[derive(Debug)]
pub struct ViewMyTasksSummary {
    pub total_assigned_tasks: usize,
}

/// Whether the answer was served from the cache.
#[derive(Debug)]
pub struct CacheInfo {
    pub hit: bool,
}

/// The answer to viewing one's own tasks.
#[derive(Debug)]
pub struct ViewMyTasksResponse {
    pub user: ViewMyTasksUser,
    pub tasks: Vec<TaskResponse>,
    pub summary: ViewMyTasksSummary,
    pub cache: CacheInfo,
}

} // verus!
