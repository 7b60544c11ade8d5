//! What the task table of the database is asked, and how its rows are read.
//!
//! The statements are put together here as text; to run them is left to
//! whoever holds the connection.

use crate::models::{TaskData, TaskStatus};
use crate::text::{decimal, replace_all, replaced, str_is, u64_to_string};
use vstd::prelude::*;
use vstd::string::StringExecFns;

verus! {

/// Why a row of the task table could not be read.
#[derive(Debug, Clone)]
pub enum DatabaseError {
    /// The status column holds a text that names no status.
    InvalidStatus(String),
}

impl DatabaseError {
    /// The text of this error.
    pub fn message(&self) -> (text: String)
        ensures
            text@ == match self {
                DatabaseError::InvalidStatus(status) => "无效的任务状态: "@ + status@,
            },
    {
        match self {
            DatabaseError::InvalidStatus(status) => "无效的任务状态: ".to_string().concat(
                status.as_str(),
            ),
        }
    }
}

/// The statement that makes the task table, unless it is there.
pub const CREATE_TABLE_SQL: &'static str =
    "CREATE TABLE IF NOT EXISTS tasks (\n    id INTEGER PRIMARY KEY,\n    title TEXT NOT NULL,\n    task_type TEXT NOT NULL,\n    priority TEXT NOT NULL,\n    status TEXT NOT NULL,\n    created_at TEXT NOT NULL,\n    updated_at TEXT NOT NULL\n)\n";

/// The statement that asks for the highest identity in the table.
pub const MAX_ID_SQL: &'static str = "SELECT COALESCE(MAX(id), 0) FROM tasks";

/// The name under which `status` is stored.
pub fn status_to_string(status: TaskStatus) -> (name: String)
    ensures
        name@ == status.name(),
{
    status.to_string()
}

/// The status that is stored under the name `name`.
pub open spec fn status_named(name: Seq<char>) -> Option<TaskStatus> {
    if name == "todo"@ {
        Some(TaskStatus::Todo)
    } else if name == "in_progress"@ {
        Some(TaskStatus::InProgress)
    } else if name == "done"@ {
        Some(TaskStatus::Done)
    } else {
        None
    }
}

/// The status that is stored under the name `s`. A text that names no
/// status is refused.
pub fn string_to_status(s: &str) -> (result: Result<TaskStatus, DatabaseError>)
    ensures
        match result {
            Ok(status) => status_named(s@) == Some(status),
            Err(DatabaseError::InvalidStatus(text)) => status_named(s@) is None && text@ == s@,
        },
{
    if str_is(s, "todo") {
        Ok(TaskStatus::Todo)
    } else if str_is(s, "in_progress") {
        Ok(TaskStatus::InProgress)
    } else if str_is(s, "done") {
        Ok(TaskStatus::Done)
    } else {
        Err(DatabaseError::InvalidStatus(s.to_string()))
    }
}

/// Every status is stored under a name that reads back as that status.
pub proof fn lemma_status_name_reads_back(status: TaskStatus)
    ensures
        status_named(status.name()) == Some(status),
{
    reveal_strlit("todo");
    reveal_strlit("in_progress");
    reveal_strlit("done");
    assert("in_progress"@.len() != "todo"@.len());
    assert("done"@[0] != "todo"@[0]);
    assert("done"@.len() != "in_progress"@.len());
}

/// The text `text` as it stands between single quotes in a statement:
/// with every single quote doubled.
pub open spec fn quoted(text: Seq<char>) -> Seq<char> {
    replaced(text, "'"@, "''"@)
}

/// The text `text` as it stands between single quotes in a statement.
pub fn escape_quotes(text: &str) -> (escaped: String)
    ensures
        escaped@ == quoted(text@),
{
    proof {
        reveal_strlit("'");
    }
    replace_all(text, "'", "''")
}

/// The statement that lists the tasks of the status `status`, the lowest
/// identity first.
pub fn list_tasks_sql(status: TaskStatus) -> (sql: String)
    ensures
        sql@
            == "SELECT id, title, task_type, priority, status, created_at, updated_at FROM tasks WHERE status = '"@
            + quoted(status.name()) + "' ORDER BY id ASC"@,
{
    let name = status_to_string(status);
    let escaped = escape_quotes(name.as_str());
    "SELECT id, title, task_type, priority, status, created_at, updated_at FROM tasks WHERE status = '".to_string().concat(
        escaped.as_str(),
    ).concat("' ORDER BY id ASC")
}

/// The statement that stores `task`: as a new row, or in the place of the
/// row with its identity, whose time of creation it keeps. `now` is the
/// time at which the task is stored.
pub open spec fn save_task_text(task: TaskData, now: Seq<char>) -> Seq<char> {
    "INSERT OR REPLACE INTO tasks (id, title, task_type, priority, status, created_at, updated_at) VALUES ("@
        + decimal(task.id as nat) + ", '"@ + quoted(task.title@) + "', '"@ + quoted(
        task.task_type@,
    ) + "', '"@ + quoted(task.priority@) + "', '"@ + task.status.name()
        + "', COALESCE((SELECT created_at FROM tasks WHERE id = "@ + decimal(task.id as nat)
        + "), '"@ + now + "'), '"@ + now + "')"@
}

/// The statement that stores `task` at the time `now`.
pub fn save_task_sql(task: &TaskData, now: &str) -> (sql: String)
    ensures
        sql@ == save_task_text(*task, now@),
{
    let id = u64_to_string(task.id as u64);
    let title = escape_quotes(task.title.as_str());
    let task_type = escape_quotes(task.task_type.as_str());
    let priority = escape_quotes(task.priority.as_str());
    let status = status_to_string(task.status);
    "INSERT OR REPLACE INTO tasks (id, title, task_type, priority, status, created_at, updated_at) VALUES (".to_string().concat(
        id.as_str(),
    ).concat(", '").concat(title.as_str()).concat("', '").concat(task_type.as_str()).concat(
        "', '",
    ).concat(priority.as_str()).concat("', '").concat(status.as_str()).concat(
        "', COALESCE((SELECT created_at FROM tasks WHERE id = ",
    ).concat(id.as_str()).concat("), '").concat(now).concat("'), '").concat(now).concat("')")
}

/// The statement that deletes the task with the identity `id`.
pub fn delete_task_sql(id: usize) -> (sql: String)
    ensures
        sql@ == "DELETE FROM tasks WHERE id = "@ + decimal(id as nat),
{
    let id = u64_to_string(id as u64);
    "DELETE FROM tasks WHERE id = ".to_string().concat(id.as_str())
}

/// The task that a row of the table holds. A row whose status names no
/// status is refused.
pub fn task_from_row(
    id: i64,
    title: String,
    task_type: String,
    priority: String,
    status: &str,
) -> (result: Result<TaskData, DatabaseError>)
    ensures
        match result {
            Ok(task) => status_named(status@) matches Some(read) && task == (TaskData {
                id: id as usize,
                title,
                task_type,
                priority,
                status: read,
            }),
            Err(DatabaseError::InvalidStatus(text)) => status_named(status@) is None && text@
                == status@,
        },
{
    match string_to_status(status) {
        Ok(read) => {
            let id: usize = #[verifier::truncate] (id as usize);
            Ok(TaskData { id, title, task_type, priority, status: read })
        },
        Err(error) => Err(error),
    }
}

/// The identity for the next task, when `max_id` is the highest identity
/// in the table, or zero for an empty table.
pub fn next_task_id(max_id: i64) -> (id: usize)
    requires
        (max_id as usize) < usize::MAX,
    ensures
        id == (max_id as usize) + 1,
{
    let highest: usize = #[verifier::truncate] (max_id as usize);
    highest + 1
}

} // verus!
