//! Tasks of the mission board, with the column they stand in.

use crate::workspace;
use vstd::prelude::*;

verus! {

/// The column of the board in which a task stands.
#[derive(Debug, Clone, Copy, PartialEq, Eq, Structural)]
pub enum TaskStatus {
    Todo,
    InProgress,
    Done,
}

impl TaskStatus {
    /// The name under which this status is stored and shown.
    pub open spec fn name(&self) -> Seq<char> {
        match self {
            TaskStatus::Todo => "todo"@,
            TaskStatus::InProgress => "in_progress"@,
            TaskStatus::Done => "done"@,
        }
    }

    /// The name under which this status is stored and shown.
    pub fn to_string(&self) -> (text: String)
        ensures
            text@ == self.name(),
    {
        match self {
            TaskStatus::Todo => "todo".to_string(),
            TaskStatus::InProgress => "in_progress".to_string(),
            TaskStatus::Done => "done".to_string(),
        }
    }
}

/// A task together with its status.
#[derive(Debug, Clone)]
pub struct TaskData {
    pub id: usize,
    pub title: String,
    pub task_type: String,
    pub priority: String,
    pub status: TaskStatus,
}

impl TaskData {
    pub fn new(
        id: usize,
        title: String,
        task_type: String,
        priority: String,
        status: TaskStatus,
    ) -> (task: Self)
        ensures
            task == (TaskData { id, title, task_type, priority, status }),
    {
        Self { id, title, task_type, priority, status }
    }

    /// The task `task` of the board, with the status `status`.
    pub fn from_workspace(task: &workspace::TaskData, status: TaskStatus) -> (made: Self)
        ensures
            made == (TaskData {
                id: task.id,
                title: task.title,
                task_type: task.task_type,
                priority: task.priority,
                status,
            }),
    {
        Self {
            id: task.id,
            title: task.title.clone(),
            task_type: task.task_type.clone(),
            priority: task.priority.clone(),
            status,
        }
    }

    /// The task as the board shows it: everything but the status.
    pub fn to_workspace(&self) -> (task: workspace::TaskData)
        ensures
            task == (workspace::TaskData {
                id: self.id,
                title: self.title,
                task_type: self.task_type,
                priority: self.priority,
            }),
    {
        workspace::TaskData::new(
            self.id,
            self.title.clone(),
            self.task_type.clone(),
            self.priority.clone(),
        )
    }

    /// A copy of the task.
    pub fn duplicate(&self) -> (copy: Self)
        ensures
            copy == *self,
    {
        Self {
            id: self.id,
            title: self.title.clone(),
            task_type: self.task_type.clone(),
            priority: self.priority.clone(),
            status: self.status,
        }
    }
}

} // verus!
