//! A unit of work for an agent, and how far it has come.

use crate::clock::Timestamp;
use crate::ident::Uuid;
use vstd::prelude::*;

verus! {

/// What a task is to do.
#[derive(Debug, Clone)]
pub enum TaskType {
    NetworkScan { target: String },
    ProtocolAnalysis { target: String, protocol: String },
    FirmwareAnalysis { path: String },
    Exploit { target: String, exploit_id: String },
}

#[derive(Debug, Clone, Copy, PartialEq, Eq, Structural)]
pub enum TaskStatus {
    Pending,
    Running,
    Completed,
    Failed,
    Cancelled,
}

#[derive(Debug, Clone, Copy, PartialEq, Eq, PartialOrd, Ord, Structural)]
pub enum TaskPriority {
    Low,
    Medium,
    High,
    Critical,
}

/// A unit of work.
#[derive(Debug, Clone)]
pub struct Task {
    pub id: Uuid,
    pub name: String,
    pub task_type: TaskType,
    pub status: TaskStatus,
    pub priority: TaskPriority,
    pub created_at: Timestamp,
    pub started_at: Option<Timestamp>,
    pub completed_at: Option<Timestamp>,
}

impl Task {
    /// The pending task with the given identity, made at the time `now`.
    pub fn new_at(
        id: Uuid,
        name: String,
        task_type: TaskType,
        priority: TaskPriority,
        now: Timestamp,
    ) -> (task: Self)
        ensures
            task == (Task {
                id,
                name,
                task_type,
                status: TaskStatus::Pending,
                priority,
                created_at: now,
                started_at: None,
                completed_at: None,
            }),
    {
        Self {
            id,
            name,
            task_type,
            status: TaskStatus::Pending,
            priority,
            created_at: now,
            started_at: None,
            completed_at: None,
        }
    }

    /// A pending task with a new random identity, made now.
    pub fn new(name: String, task_type: TaskType, priority: TaskPriority) -> (task: Self)
        ensures
            task.id.is_random(),
            task.created_at.wf(),
            task == (Task {
                id: task.id,
                name,
                task_type,
                status: TaskStatus::Pending,
                priority,
                created_at: task.created_at,
                started_at: None,
                completed_at: None,
            }),
    {
        Self::new_at(Uuid::new_v4(), name, task_type, priority, Timestamp::now())
    }

    /// Marks the task as running since the time `now`.
    pub fn start_at(&mut self, now: Timestamp)
        ensures
            *final(self) == (Task {
                status: TaskStatus::Running,
                started_at: Some(now),
                ..*old(self)
            }),
    {
        self.status = TaskStatus::Running;
        self.started_at = Some(now);
    }

    /// Marks the task as running since now.
    pub fn start(&mut self)
        ensures
            final(self).started_at matches Some(now) && now.wf() && *final(self) == (Task {
                status: TaskStatus::Running,
                started_at: Some(now),
                ..*old(self)
            }),
    {
        self.start_at(Timestamp::now());
    }

    /// Marks the task as completed at the time `now`.
    pub fn complete_at(&mut self, now: Timestamp)
        ensures
            *final(self) == (Task {
                status: TaskStatus::Completed,
                completed_at: Some(now),
                ..*old(self)
            }),
    {
        self.status = TaskStatus::Completed;
        self.completed_at = Some(now);
    }

    /// Marks the task as completed now.
    pub fn complete(&mut self)
        ensures
            final(self).completed_at matches Some(now) && now.wf() && *final(self) == (Task {
                status: TaskStatus::Completed,
                completed_at: Some(now),
                ..*old(self)
            }),
    {
        self.complete_at(Timestamp::now());
    }

    /// Marks the task as failed at the time `now`.
    pub fn fail_at(&mut self, now: Timestamp)
        ensures
            *final(self) == (Task {
                status: TaskStatus::Failed,
                completed_at: Some(now),
                ..*old(self)
            }),
    {
        self.status = TaskStatus::Failed;
        self.completed_at = Some(now);
    }

    /// Marks the task as failed now.
    pub fn fail(&mut self)
        ensures
            final(self).completed_at matches Some(now) && now.wf() && *final(self) == (Task {
                status: TaskStatus::Failed,
                completed_at: Some(now),
                ..*old(self)
            }),
    {
        self.fail_at(Timestamp::now());
    }
}

} // verus!
