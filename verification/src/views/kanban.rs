//! The board of the first mission screen: the tasks of the agents in three
//! columns.

use crate::task::{Task, TaskPriority, TaskStatus, TaskType};
use vstd::prelude::*;

verus! {

#[derive(Debug, Clone, Copy, PartialEq, Eq, Structural)]
pub enum KanbanColumn {
    Todo,
    InProgress,
    Done,
}

/// The card that shows one task.
pub struct TaskCard {
    task: Task,
}

impl View for TaskCard {
    type V = Task;

    closed spec fn view(&self) -> Task {
        self.task
    }
}

/// The text and the colour of the badge that shows the priority
/// `priority`.
pub open spec fn priority_badge(priority: TaskPriority) -> (Seq<char>, u32) {
    match priority {
        TaskPriority::Critical => ("critical"@, 0xef4444),
        TaskPriority::High => ("high"@, 0xf97316),
        TaskPriority::Medium => ("medium"@, 0xfbbf24),
        TaskPriority::Low => ("low"@, 0x10b981),
    }
}

/// The text and the colour of the badge that shows what kind of work
/// `task_type` is.
pub open spec fn task_type_badge(task_type: TaskType) -> (Seq<char>, u32) {
    match task_type {
        TaskType::NetworkScan { .. } => ("SCAN"@, 0x60a5fa),
        TaskType::ProtocolAnalysis { .. } => ("ANALYSIS"@, 0xa78bfa),
        TaskType::FirmwareAnalysis { .. } => ("RECON"@, 0x34d399),
        TaskType::Exploit { .. } => ("EXPLOIT"@, 0xf87171),
    }
}

impl TaskCard {
    pub fn new(task: Task) -> (card: Self)
        ensures
            card@ == task,
    {
        Self { task }
    }

    /// The task that the card shows.
    pub fn task(&self) -> (task: &Task)
        ensures
            *task == self@,
    {
        &self.task
    }

    /// The text and the colour of the badge that shows the priority of the
    /// task.
    pub fn priority_badge(&self) -> (badge: (&'static str, u32))
        ensures
            (badge.0@, badge.1) == priority_badge(self@.priority),
    {
        match self.task.priority {
            TaskPriority::Critical => ("critical", 0xef4444),
            TaskPriority::High => ("high", 0xf97316),
            TaskPriority::Medium => ("medium", 0xfbbf24),
            TaskPriority::Low => ("low", 0x10b981),
        }
    }

    /// The text and the colour of the badge that shows what kind of work
    /// the task is.
    pub fn task_type_badge(&self) -> (badge: (&'static str, u32))
        ensures
            (badge.0@, badge.1) == task_type_badge(self@.task_type),
    {
        match &self.task.task_type {
            TaskType::NetworkScan { .. } => ("SCAN", 0x60a5fa),
            TaskType::ProtocolAnalysis { .. } => ("ANALYSIS", 0xa78bfa),
            TaskType::FirmwareAnalysis { .. } => ("RECON", 0x34d399),
            TaskType::Exploit { .. } => ("EXPLOIT", 0xf87171),
        }
    }
}

/// The board: one list of tasks for each column.
pub struct KanbanBoard {
    todo_tasks: Vec<Task>,
    in_progress_tasks: Vec<Task>,
    done_tasks: Vec<Task>,
    selected_task: Option<usize>,
}

/// What the board is, as a mathematical value.
pub struct KanbanBoardView {
    pub todo_tasks: Seq<Task>,
    pub in_progress_tasks: Seq<Task>,
    pub done_tasks: Seq<Task>,
    pub selected_task: Option<usize>,
}

impl View for KanbanBoard {
    type V = KanbanBoardView;

    closed spec fn view(&self) -> KanbanBoardView {
        KanbanBoardView {
            todo_tasks: self.todo_tasks@,
            in_progress_tasks: self.in_progress_tasks@,
            done_tasks: self.done_tasks@,
            selected_task: self.selected_task,
        }
    }
}

/// The column in which a task of the status `status` is shown. A task
/// that failed or was cancelled is shown in none.
pub open spec fn column_of(status: TaskStatus) -> Option<KanbanColumn> {
    match status {
        TaskStatus::Pending => Some(KanbanColumn::Todo),
        TaskStatus::Running => Some(KanbanColumn::InProgress),
        TaskStatus::Completed => Some(KanbanColumn::Done),
        _ => None,
    }
}

impl KanbanBoard {
    /// An empty board, with no task selected.
    pub fn new() -> (board: Self)
        ensures
            board@ == (KanbanBoardView {
                todo_tasks: Seq::empty(),
                in_progress_tasks: Seq::empty(),
                done_tasks: Seq::empty(),
                selected_task: None,
            }),
    {
        Self {
            todo_tasks: Vec::new(),
            in_progress_tasks: Vec::new(),
            done_tasks: Vec::new(),
            selected_task: None,
        }
    }

    /// The board `before` with `task` at the end of the column of its
    /// status; a task that failed or was cancelled is not taken.
    pub open spec fn with_task(before: KanbanBoardView, task: Task) -> KanbanBoardView {
        match column_of(task.status) {
            Some(KanbanColumn::Todo) => KanbanBoardView {
                todo_tasks: before.todo_tasks.push(task),
                ..before
            },
            Some(KanbanColumn::InProgress) => KanbanBoardView {
                in_progress_tasks: before.in_progress_tasks.push(task),
                ..before
            },
            Some(KanbanColumn::Done) => KanbanBoardView {
                done_tasks: before.done_tasks.push(task),
                ..before
            },
            None => before,
        }
    }

    /// Puts `task` at the end of the column of its status. A task that
    /// failed or was cancelled is not taken.
    pub fn add_task(&mut self, task: Task)
        ensures
            final(self)@ == Self::with_task(old(self)@, task),
    {
        match task.status {
            TaskStatus::Pending => self.todo_tasks.push(task),
            TaskStatus::Running => self.in_progress_tasks.push(task),
            TaskStatus::Completed => self.done_tasks.push(task),
            _ => {},
        }
    }

    /// The tasks of the column `column`.
    pub fn tasks(&self, column: KanbanColumn) -> (tasks: &Vec<Task>)
        ensures
            tasks@ == match column {
                KanbanColumn::Todo => self@.todo_tasks,
                KanbanColumn::InProgress => self@.in_progress_tasks,
                KanbanColumn::Done => self@.done_tasks,
            },
    {
        match column {
            KanbanColumn::Todo => &self.todo_tasks,
            KanbanColumn::InProgress => &self.in_progress_tasks,
            KanbanColumn::Done => &self.done_tasks,
        }
    }

    pub fn selected_task(&self) -> (selected: Option<usize>)
        ensures
            selected == self@.selected_task,
    {
        self.selected_task
    }
}

} // verus!
