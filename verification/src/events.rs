//! What the parts of the workspace shell tell each other.

use vstd::prelude::*;

verus! {

#[derive(Debug, Clone)]
pub enum WorkspaceEvent {
    ViewChanged(String),
    TaskSelected(Option<usize>),
    TaskAdded(TaskData),
    TaskRemoved(usize),
    AssetSelected(String),
    VulnSelected(usize),
}

#[derive(Debug, Clone)]
pub enum DashboardEvent {
    ViewChanged(String),
    TaskSelected(Option<usize>),
    TaskAdded(TaskData),
    TaskRemoved(usize),
}

#[derive(Debug, Clone, Copy, PartialEq, Eq, Structural)]
pub enum SidebarEvent {
    Toggle,
    Opened,
    Closed,
}

/// A task, with its status as text.
#[derive(Debug, Clone)]
pub struct TaskData {
    pub id: usize,
    pub title: String,
    pub task_type: String,
    pub priority: String,
    pub status: String,
}

} // verus!
