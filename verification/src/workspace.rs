//! What the panels of the workspace share: the task as the board shows
//! it, and the views and filters a user can choose.

use vstd::prelude::*;

verus! {

/// A task, as the mission board shows it.
#[derive(Debug, Clone)]
pub struct TaskData {
    pub id: usize,
    pub title: String,
    pub task_type: String,
    pub priority: String,
}

impl TaskData {
    pub fn new(id: usize, title: String, task_type: String, priority: String) -> (task: Self)
        ensures
            task == (TaskData { id, title, task_type, priority }),
    {
        Self { id, title, task_type, priority }
    }
}

/// Which vulnerabilities the list shows.
#[derive(Debug, Clone, Copy, PartialEq, Eq, Structural)]
pub enum VulnFilter {
    All,
    Critical,
    High,
    Medium,
    Low,
}

/// The two views of the dashboard.
#[derive(Debug, Clone, Copy, PartialEq, Eq, Structural)]
pub enum DashboardView {
    MissionControl,
    Findings,
}

/// The views of the application.
#[derive(Debug, Clone, Copy, PartialEq, Eq, Structural)]
pub enum AppView {
    Dashboard,
    Assets,
    Images,
    Vulns,
    Traffic,
    Flows,
    Devices,
    Settings,
}

} // verus!
