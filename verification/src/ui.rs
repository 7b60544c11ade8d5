//! The actions a user can take on the workspace, and the events that the
//! panels answer with.

use crate::workspace::{AppView, DashboardView, TaskData, VulnFilter};
use vstd::prelude::*;

verus! {

/// Show the given view.
#[derive(Debug, Clone, PartialEq)]
pub struct ActivateView(pub AppView);

/// Select the given task, or none.
#[derive(Debug, Clone, PartialEq)]
pub struct SelectTask(pub Option<usize>);

/// Show the given view of the dashboard.
#[derive(Debug, Clone, PartialEq)]
pub struct SetDashboardView(pub DashboardView);

/// Show only the vulnerabilities that pass the given filter.
#[derive(Debug, Clone, PartialEq)]
pub struct SetVulnFilter(pub VulnFilter);

#[derive(Debug, Clone)]
pub enum WorkspaceEvent {
    ViewChanged(AppView),
    TaskSelected(Option<usize>),
    TaskAdded(TaskData),
    TaskRemoved(usize),
    TaskUpdated(TaskData),
}

#[derive(Debug, Clone)]
pub enum DashboardEvent {
    ViewChanged(DashboardView),
    TaskSelected(Option<usize>),
    TaskAdded(TaskData),
    TaskRemoved(usize),
}

#[derive(Debug, Clone)]
pub enum AssetsEvent {
    AssetSelected(String),
    AssetsUpdated,
}

#[derive(Debug, Clone)]
pub enum VulnsEvent {
    FilterChanged(VulnFilter),
    VulnSelected(usize),
}

} // verus!
