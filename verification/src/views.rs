//! What the views of the first mission screen hold and show.

pub mod agent_panel;
pub mod app;
pub mod dashboard;
pub mod findings;
pub mod kanban;
pub mod navigation;
