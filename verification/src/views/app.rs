//! The first mission screen as a whole.

use crate::task::{Task, TaskPriority, TaskStatus, TaskType};
use crate::views::agent_panel::AgentPanel;
use crate::views::findings::FindingsView;
use crate::views::kanban::KanbanBoard;
use crate::views::navigation::NavigationBar;
use vstd::prelude::*;

verus! {

/// The two views of the screen.
#[derive(Debug, Clone, Copy, PartialEq, Eq, Structural)]
pub enum AppView {
    MissionControl,
    Findings,
}

/// The screen: the bar, the board, the findings and the agent.
pub struct UavRedTeamApp {
    pub navigation: NavigationBar,
    pub kanban: KanbanBoard,
    pub findings: FindingsView,
    pub agent_panel: AgentPanel,
    pub active_view: AppView,
}

/// Whether `task` is the waiting task with this name and priority.
pub open spec fn waits_as(task: Task, name: Seq<char>, priority: TaskPriority) -> bool {
    &&& task.name@ == name
    &&& task.priority == priority
    &&& task.status == TaskStatus::Pending
    &&& task.id.is_random()
    &&& task.started_at is None
    &&& task.completed_at is None
}

impl UavRedTeamApp {
    /// The screen as it opens: on the board, which holds the two sample
    /// tasks, both waiting.
    pub fn new() -> (app: Self)
        ensures
            app.active_view == AppView::MissionControl,
            app.kanban@.todo_tasks.len() == 2,
            app.kanban@.in_progress_tasks.len() == 0,
            app.kanban@.done_tasks.len() == 0,
            waits_as(app.kanban@.todo_tasks[0], "Analyze Flight Logs"@, TaskPriority::Medium),
            app.kanban@.todo_tasks[0].task_type matches TaskType::ProtocolAnalysis {
                target,
                protocol,
            } && target@ == "mavic-3-pro"@ && protocol@ == "MAVLink"@,
            waits_as(app.kanban@.todo_tasks[1], "Check Firmware Version"@, TaskPriority::Low),
            app.kanban@.todo_tasks[1].task_type matches TaskType::FirmwareAnalysis { path }
                && path@ == "/firmware"@,
    {
        let mut kanban = KanbanBoard::new();
        kanban.add_task(
            Task::new(
                "Analyze Flight Logs".to_string(),
                TaskType::ProtocolAnalysis {
                    target: "mavic-3-pro".to_string(),
                    protocol: "MAVLink".to_string(),
                },
                TaskPriority::Medium,
            ),
        );
        kanban.add_task(
            Task::new(
                "Check Firmware Version".to_string(),
                TaskType::FirmwareAnalysis { path: "/firmware".to_string() },
                TaskPriority::Low,
            ),
        );
        Self {
            navigation: NavigationBar::new(),
            kanban,
            findings: FindingsView::new(),
            agent_panel: AgentPanel::new(),
            active_view: AppView::MissionControl,
        }
    }
}

} // verus!
