use uavred::clock::Timestamp;
use uavred::ident::Uuid;
use uavred::scanner::Severity;
use uavred::task::{Task, TaskPriority, TaskStatus, TaskType};
use uavred::views::agent_panel::{AgentLog, AgentLogType, AgentPanel};
use uavred::views::app::{AppView, UavRedTeamApp};
use uavred::views::dashboard::Dashboard;
use uavred::views::findings::{FindingItem, FindingStatus, FindingsView};
use uavred::views::kanban::{KanbanBoard, KanbanColumn, TaskCard};
use uavred::views::navigation::{NavigationBar, NavigationTab};

fn task(name: &str, status: TaskStatus, priority: TaskPriority, task_type: TaskType) -> Task {
    let mut task = Task::new_at(
        Uuid(1),
        name.to_string(),
        task_type,
        priority,
        Timestamp { seconds: 0, nanoseconds: 0 },
    );
    task.status = status;
    task
}

fn scan() -> TaskType {
    TaskType::NetworkScan { target: "t".to_string() }
}

#[test]
fn navigation_bar() {
    let mut bar = NavigationBar::new();
    assert_eq!(bar.active_tab(), NavigationTab::Dashboard);
    assert_eq!(bar.target(), "mavic-3-pro-v2.local");
    assert!(bar.ai_active());
    assert_eq!(bar.badge_count(NavigationTab::Vulns), Some(2));
    assert_eq!(bar.badge_count(NavigationTab::Traffic), Some(8));
    assert_eq!(bar.badge_count(NavigationTab::Dashboard), None);
    assert_eq!(bar.badge_count(NavigationTab::Flows), None);
    bar.set_target("phantom-4.local".to_string());
    bar.set_active_tab(NavigationTab::Scan);
    assert_eq!(bar.target(), "phantom-4.local");
    assert_eq!(bar.active_tab(), NavigationTab::Scan);
    assert!(bar.is_active(NavigationTab::Scan));
    assert!(!bar.is_active(NavigationTab::Dashboard));
    assert!(bar.ai_active());
}

#[test]
fn task_card_badges() {
    let badge = |priority| {
        TaskCard::new(task("t", TaskStatus::Pending, priority, scan())).priority_badge()
    };
    assert_eq!(badge(TaskPriority::Critical), ("critical", 0xef4444));
    assert_eq!(badge(TaskPriority::High), ("high", 0xf97316));
    assert_eq!(badge(TaskPriority::Medium), ("medium", 0xfbbf24));
    assert_eq!(badge(TaskPriority::Low), ("low", 0x10b981));
    let kind = |task_type| {
        TaskCard::new(task("t", TaskStatus::Pending, TaskPriority::Low, task_type))
            .task_type_badge()
    };
    assert_eq!(kind(scan()), ("SCAN", 0x60a5fa));
    assert_eq!(
        kind(TaskType::ProtocolAnalysis { target: "t".to_string(), protocol: "p".to_string() }),
        ("ANALYSIS", 0xa78bfa)
    );
    assert_eq!(kind(TaskType::FirmwareAnalysis { path: "p".to_string() }), ("RECON", 0x34d399));
    assert_eq!(
        kind(TaskType::Exploit { target: "t".to_string(), exploit_id: "e".to_string() }),
        ("EXPLOIT", 0xf87171)
    );
    let card = TaskCard::new(task("shown", TaskStatus::Pending, TaskPriority::Low, scan()));
    assert_eq!(card.task().name, "shown");
}

#[test]
fn board_sorts_tasks_into_columns() {
    let mut board = KanbanBoard::new();
    assert_eq!(board.selected_task(), None);
    for (name, status) in [
        ("a", TaskStatus::Pending),
        ("b", TaskStatus::Running),
        ("c", TaskStatus::Completed),
        ("d", TaskStatus::Failed),
        ("e", TaskStatus::Cancelled),
        ("f", TaskStatus::Pending),
    ] {
        board.add_task(task(name, status, TaskPriority::Low, scan()));
    }
    let names = |column| -> Vec<String> {
        board.tasks(column).iter().map(|t| t.name.clone()).collect()
    };
    assert_eq!(names(KanbanColumn::Todo), vec!["a", "f"]);
    assert_eq!(names(KanbanColumn::InProgress), vec!["b"]);
    assert_eq!(names(KanbanColumn::Done), vec!["c"]);
}

#[test]
fn finding_item() {
    let item = FindingItem::new(
        "MAVLink Buffer Overflow".to_string(),
        "Overflow in the parser".to_string(),
        Severity::Critical,
        FindingStatus::Validating,
        Some("CVE-2024-1234".to_string()),
        "DJI Mavic 3".to_string(),
        "2m ago".to_string(),
    );
    assert_eq!(item.title(), "MAVLink Buffer Overflow");
    assert_eq!(item.description(), "Overflow in the parser");
    assert_eq!(item.severity(), Severity::Critical);
    assert_eq!(item.status(), FindingStatus::Validating);
    assert_eq!(item.cve(), &Some("CVE-2024-1234".to_string()));
    assert_eq!(item.target(), "DJI Mavic 3");
    assert_eq!(item.discovered_time(), "2m ago");
    assert_eq!(item.severity_color(), 0xef4444);
    assert_eq!(item.status_badge(), ("VALIDATING", 0xfbbf24));
}

#[test]
fn finding_colors() {
    let with = |severity, status| {
        FindingItem::new(
            String::new(),
            String::new(),
            severity,
            status,
            None,
            String::new(),
            String::new(),
        )
    };
    assert_eq!(with(Severity::High, FindingStatus::New).severity_color(), 0xf97316);
    assert_eq!(with(Severity::Medium, FindingStatus::New).severity_color(), 0xfbbf24);
    assert_eq!(with(Severity::Low, FindingStatus::New).severity_color(), 0x10b981);
    assert_eq!(with(Severity::Low, FindingStatus::New).status_badge(), ("NEW", 0x60a5fa));
    assert_eq!(
        with(Severity::Low, FindingStatus::Confirmed).status_badge(),
        ("CONFIRMED", 0x10b981)
    );
    assert_eq!(with(Severity::Low, FindingStatus::New).cve(), &None);
}

#[test]
fn findings_view() {
    let mut view = FindingsView::new();
    assert_eq!(view.total(), 0);
    assert_eq!(view.critical_count(), 2);
    assert_eq!(view.high_count(), 2);
    for title in ["one", "two"] {
        view.add_finding(FindingItem::new(
            title.to_string(),
            String::new(),
            Severity::Low,
            FindingStatus::New,
            None,
            String::new(),
            String::new(),
        ));
    }
    assert_eq!(view.total(), 2);
    assert_eq!(view.findings()[0].title(), "one");
    assert_eq!(view.findings()[1].title(), "two");
    assert_eq!(view.critical_count(), 2);
}

#[test]
fn agent_log_kinds() {
    assert_eq!(AgentLogType::History.label(), "HISTORY");
    assert_eq!(AgentLogType::Thought.label(), "THOUGHT");
    assert_eq!(AgentLogType::Plan.label(), "PLAN");
    assert_eq!(AgentLogType::Tool.label(), "TOOL");
    assert_eq!(AgentLogType::History.color(), 0x6b7280);
    assert_eq!(AgentLogType::Thought.color(), 0xa78bfa);
    assert_eq!(AgentLogType::Plan.color(), 0xfbbf24);
    assert_eq!(AgentLogType::Tool.color(), 0x60a5fa);
    assert_eq!(AgentLogType::History.icon(), "⚪");
    assert_eq!(AgentLogType::Thought.icon(), "💭");
    assert_eq!(AgentLogType::Plan.icon(), "📋");
    assert_eq!(AgentLogType::Tool.icon(), "🔧");
}

#[test]
fn agent_panel() {
    let mut panel = AgentPanel::new();
    assert_eq!(panel.agent_name(), "PENLIGENT AGENT");
    assert_eq!(
        panel.mission_objective(),
        "Analyze the target drone communication interface for injection vulnerabilities."
    );
    assert!(panel.is_live());
    assert!(panel.logs().is_empty());
    panel.add_log(AgentLog::new(AgentLogType::Plan, "14:31".to_string(), "Fuzz".to_string()));
    panel.add_log(AgentLog::new(AgentLogType::Tool, "14:32".to_string(), "curl".to_string()));
    assert_eq!(panel.logs().len(), 2);
    assert_eq!(panel.logs()[0].log_type(), AgentLogType::Plan);
    assert_eq!(panel.logs()[0].timestamp(), "14:31");
    assert_eq!(panel.logs()[0].content(), "Fuzz");
    assert_eq!(panel.logs()[1].content(), "curl");
    assert_eq!(panel.agent_name(), "PENLIGENT AGENT");
}

#[test]
fn counters() {
    let dashboard = Dashboard::new();
    assert_eq!(dashboard.status_badge("Total Scans", 7), "Total Scans: 7");
    let (agents, scans, vulnerabilities) = dashboard.badges();
    assert_eq!(agents, "Active Agents: 0");
    assert_eq!(scans, "Total Scans: 0");
    assert_eq!(vulnerabilities, "Vulnerabilities: 0");
}

#[test]
fn screen_opens_on_the_board_with_two_tasks() {
    let app = UavRedTeamApp::new();
    assert_eq!(app.active_view, AppView::MissionControl);
    let todo = app.kanban.tasks(KanbanColumn::Todo);
    assert_eq!(todo.len(), 2);
    assert_eq!(todo[0].name, "Analyze Flight Logs");
    assert_eq!(todo[0].priority, TaskPriority::Medium);
    assert!(matches!(&todo[0].task_type, TaskType::ProtocolAnalysis { target, protocol }
        if target == "mavic-3-pro" && protocol == "MAVLink"));
    assert_eq!(todo[1].name, "Check Firmware Version");
    assert_eq!(todo[1].priority, TaskPriority::Low);
    assert!(matches!(&todo[1].task_type, TaskType::FirmwareAnalysis { path } if path == "/firmware"));
    assert!(app.kanban.tasks(KanbanColumn::InProgress).is_empty());
    assert!(app.kanban.tasks(KanbanColumn::Done).is_empty());
    assert_eq!(app.navigation.active_tab(), NavigationTab::Dashboard);
    assert_eq!(app.findings.total(), 0);
    assert!(app.agent_panel.logs().is_empty());
}
