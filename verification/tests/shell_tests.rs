use std::path::PathBuf;
use uavred::app_state::{AppState, ScanStatus};
use uavred::dashboard::{
    new_task, new_task_title, objective_line, task_id_label, DashboardPanel,
};
use uavred::dialog::{DialogEvent, SimpleDialog};
use uavred::events::SidebarEvent;
use uavred::keybindings::{KeyBinding, KeyBindingAction, KeyboardShortcuts};
use uavred::models::{TaskData, TaskStatus};
use uavred::scanner::{
    FirmwareAnalyzer, NetworkScanner, ProtocolAnalyzer, ScanResult, ScanType, Severity,
    UavProtocol,
};
use uavred::shell::{name_of, nav_badge, nav_button_id, Workspace};
use uavred::sidebar::SimpleSidebar;
use uavred::style::{
    activity_colors, ai_status, column_dot_color, count_label, counter_label,
    finding_severity_color, finding_status_colors, folder_or_file, priority_tag_colors,
    tool_status_colors, tree_icon, yes_no, TreeIcon,
};
use uavred::text::{bool_to_string, str_is};
use uavred::ui::{DashboardEvent, WorkspaceEvent};
use uavred::workspace::{AppView, DashboardView, VulnFilter};

#[test]
fn default_key_bindings() {
    let shortcuts = KeyboardShortcuts::new();
    let expected = [
        (KeyBindingAction::ToggleSidebar, "Toggle Sidebar", "cmd+b"),
        (KeyBindingAction::SwitchToDashboard, "Switch to Dashboard", "cmd+1"),
        (KeyBindingAction::SwitchToAssets, "Switch to Assets", "cmd+2"),
        (KeyBindingAction::SwitchToScan, "Switch to Scan", "cmd+3"),
        (KeyBindingAction::SwitchToVulns, "Switch to Vulns", "cmd+4"),
        (KeyBindingAction::SwitchToTraffic, "Switch to Traffic", "cmd+5"),
        (KeyBindingAction::SwitchToFlows, "Switch to Flows", "cmd+6"),
        (KeyBindingAction::SwitchToDevices, "Switch to Devices", "cmd+7"),
        (KeyBindingAction::SwitchToSettings, "Switch to Settings", "cmd+,"),
        (KeyBindingAction::SplitHorizontal, "Split Horizontal", "cmd+k"),
        (KeyBindingAction::SplitVertical, "Split Vertical", "cmd+shift+k"),
        (KeyBindingAction::ClosePanel, "Close Panel", "cmd+w"),
        (KeyBindingAction::ZoomPanel, "Zoom Panel", "cmd+="),
    ];
    for (action, name, key) in expected {
        let binding = shortcuts.get_binding_for_action(action).unwrap();
        assert_eq!(binding.name, name);
        assert_eq!(binding.key, key);
        assert_eq!(binding.action, action);
    }
}

#[test]
fn key_binding_new() {
    let binding =
        KeyBinding::new("Zoom".to_string(), "cmd+z".to_string(), KeyBindingAction::ZoomPanel);
    assert_eq!(binding.name, "Zoom");
    assert_eq!(binding.key, "cmd+z");
    assert_eq!(binding.action, KeyBindingAction::ZoomPanel);
}

#[test]
fn dialog_opens_and_closes() {
    let mut dialog = SimpleDialog::new("Export".to_string(), "As PDF?".to_string());
    assert!(!dialog.is_open());
    assert_eq!(dialog.title(), "Export");
    assert_eq!(dialog.content(), "As PDF?");
    dialog.open();
    assert!(dialog.is_open());
    dialog.open();
    assert!(dialog.is_open());
    assert_eq!(dialog.close(), DialogEvent::Closed);
    assert!(!dialog.is_open());
    assert_eq!(dialog.close(), DialogEvent::Closed);
    assert!(!dialog.is_open());
    assert_eq!(dialog.title(), "Export");
}

#[test]
fn sidebar_lists_the_views() {
    let sidebar = SimpleSidebar::new();
    assert!(!sidebar.is_open());
    assert_eq!(
        sidebar.items,
        vec!["Dashboard", "Assets", "Scan", "Vulns", "Traffic", "Flows", "Devices", "Settings"]
    );
}

#[test]
fn sidebar_toggle_open_close() {
    let mut sidebar = SimpleSidebar::new();
    assert_eq!(sidebar.toggle(), SidebarEvent::Opened);
    assert!(sidebar.is_open());
    assert_eq!(sidebar.toggle(), SidebarEvent::Closed);
    assert!(!sidebar.is_open());
    assert_eq!(sidebar.close(), None);
    assert_eq!(sidebar.open(), Some(SidebarEvent::Opened));
    assert!(sidebar.is_open());
    assert_eq!(sidebar.open(), None);
    assert!(sidebar.is_open());
    assert_eq!(sidebar.close(), Some(SidebarEvent::Closed));
    assert!(!sidebar.is_open());
    assert_eq!(sidebar.items.len(), 8);
}

#[test]
fn app_state() {
    let mut state = AppState::new(true);
    assert_eq!(state.get_target(), "");
    assert_eq!(state.get_scan_status(), ScanStatus::Idle);
    assert_eq!(state.get_active_ai_agent(), None);
    assert!(state.is_dev_mode);
    state.set_target("mavic.local".to_string());
    state.set_scan_status(ScanStatus::Running);
    state.set_active_ai_agent(Some("scout".to_string()));
    assert_eq!(state.get_target(), "mavic.local");
    assert_eq!(state.get_scan_status(), ScanStatus::Running);
    assert_eq!(state.get_active_ai_agent(), Some("scout".to_string()));
    state.set_active_ai_agent(None);
    assert_eq!(state.get_active_ai_agent(), None);
    assert_eq!(state.get_target(), "mavic.local");
    assert!(!AppState::new(false).is_dev_mode);
}

#[test]
fn scanners_report_their_target_and_no_finding() {
    let network = NetworkScanner::new("10.0.0.0/24".to_string());
    assert_eq!(network.target_range(), "10.0.0.0/24");
    let result = network.scan();
    assert_eq!(result.scan_type, ScanType::Network);
    assert_eq!(result.target, "10.0.0.0/24");
    assert!(result.findings.is_empty());
    assert!(network.detect_uav_devices().is_empty());

    let protocol = ProtocolAnalyzer::new(UavProtocol::MAVLink);
    assert_eq!(protocol.protocol_type(), UavProtocol::MAVLink);
    let result = protocol.analyze("udp://10.0.0.5:14550");
    assert_eq!(result.scan_type, ScanType::Protocol);
    assert_eq!(result.target, "udp://10.0.0.5:14550");
    assert!(result.findings.is_empty());
    assert!(protocol.test_authentication("x").is_empty());
    assert!(protocol.test_command_injection("x").is_empty());

    let firmware = FirmwareAnalyzer::new(PathBuf::from("/tmp/fw/DJI_FW_v1.0.0.bin"));
    assert_eq!(firmware.firmware_path(), &PathBuf::from("/tmp/fw/DJI_FW_v1.0.0.bin"));
    let result = firmware.analyze();
    assert_eq!(result.scan_type, ScanType::Firmware);
    assert_eq!(result.target, "/tmp/fw/DJI_FW_v1.0.0.bin");
    assert!(result.findings.is_empty());
    assert!(firmware.extract_strings().is_empty());
    assert!(firmware.find_vulnerabilities().is_empty());

    let empty = ScanResult::empty(ScanType::Firmware, "t".to_string());
    assert_eq!(empty.target, "t");
    assert!(Severity::Low < Severity::Critical);
}

#[test]
fn text_helpers() {
    assert!(str_is("SCAN", "SCAN"));
    assert!(!str_is("SCAN", "scan"));
    assert!(!str_is("SCAN", "SCAN "));
    assert!(str_is("", ""));
    assert_eq!(bool_to_string(true), "true");
    assert_eq!(bool_to_string(false), "false");
}

#[test]
fn style_rules() {
    assert_eq!(priority_tag_colors("critical"), (0xef4444, 0xffffff));
    assert_eq!(priority_tag_colors("high"), (0xef4444, 0xffffff));
    assert_eq!(priority_tag_colors("medium"), (0xf97316, 0xffffff));
    assert_eq!(priority_tag_colors("low"), (0x10b981, 0xffffff));
    assert_eq!(priority_tag_colors("High"), (0x10b981, 0xffffff));
    assert_eq!(activity_colors("HISTORY"), (0xf3f4f6, 0x6b7280));
    assert_eq!(activity_colors("THOUGHT"), (0xf3e8ff, 0x7c3aed));
    assert_eq!(activity_colors("PLAN"), (0xfffbeb, 0xf59e0b));
    assert_eq!(activity_colors("TOOL"), (0xeff6ff, 0x2563eb));
    assert_eq!(activity_colors("ANALYSIS"), (0xf0fdf4, 0x16a34a));
    assert_eq!(activity_colors("other"), (0xf3f4f6, 0x6b7280));
    assert_eq!(tool_status_colors("Success"), (0xdcfce7, 0x166534));
    assert_eq!(tool_status_colors("Failed"), (0xfee2e2, 0x991b1b));
    assert_eq!(tool_status_colors("success"), (0xfee2e2, 0x991b1b));
    assert_eq!(finding_severity_color("critical"), 0xef4444);
    assert_eq!(finding_severity_color("high"), 0xf97316);
    assert_eq!(finding_severity_color("medium"), 0xfbbf24);
    assert_eq!(finding_severity_color("low"), 0x60a5fa);
    assert_eq!(finding_severity_color("info"), 0x9ca3af);
    assert_eq!(finding_status_colors("CONFIRMED"), (0xdcfce7, 0x166534));
    assert_eq!(finding_status_colors("VALIDATING"), (0xfef3c7, 0x92400e));
    assert_eq!(finding_status_colors("NEW"), (0xdbeafe, 0x1e40af));
    assert_eq!(finding_status_colors("OLD"), (0xf3f4f6, 0x6b7280));
    assert_eq!(column_dot_color("To Do"), 0x6b7280);
    assert_eq!(column_dot_color("In Progress"), 0x60a5fa);
    assert_eq!(column_dot_color("Done"), 0x10b981);
    assert_eq!(column_dot_color("Later"), 0x6b7280);
    assert_eq!(count_label(0), "(0)");
    assert_eq!(count_label(12), "(12)");
    assert_eq!(counter_label("Critical", 2), "Critical: 2");
    assert_eq!(tree_icon(false, false), TreeIcon::File);
    assert_eq!(tree_icon(false, true), TreeIcon::File);
    assert_eq!(tree_icon(true, true), TreeIcon::FolderOpen);
    assert_eq!(tree_icon(true, false), TreeIcon::Folder);
    assert_eq!(yes_no(true), "Yes");
    assert_eq!(yes_no(false), "No");
    assert_eq!(folder_or_file(true), "Folder");
    assert_eq!(folder_or_file(false), "File");
    assert_eq!(ai_status(true), ("AI Active", 0x4ade80));
    assert_eq!(ai_status(false), ("AI Inactive", 0x6b7280));
}

fn task(id: usize, title: &str, status: TaskStatus) -> TaskData {
    TaskData::new(id, title.to_string(), "SCAN".to_string(), "high".to_string(), status)
}

#[test]
fn dashboard_views_and_selection() {
    let mut panel = DashboardPanel::new();
    assert_eq!(panel.view, DashboardView::MissionControl);
    assert_eq!(panel.selected_task_id, None);
    assert!(panel.is_active(DashboardView::MissionControl));
    let event = panel.set_view(DashboardView::Findings);
    assert!(matches!(event, DashboardEvent::ViewChanged(DashboardView::Findings)));
    assert!(panel.is_active(DashboardView::Findings));
    assert!(!panel.is_active(DashboardView::MissionControl));
    assert!(panel.select_task(None).is_none());
    assert!(matches!(panel.select_task(Some(3)), Some(DashboardEvent::TaskSelected(Some(3)))));
    assert_eq!(panel.selected_task_id, Some(3));
    assert!(panel.select_task(Some(3)).is_none());
    assert!(matches!(panel.select_task(Some(4)), Some(DashboardEvent::TaskSelected(Some(4)))));
    assert!(matches!(panel.select_task(None), Some(DashboardEvent::TaskSelected(None))));
    assert_eq!(panel.selected_task_id, None);
}

#[test]
fn dashboard_tasks() {
    let mut panel = DashboardPanel::new();
    panel.set_tasks(
        vec![task(2, "todo two", TaskStatus::Todo)],
        vec![task(3, "running", TaskStatus::InProgress), task(2, "running two", TaskStatus::InProgress)],
        vec![task(4, "done", TaskStatus::Done), task(3, "done three", TaskStatus::Done)],
    );
    assert_eq!(panel.find_task(2).unwrap().title, "todo two");
    assert_eq!(panel.find_task(3).unwrap().title, "running");
    assert_eq!(panel.find_task(4).unwrap().title, "done");
    assert!(panel.find_task(5).is_none());
    assert_eq!(panel.detail_title(1), "Analyze Flight Logs");
    assert_eq!(panel.detail_title(4), "done");
    assert_eq!(panel.detail_title(99), "Task");
    assert_eq!(
        DashboardPanel::detail_objectives(1),
        vec![
            "Analyze the target drone communication interface for injection vulnerabilities.",
            "Focus on legacy PHP endpoints."
        ]
    );
    assert_eq!(DashboardPanel::detail_objectives(2), vec!["No objectives defined."]);
    let event = panel.add_task(&task(8, "added", TaskStatus::Todo));
    assert!(matches!(event, DashboardEvent::TaskAdded(added)
        if added.id == 8 && added.title == "added" && added.task_type == "SCAN" && added.priority == "high"));
}

#[test]
fn dashboard_labels() {
    assert_eq!(new_task_title(12), "New Task 12");
    let made = new_task(12, TaskStatus::InProgress);
    assert_eq!(made.id, 12);
    assert_eq!(made.title, "New Task 12");
    assert_eq!(made.task_type, "TASK");
    assert_eq!(made.priority, "medium");
    assert_eq!(made.status, TaskStatus::InProgress);
    assert_eq!(task_id_label(0), "ID: 0");
    assert_eq!(objective_line("Fuzz the parameter"), "> Fuzz the parameter");
}

#[test]
fn workspace_window() {
    let mut workspace = Workspace::new();
    assert_eq!(workspace.active_view(), AppView::Dashboard);
    assert_eq!(workspace.vuln_filter(), VulnFilter::All);
    assert!(workspace.is_active(AppView::Dashboard));
    let event = workspace.set_active_view(AppView::Traffic);
    assert!(matches!(event, WorkspaceEvent::ViewChanged(AppView::Traffic)));
    assert_eq!(workspace.active_view(), AppView::Traffic);
    assert!(!workspace.is_active(AppView::Dashboard));
    workspace.set_vuln_filter(VulnFilter::High);
    assert_eq!(workspace.vuln_filter(), VulnFilter::High);
    assert_eq!(workspace.active_view(), AppView::Traffic);
}

#[test]
fn workspace_navigation() {
    assert_eq!(nav_badge(AppView::Vulns), Some(2));
    assert_eq!(nav_badge(AppView::Traffic), Some(8));
    assert_eq!(nav_badge(AppView::Dashboard), None);
    assert_eq!(nav_badge(AppView::Settings), None);
    assert_eq!(name_of(AppView::Images), "Images");
    assert_eq!(nav_button_id(AppView::Dashboard), "nav-Dashboard");
    assert_eq!(nav_button_id(AppView::Devices), "nav-Devices");
    for view in [
        AppView::Dashboard,
        AppView::Assets,
        AppView::Images,
        AppView::Vulns,
        AppView::Traffic,
        AppView::Flows,
        AppView::Devices,
        AppView::Settings,
    ] {
        assert_eq!(nav_button_id(view), format!("nav-{:?}", view));
    }
}

#[test]
fn dashboard_sample_activities() {
    let activities = DashboardPanel::detail_activities(1);
    assert_eq!(activities.len(), 3);
    assert_eq!(activities[0].0, "HISTORY");
    assert_eq!(activities[0].1, "14:30:05");
    assert!(activities[0].2.starts_with("Initial reconnaissance completed."));
    assert_eq!(activities[1].0, "THOUGHT");
    assert_eq!(activities[2].0, "PLAN");
    assert_eq!(activities[2].1, "14:31:15");
    assert_eq!(
        activities[2].2,
        "1. Verify connection to target.\n2. Fuzz the `ip` parameter with common injection payloads.\n3. Analyze response time and content for execution indicators."
    );
    assert!(DashboardPanel::detail_activities(0).is_empty());
    assert!(DashboardPanel::detail_activities(2).is_empty());
    assert!(DashboardPanel::shows_sample_run(1));
    assert!(!DashboardPanel::shows_sample_run(0));
    assert!(!DashboardPanel::shows_sample_run(2));
}
