use uavred::geometry::{Axis, Point};
use uavred::item::{AssetItem, ItemHandle, TaskItem, VulnItem};
use uavred::pane::{Pane, PaneAction, PaneId};
use uavred::resize_handle::ResizeEvent;

fn task(id: usize, title: &str, task_type: &str) -> TaskItem {
    TaskItem {
        task_id: id,
        title: title.to_string(),
        task_type: task_type.to_string(),
        priority: "high".to_string(),
        status: "todo".to_string(),
    }
}

fn pane_with(count: usize) -> Pane<TaskItem> {
    let mut pane = Pane::new(PaneId(7));
    for i in 0..count {
        pane.add_item(task(i, &format!("task {}", i), "SCAN"));
    }
    pane
}

#[test]
fn new_pane_is_empty() {
    let pane: Pane<TaskItem> = Pane::new(PaneId(1));
    assert_eq!(pane.id(), PaneId(1));
    assert_eq!(pane.item_count(), 0);
    assert!(pane.active_item().is_none());
    assert_eq!(pane.active_index(), None);
    assert!(!pane.is_zoomed());
}

#[test]
fn first_item_becomes_active() {
    let mut pane: Pane<TaskItem> = Pane::new(PaneId(1));
    pane.add_item(task(1, "one", "SCAN"));
    assert_eq!(pane.active_index(), Some(0));
    pane.add_item(task(2, "two", "SCAN"));
    assert_eq!(pane.item_count(), 2);
    assert_eq!(pane.active_index(), Some(0));
    assert_eq!(pane.active_item().unwrap().task_id, 1);
}

#[test]
fn non_empty_pane_has_an_active_item_in_range() {
    for count in 1..6 {
        let mut pane = pane_with(count);
        for index in 0..count {
            pane.activate_item(index);
            let active = pane.active_index().unwrap();
            assert!(active < pane.item_count());
            assert!(pane.active_item().is_some());
        }
        for _ in 0..count - 1 {
            pane.close_item(0);
            let active = pane.active_index().unwrap();
            assert!(active < pane.item_count());
            assert!(pane.active_item().is_some());
        }
    }
}

#[test]
fn activate_item_out_of_bounds_is_ignored() {
    let mut pane = pane_with(3);
    pane.activate_item(2);
    assert_eq!(pane.active_index(), Some(2));
    pane.activate_item(3);
    assert_eq!(pane.active_index(), Some(2));
    pane.activate_item(usize::MAX);
    assert_eq!(pane.active_index(), Some(2));
    assert_eq!(pane.item_count(), 3);
}

#[test]
fn activate_item_on_empty_pane_is_ignored() {
    let mut pane: Pane<TaskItem> = Pane::new(PaneId(1));
    pane.activate_item(0);
    assert_eq!(pane.active_index(), None);
}

#[test]
fn close_item_out_of_bounds_is_ignored() {
    let mut pane = pane_with(2);
    pane.activate_item(1);
    pane.close_item(2);
    assert_eq!(pane.item_count(), 2);
    assert_eq!(pane.active_index(), Some(1));
}

#[test]
fn closing_the_last_tab_moves_the_active_index_back() {
    let mut pane = pane_with(3);
    pane.activate_item(2);
    pane.close_item(2);
    assert_eq!(pane.item_count(), 2);
    assert_eq!(pane.active_index(), Some(1));
    assert_eq!(pane.active_item().unwrap().task_id, 1);
}

#[test]
fn closing_a_tab_before_the_active_one_keeps_the_index() {
    let mut pane = pane_with(4);
    pane.activate_item(1);
    pane.close_item(0);
    assert_eq!(pane.item_count(), 3);
    assert_eq!(pane.active_index(), Some(1));
    assert_eq!(pane.active_item().unwrap().task_id, 2);
}

#[test]
fn closing_a_tab_behind_the_active_one_changes_nothing_else() {
    let mut pane = pane_with(4);
    pane.activate_item(1);
    pane.close_item(3);
    assert_eq!(pane.item_count(), 3);
    assert_eq!(pane.active_index(), Some(1));
    assert_eq!(pane.active_item().unwrap().task_id, 1);
}

#[test]
fn closing_the_only_item_leaves_no_active_item() {
    let mut pane = pane_with(1);
    pane.close_item(0);
    assert_eq!(pane.item_count(), 0);
    assert_eq!(pane.active_index(), None);
    assert!(pane.active_item().is_none());
    pane.add_item(task(9, "again", "SCAN"));
    assert_eq!(pane.active_index(), Some(0));
    assert_eq!(pane.active_item().unwrap().task_id, 9);
}

#[test]
fn close_active_item_on_empty_pane_is_ignored() {
    let mut pane: Pane<TaskItem> = Pane::new(PaneId(1));
    pane.close_active_item();
    assert_eq!(pane.item_count(), 0);
    assert_eq!(pane.active_index(), None);
}

#[test]
fn close_active_item_closes_the_active_one() {
    let mut pane = pane_with(3);
    pane.activate_item(1);
    pane.close_active_item();
    assert_eq!(pane.item_count(), 2);
    assert_eq!(pane.active_index(), Some(1));
    assert_eq!(pane.active_item().unwrap().task_id, 2);
    pane.close_active_item();
    assert_eq!(pane.active_index(), Some(0));
    assert_eq!(pane.active_item().unwrap().task_id, 0);
    pane.close_active_item();
    assert_eq!(pane.active_index(), None);
}

#[test]
fn toggle_zoom_flips_the_flag() {
    let mut pane = pane_with(2);
    assert!(!pane.is_zoomed());
    pane.toggle_zoom();
    assert!(pane.is_zoomed());
    assert_eq!(pane.item_count(), 2);
    assert_eq!(pane.active_index(), Some(0));
    pane.toggle_zoom();
    assert!(!pane.is_zoomed());
}

#[test]
fn task_item_title_and_icons() {
    assert_eq!(task(1, "Scan the link", "SCAN").title(), "Scan the link");
    assert_eq!(task(1, "t", "SCAN").icon(), "search");
    assert_eq!(task(1, "t", "ANALYSIS").icon(), "file-text");
    assert_eq!(task(1, "t", "RECON").icon(), "radar");
    assert_eq!(task(1, "t", "EXPLOIT").icon(), "target");
    assert_eq!(task(1, "t", "PENTEST").icon(), "shield");
    assert_eq!(task(1, "t", "scan").icon(), "check-square");
    assert_eq!(task(1, "t", "").icon(), "check-square");
}

#[test]
fn asset_item_title_and_icons() {
    let asset = |asset_type: &str| AssetItem {
        asset_id: "a-1".to_string(),
        name: "Mavic".to_string(),
        asset_type: asset_type.to_string(),
    };
    assert_eq!(asset("drone").title(), "Mavic");
    assert_eq!(asset("drone").icon(), "plane");
    assert_eq!(asset("controller").icon(), "gamepad");
    assert_eq!(asset("firmware").icon(), "file");
    assert_eq!(asset("antenna").icon(), "folder");
}

#[test]
fn vuln_item_title_and_icons() {
    let vuln = |severity: &str| VulnItem {
        vuln_id: 3,
        title: "Open telnet".to_string(),
        severity: severity.to_string(),
        status: "new".to_string(),
    };
    assert_eq!(vuln("critical").title(), "Open telnet");
    assert_eq!(vuln("critical").icon(), "alert-circle");
    assert_eq!(vuln("high").icon(), "alert-triangle");
    assert_eq!(vuln("medium").icon(), "info");
    assert_eq!(vuln("low").icon(), "check-circle");
}

#[test]
fn items_of_different_kinds_have_different_type_ids() {
    let a = task(1, "t", "SCAN");
    let b = task(2, "u", "RECON");
    let c = VulnItem {
        vuln_id: 3,
        title: "x".to_string(),
        severity: "low".to_string(),
        status: "new".to_string(),
    };
    assert_eq!(ItemHandle::type_id(&a), ItemHandle::type_id(&b));
    assert_ne!(ItemHandle::type_id(&a), ItemHandle::type_id(&c));
}

#[test]
fn pane_actions_compare_by_value() {
    assert_eq!(PaneAction::ActivateItem(2), PaneAction::ActivateItem(2));
    assert_ne!(PaneAction::ActivateItem(2), PaneAction::ActivateItem(3));
    assert_ne!(PaneAction::Zoom, PaneAction::Unzoom);
    assert_eq!(PaneAction::CloseActiveItem.clone(), PaneAction::CloseActiveItem);
}

#[test]
fn pane_passes_resize_events_on() {
    let mut pane = pane_with(2);
    let moving = ResizeEvent::Resizing {
        axis: Axis::Horizontal,
        initial_position: Point::new(10, 20),
        position: Point::new(14, 20),
    };
    assert_eq!(pane.handle_resize_start(&moving), ResizeEvent::ResizeStarted);
    assert_eq!(pane.handle_resizing(&moving), Some(moving));
    assert_eq!(pane.handle_resizing(&ResizeEvent::ResizeStarted), None);
    assert_eq!(pane.handle_resizing(&ResizeEvent::ResizeEnded), None);
    assert_eq!(pane.handle_resize_end(&moving), ResizeEvent::ResizeEnded);
    assert_eq!(pane.item_count(), 2);
    assert_eq!(pane.active_index(), Some(0));
}
