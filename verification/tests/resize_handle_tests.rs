use uavred::geometry::Point;
use uavred::pane::PaneId;
use uavred::resize_handle::{
    Axis, DragState, PointerEvent, ResizeEvent, ResizeHandle, HANDLE_WIDTH,
};

#[test]
fn new_handle_is_idle() {
    let handle = ResizeHandle::new(PaneId(4), Axis::Vertical);
    assert_eq!(handle.pane(), PaneId(4));
    assert_eq!(handle.axis(), Axis::Vertical);
    assert_eq!(handle.width(), 10);
    assert_eq!(HANDLE_WIDTH, 10);
    assert!(!handle.is_dragging());
}

#[test]
fn drag_runs_from_press_to_release() {
    let mut handle = ResizeHandle::new(PaneId(1), Axis::Horizontal);
    assert_eq!(
        handle.handle_pointer(PointerEvent::Down(Point::new(100, 50))),
        Some(ResizeEvent::ResizeStarted)
    );
    assert!(handle.is_dragging());
    assert_eq!(
        handle.handle_pointer(PointerEvent::Move(Point::new(110, 55))),
        Some(ResizeEvent::Resizing {
            axis: Axis::Horizontal,
            initial_position: Point::new(100, 50),
            position: Point::new(110, 55),
        })
    );
    assert_eq!(
        handle.handle_pointer(PointerEvent::Move(Point::new(104, 70))),
        Some(ResizeEvent::Resizing {
            axis: Axis::Horizontal,
            initial_position: Point::new(110, 55),
            position: Point::new(104, 70),
        })
    );
    assert!(handle.is_dragging());
    assert_eq!(handle.handle_pointer(PointerEvent::Up), Some(ResizeEvent::ResizeEnded));
    assert!(!handle.is_dragging());
    assert_eq!(handle.pane(), PaneId(1));
    assert_eq!(handle.axis(), Axis::Horizontal);
}

#[test]
fn idle_handle_ignores_moves_and_releases() {
    let mut handle = ResizeHandle::new(PaneId(1), Axis::Horizontal);
    assert_eq!(handle.handle_pointer(PointerEvent::Move(Point::new(1, 1))), None);
    assert!(!handle.is_dragging());
    assert_eq!(handle.handle_pointer(PointerEvent::Up), None);
    assert!(!handle.is_dragging());
}

#[test]
fn second_press_starts_the_drag_anew() {
    let mut handle = ResizeHandle::new(PaneId(1), Axis::Vertical);
    handle.handle_pointer(PointerEvent::Down(Point::new(0, 0)));
    assert_eq!(
        handle.handle_pointer(PointerEvent::Down(Point::new(5, 9))),
        Some(ResizeEvent::ResizeStarted)
    );
    assert_eq!(
        handle.handle_pointer(PointerEvent::Move(Point::new(5, 12))),
        Some(ResizeEvent::Resizing {
            axis: Axis::Vertical,
            initial_position: Point::new(5, 9),
            position: Point::new(5, 12),
        })
    );
}

#[test]
fn displacement_runs_along_the_axis_of_the_handle() {
    let horizontal = ResizeEvent::Resizing {
        axis: Axis::Horizontal,
        initial_position: Point::new(100, 50),
        position: Point::new(110, 20),
    };
    assert_eq!(horizontal.displacement(), 10);
    let vertical = ResizeEvent::Resizing {
        axis: Axis::Vertical,
        initial_position: Point::new(100, 50),
        position: Point::new(110, 20),
    };
    assert_eq!(vertical.displacement(), -30);
    assert_eq!(ResizeEvent::ResizeStarted.displacement(), 0);
    assert_eq!(ResizeEvent::ResizeEnded.displacement(), 0);
}

#[test]
fn displacement_across_the_whole_coordinate_range() {
    let event = ResizeEvent::Resizing {
        axis: Axis::Horizontal,
        initial_position: Point::new(i32::MIN, 0),
        position: Point::new(i32::MAX, 0),
    };
    assert_eq!(event.displacement(), u32::MAX as i64);
    let back = ResizeEvent::Resizing {
        axis: Axis::Horizontal,
        initial_position: Point::new(i32::MAX, 0),
        position: Point::new(i32::MIN, 0),
    };
    assert_eq!(back.displacement(), -(u32::MAX as i64));
}

#[test]
fn drag_state_compares_by_value() {
    assert_eq!(DragState::Idle, DragState::Idle);
    assert_ne!(DragState::Idle, DragState::Dragging { last_position: Point::new(0, 0) });
}
