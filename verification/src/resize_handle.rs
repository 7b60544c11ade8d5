//! The handle between two neighbouring children of an axis.
//!
//! A handle turns what the pointer does on it into what the layout is asked
//! to do: a press starts a drag, every move while dragging reports how far
//! the pointer went since the move before, a release ends the drag. The
//! handle holds no pane; it only knows which pane it lies behind and along
//! which axis it moves.

pub use crate::geometry::Axis;
use crate::geometry::Point;
use crate::item::ItemHandle;
use crate::pane::{Pane, PaneId};
use vstd::prelude::*;

verus! {

/// What a handle tells the layout.
#[derive(Debug, Clone, Copy, PartialEq, Eq, Structural)]
pub enum ResizeEvent {
    ResizeStarted,
    Resizing {
        axis: Axis,
        /// Where the pointer was at the event before this one.
        initial_position: Point,
        /// Where the pointer is now.
        position: Point,
    },
    ResizeEnded,
}

impl ResizeEvent {
    /// How far the pointer went along the axis of the handle since the
    /// event before; zero for an event that reports no move.
    pub open spec fn spec_displacement(&self) -> int {
        match self {
            ResizeEvent::Resizing { axis, initial_position, position } => position.spec_along(
                *axis,
            ) - initial_position.spec_along(*axis),
            _ => 0,
        }
    }

    /// How far the pointer went along the axis of the handle since the
    /// event before; zero for an event that reports no move.
    pub fn displacement(&self) -> (distance: i64)
        ensures
            distance == self.spec_displacement(),
    {
        match self {
            ResizeEvent::Resizing { axis, initial_position, position } => position.along(*axis) as i64
                - initial_position.along(*axis) as i64,
            _ => 0,
        }
    }
}

/// What the pointer does on a handle.
#[derive(Debug, Clone, Copy, PartialEq, Eq, Structural)]
pub enum PointerEvent {
    /// The button went down at the given position.
    Down(Point),
    /// The pointer moved to the given position.
    Move(Point),
    /// The button went up.
    Up,
}

/// Whether a handle is being dragged.
#[derive(Debug, Clone, Copy, PartialEq, Eq, Structural)]
pub enum DragState {
    Idle,
    Dragging {
        /// Where the pointer was at the last press or move.
        last_position: Point,
    },
}

/// The width of a handle across its axis, in pixels.
pub const HANDLE_WIDTH: u32 = 10;

/// The strip between a pane and the child behind it.
pub struct ResizeHandle {
    pane: PaneId,
    axis: Axis,
    width: u32,
    state: DragState,
}

/// What a handle is, as a mathematical value.
pub struct ResizeHandleView {
    /// The pane that the handle lies behind.
    pub pane: PaneId,
    /// The axis along which the handle moves.
    pub axis: Axis,
    pub width: u32,
    pub state: DragState,
}

impl View for ResizeHandle {
    type V = ResizeHandleView;

    closed spec fn view(&self) -> ResizeHandleView {
        ResizeHandleView { pane: self.pane, axis: self.axis, width: self.width, state: self.state }
    }
}

impl ResizeHandle {
    /// The state of a handle after the pointer did `input` on it.
    pub open spec fn next_state(state: DragState, input: PointerEvent) -> DragState {
        match input {
            PointerEvent::Down(position) => DragState::Dragging { last_position: position },
            PointerEvent::Move(position) => match state {
                DragState::Dragging { .. } => DragState::Dragging { last_position: position },
                DragState::Idle => DragState::Idle,
            },
            PointerEvent::Up => DragState::Idle,
        }
    }

    /// What a handle along `axis` tells the layout when the pointer does
    /// `input` on it: a press starts a drag; a move reports where the
    /// pointer went, and a release ends the drag, if there is one.
    pub open spec fn emitted(axis: Axis, state: DragState, input: PointerEvent) -> Option<
        ResizeEvent,
    > {
        match input {
            PointerEvent::Down(_) => Some(ResizeEvent::ResizeStarted),
            PointerEvent::Move(position) => match state {
                DragState::Dragging { last_position } => Some(
                    ResizeEvent::Resizing { axis, initial_position: last_position, position },
                ),
                DragState::Idle => None,
            },
            PointerEvent::Up => match state {
                DragState::Dragging { .. } => Some(ResizeEvent::ResizeEnded),
                DragState::Idle => None,
            },
        }
    }

    /// An idle handle behind `pane` that moves along `axis`.
    pub fn new(pane: PaneId, axis: Axis) -> (handle: Self)
        ensures
            handle@ == (ResizeHandleView {
                pane,
                axis,
                width: HANDLE_WIDTH,
                state: DragState::Idle,
            }),
    {
        ResizeHandle { pane, axis, width: HANDLE_WIDTH, state: DragState::Idle }
    }

    /// The pane that the handle lies behind.
    pub fn pane(&self) -> (pane: PaneId)
        ensures
            pane == self@.pane,
    {
        self.pane
    }

    /// The axis along which the handle moves.
    pub fn axis(&self) -> (axis: Axis)
        ensures
            axis == self@.axis,
    {
        self.axis
    }

    pub fn width(&self) -> (width: u32)
        ensures
            width == self@.width,
    {
        self.width
    }

    pub fn is_dragging(&self) -> (dragging: bool)
        ensures
            dragging == (self@.state is Dragging),
    {
        match self.state {
            DragState::Dragging { .. } => true,
            DragState::Idle => false,
        }
    }

    /// Takes in what the pointer did, and returns what the handle tells the
    /// layout about it, if anything.
    pub fn handle_pointer(&mut self, input: PointerEvent) -> (event: Option<ResizeEvent>)
        ensures
            event == Self::emitted(old(self)@.axis, old(self)@.state, input),
            final(self)@ == (ResizeHandleView {
                state: Self::next_state(old(self)@.state, input),
                ..old(self)@
            }),
    {
        let event = match input {
            PointerEvent::Down(_) => Some(ResizeEvent::ResizeStarted),
            PointerEvent::Move(position) => match self.state {
                DragState::Dragging { last_position } => Some(
                    ResizeEvent::Resizing {
                        axis: self.axis,
                        initial_position: last_position,
                        position,
                    },
                ),
                DragState::Idle => None,
            },
            PointerEvent::Up => match self.state {
                DragState::Dragging { .. } => Some(ResizeEvent::ResizeEnded),
                DragState::Idle => None,
            },
        };
        self.state = match input {
            PointerEvent::Down(position) => DragState::Dragging { last_position: position },
            PointerEvent::Move(position) => match self.state {
                DragState::Dragging { .. } => DragState::Dragging { last_position: position },
                DragState::Idle => DragState::Idle,
            },
            PointerEvent::Up => DragState::Idle,
        };
        event
    }
}

/// A drag is open exactly from a press to the next release: whatever the
/// handle's state was, it drags after a press and is idle after a release,
/// and a move never opens or ends a drag.
pub proof fn lemma_drag_spans_press_to_release(state: DragState, position: Point)
    ensures
        ResizeHandle::next_state(state, PointerEvent::Down(position)) is Dragging,
        ResizeHandle::next_state(state, PointerEvent::Up) is Idle,
        ResizeHandle::next_state(state, PointerEvent::Move(position)) is Dragging <==> state
            is Dragging,
{
}

/// An idle handle reports no move and no end of a drag.
pub proof fn lemma_idle_handle_is_silent(axis: Axis, position: Point)
    ensures
        ResizeHandle::emitted(axis, DragState::Idle, PointerEvent::Move(position)) is None,
        ResizeHandle::emitted(axis, DragState::Idle, PointerEvent::Up) is None,
{
}

impl<I: ItemHandle> Pane<I> {
    /// What a pane passes on to its listeners when a drag of its handle
    /// starts: that a resize has started, whatever `event` was. The pane
    /// stays as it is.
    pub fn handle_resize_start(&mut self, event: &ResizeEvent) -> (emitted: ResizeEvent)
        ensures
            emitted == ResizeEvent::ResizeStarted,
            *final(self) == *old(self),
    {
        ResizeEvent::ResizeStarted
    }

    /// What a pane passes on to its listeners while its handle is dragged:
    /// `event` itself if it reports a move, and nothing otherwise. The pane
    /// stays as it is.
    pub fn handle_resizing(&mut self, event: &ResizeEvent) -> (emitted: Option<ResizeEvent>)
        ensures
            emitted == if *event is Resizing {
                Some(*event)
            } else {
                None
            },
            *final(self) == *old(self),
    {
        match event {
            ResizeEvent::Resizing { .. } => Some(*event),
            _ => None,
        }
    }

    /// What a pane passes on to its listeners when a drag of its handle
    /// ends: that the resize has ended, whatever `event` was. The pane stays
    /// as it is.
    pub fn handle_resize_end(&mut self, event: &ResizeEvent) -> (emitted: ResizeEvent)
        ensures
            emitted == ResizeEvent::ResizeEnded,
            *final(self) == *old(self),
    {
        ResizeEvent::ResizeEnded
    }
}

} // verus!
