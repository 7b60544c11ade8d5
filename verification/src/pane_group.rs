//! The pane tree: panes arranged by nested horizontal and vertical splits.
//!
//! A `Member` is a node of the tree: a single `Pane`, or a `PaneAxis` that
//! lays several members out side by side (or one above the other). A
//! `PaneGroup` owns the root of one such tree.
//!
//! An axis keeps three sequences in step: its children, one flex weight for
//! each child, and for each child the rectangle that the last layout pass
//! gave it (`None` until there was one).

use crate::geometry::{lemma_slice_contains, Axis, Bounds, Point};
use crate::item::ItemHandle;
use crate::layout::{
    child_bounds, child_offset, flexes_valid, lemma_child_offset_monotone, lemma_children_cover,
    lemma_children_disjoint, lemma_flex_prefix_monotone, lemma_shifted_pair_valid,
    place_children, shift_pair, shifted_pair, FLEX_ONE, MIN_FLEX,
};
use crate::pane::{Pane, PaneId};
use crate::resize_handle::{PointerEvent, ResizeEvent, ResizeHandle, ResizeHandleView};
use vstd::prelude::*;

verus! {

/// The side of a pane on which a new pane opens.
#[derive(Debug, Clone, Copy, PartialEq, Eq, Structural)]
pub enum SplitDirection {
    Left,
    Right,
    Up,
    Down,
}

impl SplitDirection {
    /// The axis along which the two panes lie after the split.
    pub open spec fn spec_axis(&self) -> Axis {
        match self {
            SplitDirection::Left | SplitDirection::Right => Axis::Horizontal,
            SplitDirection::Up | SplitDirection::Down => Axis::Vertical,
        }
    }

    /// Whether the new pane comes after the pane that is split.
    pub open spec fn spec_increasing(&self) -> bool {
        matches!(self, SplitDirection::Right | SplitDirection::Down)
    }

    /// The axis along which the two panes lie after the split.
    #[verifier::when_used_as_spec(spec_axis)]
    pub fn axis(&self) -> (axis: Axis)
        ensures
            axis == self.spec_axis(),
    {
        match self {
            SplitDirection::Left | SplitDirection::Right => Axis::Horizontal,
            SplitDirection::Up | SplitDirection::Down => Axis::Vertical,
        }
    }

    /// Whether the new pane comes after the pane that is split.
    #[verifier::when_used_as_spec(spec_increasing)]
    pub fn increasing(&self) -> (increasing: bool)
        ensures
            increasing == self.spec_increasing(),
    {
        matches!(self, SplitDirection::Right | SplitDirection::Down)
    }
}

/// Why a change of the pane tree was refused.
#[derive(Debug, Clone, Copy, PartialEq, Eq, Structural)]
pub enum PaneError {
    /// No pane with the given identity is among the members searched.
    PaneNotFound,
    /// The split would run across the axis of the members it was asked of.
    AxisMismatch,
}

impl PaneError {
    /// The text of this error.
    pub fn message(&self) -> (text: String)
        ensures
            text@ == match self {
                PaneError::PaneNotFound => "Pane not found"@,
                PaneError::AxisMismatch => "Cannot split in different axis direction"@,
            },
    {
        match self {
            PaneError::PaneNotFound => "Pane not found".to_string(),
            PaneError::AxisMismatch => "Cannot split in different axis direction".to_string(),
        }
    }
}

/// A node of the pane tree.
pub enum Member<I: ItemHandle> {
    Axis(PaneAxis<I>),
    Pane(Pane<I>),
}

/// Members laid out along one axis.
pub struct PaneAxis<I: ItemHandle> {
    axis: Axis,
    members: Vec<Member<I>>,
    flexes: Vec<u32>,
    bounding_boxes: Vec<Option<Bounds>>,
}

/// What an axis is, as a mathematical value.
pub struct PaneAxisView<I: ItemHandle> {
    pub axis: Axis,
    /// The children, in the order in which they are laid out.
    pub members: Seq<Member<I>>,
    /// The flex weight of each child.
    pub flexes: Seq<u32>,
    /// The rectangle that the last layout pass gave each child.
    pub bounding_boxes: Seq<Option<Bounds>>,
}

impl<I: ItemHandle> View for PaneAxis<I> {
    type V = PaneAxisView<I>;

    closed spec fn view(&self) -> PaneAxisView<I> {
        PaneAxisView {
            axis: self.axis,
            members: self.members@,
            flexes: self.flexes@,
            bounding_boxes: self.bounding_boxes@,
        }
    }
}

/// The index of the first member at or behind `from` that is the pane `id`
/// itself. Panes inside a nested axis are not looked at.
pub open spec fn leaf_index_from<I: ItemHandle>(
    members: Seq<Member<I>>,
    id: PaneId,
    from: int,
) -> Option<int>
    decreases members.len() - from,
{
    if from < 0 || from >= members.len() {
        None
    } else if members[from].is_leaf(id) {
        Some(from)
    } else {
        leaf_index_from(members, id, from + 1)
    }
}

/// The index of the first member that is the pane `id` itself.
pub open spec fn leaf_index<I: ItemHandle>(members: Seq<Member<I>>, id: PaneId) -> Option<int> {
    leaf_index_from(members, id, 0)
}

/// The index of the first rectangle at or behind `from` that holds `point`.
pub open spec fn box_index_from(boxes: Seq<Option<Bounds>>, point: Point, from: int) -> Option<
    int,
>
    decreases boxes.len() - from,
{
    if from < 0 || from >= boxes.len() {
        None
    } else if boxes[from] matches Some(b) && b.contains(point) {
        Some(from)
    } else {
        box_index_from(boxes, point, from + 1)
    }
}

impl<I: ItemHandle> Member<I> {
    /// Whether this member is the pane `id` itself.
    pub open spec fn is_leaf(&self, id: PaneId) -> bool {
        self matches Member::Pane(pane) && pane@.id == id
    }

    /// Whether every pane and every axis below this member is well formed.
    pub open spec fn wf(&self) -> bool
        decreases self,
    {
        match self {
            Member::Pane(pane) => pane.wf(),
            Member::Axis(axis) => axis.wf(),
        }
    }

    /// Whether this member is what `before` becomes when it is laid out in
    /// `bounds`: a pane stays as it is, an axis is laid out anew.
    pub open spec fn relaid(&self, before: Member<I>, bounds: Bounds) -> bool
        decreases self,
    {
        match self {
            Member::Pane(_) => *self == before,
            Member::Axis(axis) => before matches Member::Axis(axis_before) && axis.relaid(
                axis_before@,
                bounds,
            ),
        }
    }

    /// The first zoomed pane at or below this member, in the order of the
    /// tree.
    pub open spec fn zoomed(&self) -> Option<Pane<I>>
        decreases self, 0nat,
    {
        match self {
            Member::Pane(pane) => if pane@.zoomed {
                Some(*pane)
            } else {
                None
            },
            Member::Axis(axis) => axis.zoomed_from(0),
        }
    }

    /// The first zoomed pane at or below this member, in the order of the
    /// tree.
    pub fn zoomed_pane(&self) -> (pane: Option<&Pane<I>>)
        ensures
            match pane {
                Some(found) => self.zoomed() == Some(*found),
                None => self.zoomed() is None,
            },
        decreases self,
    {
        match self {
            Member::Pane(pane) => if pane.is_zoomed() {
                Some(pane)
            } else {
                None
            },
            Member::Axis(axis) => axis.zoomed_pane(),
        }
    }

    /// The pane that the last layout pass put at `point`, if this member
    /// is asked: a pane answers with itself, an axis looks among its
    /// children.
    pub open spec fn pane_at(&self, point: Point) -> Option<Pane<I>>
        decreases self,
    {
        match self {
            Member::Pane(pane) => Some(*pane),
            Member::Axis(axis) => axis.pane_at(point),
        }
    }

    /// The axis that a split of `old_pane` in `direction` makes of it and
    /// `new_pane`: two children along the axis of the direction, the old
    /// pane first when the direction is increasing and second otherwise,
    /// each with the weight 1 and no rectangle yet.
    pub open spec fn axis_of_split(
        old_pane: Pane<I>,
        new_pane: Pane<I>,
        direction: SplitDirection,
    ) -> PaneAxisView<I> {
        PaneAxisView {
            axis: direction.spec_axis(),
            members: if direction.spec_increasing() {
                seq![Member::Pane(old_pane), Member::Pane(new_pane)]
            } else {
                seq![Member::Pane(new_pane), Member::Pane(old_pane)]
            },
            flexes: seq![FLEX_ONE, FLEX_ONE],
            bounding_boxes: seq![None, None],
        }
    }

    /// Splits the leaf `old_pane`: the axis that holds it and `new_pane`.
    pub fn new_axis(
        old_pane: Pane<I>,
        new_pane: Pane<I>,
        direction: SplitDirection,
    ) -> (member: Self)
        requires
            old_pane.wf(),
            new_pane.wf(),
        ensures
            member.wf(),
            member matches Member::Axis(axis) && axis@ == Self::axis_of_split(
                old_pane,
                new_pane,
                direction,
            ),
    {
        let axis: Axis = direction.axis();
        let mut members: Vec<Member<I>> = Vec::new();
        if direction.increasing() {
            members.push(Member::Pane(old_pane));
            members.push(Member::Pane(new_pane));
        } else {
            members.push(Member::Pane(new_pane));
            members.push(Member::Pane(old_pane));
        }
        let created = PaneAxis::new(axis, members);
        assert(created@.flexes =~= seq![FLEX_ONE, FLEX_ONE]);
        assert(created@.bounding_boxes =~= seq![None, None]);
        assert(created@.members =~= Self::axis_of_split(old_pane, new_pane, direction).members);
        Member::Axis(created)
    }

    /// Lays this member out in `bounds`. A pane keeps no rectangle of its
    /// own and stays as it is; an axis places its children.
    pub fn mark_positions(&mut self, bounds: Bounds)
        requires
            old(self).wf(),
        ensures
            final(self).wf(),
            final(self).relaid(*old(self), bounds),
    {
        match self {
            Member::Pane(_) => {},
            Member::Axis(axis) => axis.mark_positions(bounds),
        }
    }
}

impl<I: ItemHandle> PaneAxis<I> {
    /// The three sequences are in step, every weight is valid, and every
    /// child is well formed.
    pub open spec fn wf(&self) -> bool
        decreases self,
    {
        &&& self@.members.len() == self@.flexes.len()
        &&& self@.members.len() == self@.bounding_boxes.len()
        &&& flexes_valid(self@.flexes)
        &&& forall|i: int| 0 <= i < self@.members.len() ==> (#[trigger] self@.members[i]).wf()
    }

    /// The index at which a split in `direction` puts the new pane, when
    /// the pane that is split stands at `index`.
    pub open spec fn insert_index(index: int, direction: SplitDirection) -> int {
        if direction.spec_increasing() {
            index + 1
        } else {
            index
        }
    }

    /// The axis `before` with the pane `new_pane` put in at `index`, with
    /// the weight 1 and no rectangle yet.
    pub open spec fn with_pane_at(
        before: PaneAxisView<I>,
        index: int,
        new_pane: Pane<I>,
    ) -> PaneAxisView<I> {
        PaneAxisView {
            axis: before.axis,
            members: before.members.insert(index, Member::Pane(new_pane)),
            flexes: before.flexes.insert(index, FLEX_ONE),
            bounding_boxes: before.bounding_boxes.insert(index, None),
        }
    }

    /// The axis `before` without its child at `index`.
    pub open spec fn without(before: PaneAxisView<I>, index: int) -> PaneAxisView<I> {
        PaneAxisView {
            axis: before.axis,
            members: before.members.remove(index),
            flexes: before.flexes.remove(index),
            bounding_boxes: before.bounding_boxes.remove(index),
        }
    }

    /// What splitting the pane `old_pane_id` of the axis `before` comes to:
    /// the axis with the new pane beside that pane, or the reason why the
    /// axis stays as it is. Only the axis's own children are searched for
    /// the pane.
    pub open spec fn split_outcome(
        before: PaneAxisView<I>,
        old_pane_id: PaneId,
        new_pane: Pane<I>,
        direction: SplitDirection,
    ) -> Result<PaneAxisView<I>, PaneError> {
        match leaf_index(before.members, old_pane_id) {
            None => Err(PaneError::PaneNotFound),
            Some(index) => if direction.spec_axis() != before.axis {
                Err(PaneError::AxisMismatch)
            } else {
                Ok(Self::with_pane_at(before, Self::insert_index(index, direction), new_pane))
            },
        }
    }

    /// An axis over `members`, each with the weight 1 and no rectangle yet.
    pub fn new(axis: Axis, members: Vec<Member<I>>) -> (created: Self)
        requires
            forall|i: int| 0 <= i < members@.len() ==> (#[trigger] members@[i]).wf(),
        ensures
            created.wf(),
            created@.axis == axis,
            created@.members == members@,
            created@.flexes == Seq::new(members@.len(), |i: int| FLEX_ONE),
            created@.bounding_boxes == Seq::new(members@.len(), |i: int| None::<Bounds>),
    {
        let count: usize = members.len();
        let mut flexes: Vec<u32> = Vec::new();
        let mut bounding_boxes: Vec<Option<Bounds>> = Vec::new();
        let mut i: usize = 0;
        while i < count
            invariant
                i <= count,
                flexes@ == Seq::new(i as nat, |k: int| FLEX_ONE),
                bounding_boxes@ == Seq::new(i as nat, |k: int| None::<Bounds>),
            decreases count - i,
        {
            flexes.push(FLEX_ONE);
            bounding_boxes.push(None);
            i += 1;
        }
        PaneAxis { axis, members, flexes, bounding_boxes }
    }

    /// The axis along which the children are laid out.
    pub fn axis(&self) -> (axis: Axis)
        ensures
            axis == self@.axis,
    {
        self.axis
    }

    /// The children, in the order in which they are laid out.
    pub fn members(&self) -> (members: &Vec<Member<I>>)
        ensures
            members@ == self@.members,
    {
        &self.members
    }

    /// The flex weight of each child.
    pub fn flexes(&self) -> (flexes: &Vec<u32>)
        ensures
            flexes@ == self@.flexes,
    {
        &self.flexes
    }

    /// The rectangle that the last layout pass gave each child.
    pub fn bounding_boxes(&self) -> (boxes: &Vec<Option<Bounds>>)
        ensures
            boxes@ == self@.bounding_boxes,
    {
        &self.bounding_boxes
    }

    /// The index of the first child that is the pane `pane_id` itself.
    pub fn position_of(&self, pane_id: PaneId) -> (position: Option<usize>)
        ensures
            match position {
                Some(index) => leaf_index(self@.members, pane_id) == Some(index as int) && index
                    < self@.members.len(),
                None => leaf_index(self@.members, pane_id) is None,
            },
    {
        let mut i: usize = 0;
        while i < self.members.len()
            invariant
                i <= self.members.len(),
                leaf_index(self@.members, pane_id) == leaf_index_from(
                    self@.members,
                    pane_id,
                    i as int,
                ),
            decreases self.members.len() - i,
        {
            match &self.members[i] {
                Member::Pane(pane) => {
                    if pane.id() == pane_id {
                        return Some(i);
                    }
                },
                Member::Axis(_) => {},
            }
            i += 1;
        }
        None
    }

    /// The pane `pane_id` among the axis's own children.
    pub fn pane(&self, pane_id: PaneId) -> (pane: Option<&Pane<I>>)
        ensures
            match pane {
                Some(found) => leaf_index(self@.members, pane_id) matches Some(index)
                    && self@.members[index] == Member::Pane(*found),
                None => leaf_index(self@.members, pane_id) is None,
            },
    {
        match self.position_of(pane_id) {
            Some(index) => {
                proof {
                    lemma_leaf_index_is_first(self@.members, pane_id, 0);
                }
                match &self.members[index] {
                    Member::Pane(pane) => Some(pane),
                    Member::Axis(_) => None,
                }
            },
            None => None,
        }
    }

    /// The pane `pane_id` among the axis's own children, to be changed in
    /// its place. What the caller makes of the pane is what the axis then
    /// holds; nothing else of the axis changes.
    pub fn pane_mut(&mut self, pane_id: PaneId) -> (pane: Option<&mut Pane<I>>)
        ensures
            match pane {
                Some(found) => leaf_index(old(self)@.members, pane_id) matches Some(index)
                    && old(self)@.members[index] == Member::Pane(*found) && final(self)@ == (
                PaneAxisView {
                    members: old(self)@.members.update(index, Member::Pane(*final(found))),
                    ..old(self)@
                }),
                None => leaf_index(old(self)@.members, pane_id) is None && *final(self) == *old(
                    self,
                ),
            },
    {
        match self.position_of(pane_id) {
            Some(index) => {
                proof {
                    lemma_leaf_index_is_first(self@.members, pane_id, 0);
                }
                match &mut self.members[index] {
                    Member::Pane(pane) => Some(pane),
                    Member::Axis(_) => None,
                }
            },
            None => None,
        }
    }

    /// Opens `new_pane` beside the pane `old_pane_id`: behind it when
    /// `direction` is increasing, before it otherwise.
    ///
    /// Only the axis's own children are searched. The split is refused with
    /// `PaneNotFound` when the pane is not among them, and with
    /// `AxisMismatch` when it is but `direction` runs across this axis. A
    /// refused split changes nothing.
    pub fn split(
        &mut self,
        old_pane_id: PaneId,
        new_pane: Pane<I>,
        direction: SplitDirection,
    ) -> (result: Result<(), PaneError>)
        requires
            old(self).wf(),
            new_pane.wf(),
        ensures
            final(self).wf(),
            match Self::split_outcome(old(self)@, old_pane_id, new_pane, direction) {
                Ok(after) => result is Ok && final(self)@ == after,
                Err(reason) => result == Err::<(), PaneError>(reason) && *final(self) == *old(self),
            },
            result is Ok ==> {
                &&& final(self)@.members.len() == old(self)@.members.len() + 1
                &&& final(self)@.flexes.len() == final(self)@.members.len()
                &&& final(self)@.bounding_boxes.len() == final(self)@.members.len()
            },
    {
        match self.position_of(old_pane_id) {
            None => Err(PaneError::PaneNotFound),
            Some(index) => {
                if direction.axis() != self.axis {
                    return Err(PaneError::AxisMismatch);
                }
                assert(index < self.members.len());
                let insert_at: usize = if direction.increasing() {
                    index + 1
                } else {
                    index
                };
                self.members.insert(insert_at, Member::Pane(new_pane));
                self.flexes.insert(insert_at, FLEX_ONE);
                self.bounding_boxes.insert(insert_at, None);
                Ok(())
            },
        }
    }

    /// Takes the pane `pane_id` out of the axis, with its weight and its
    /// rectangle, and says whether there was such a pane. Only the axis's
    /// own children are searched; where several are that pane, the first
    /// one goes.
    pub fn remove(&mut self, pane_id: PaneId) -> (removed: bool)
        requires
            old(self).wf(),
        ensures
            final(self).wf(),
            match leaf_index(old(self)@.members, pane_id) {
                Some(index) => removed && final(self)@ == Self::without(old(self)@, index),
                None => !removed && *final(self) == *old(self),
            },
    {
        match self.position_of(pane_id) {
            Some(index) => {
                let _ = self.members.remove(index);
                let _ = self.flexes.remove(index);
                let _ = self.bounding_boxes.remove(index);
                true
            },
            None => false,
        }
    }

    /// The rectangle that the last layout pass gave the pane `pane_id`:
    /// `None` when the pane is not among the axis's own children, or when no
    /// layout pass has placed it yet.
    pub open spec fn cached_bounds(&self, pane_id: PaneId) -> Option<Bounds> {
        match leaf_index(self@.members, pane_id) {
            Some(index) => if index < self@.bounding_boxes.len() {
                self@.bounding_boxes[index]
            } else {
                None
            },
            None => None,
        }
    }

    /// The rectangle that the last layout pass gave the pane `pane_id`.
    pub fn bounding_box_for_pane(&self, pane_id: PaneId) -> (bounds: Option<Bounds>)
        ensures
            bounds == self.cached_bounds(pane_id),
    {
        match self.position_of(pane_id) {
            Some(index) => {
                if index < self.bounding_boxes.len() {
                    self.bounding_boxes[index]
                } else {
                    None
                }
            },
            None => None,
        }
    }

    /// Whether this axis is what the axis `before` becomes when it is laid
    /// out in `bounds`: the same axis, weights and panes, where every child
    /// has its share of `bounds` as its rectangle, and every nested axis is
    /// laid out in its own rectangle in the same way.
    pub open spec fn relaid(&self, before: PaneAxisView<I>, bounds: Bounds) -> bool
        decreases self,
    {
        &&& self@.axis == before.axis
        &&& self@.flexes == before.flexes
        &&& self@.members.len() == before.members.len()
        &&& self@.bounding_boxes.len() == before.members.len()
        &&& forall|i: int|
            0 <= i < self@.members.len() ==> #[trigger] self@.bounding_boxes[i] == Some(
                child_bounds(bounds, self@.axis, self@.flexes, i),
            )
        &&& forall|i: int|
            0 <= i < self@.members.len() ==> (#[trigger] self@.members[i]).relaid(
                before.members[i],
                child_bounds(bounds, self@.axis, self@.flexes, i),
            )
    }

    /// The pane that the last layout pass put at `point`: the answer of the
    /// first child whose rectangle holds the point. `None` when no child's
    /// rectangle holds it.
    pub open spec fn pane_at(&self, point: Point) -> Option<Pane<I>>
        decreases self,
    {
        match box_index_from(self@.bounding_boxes, point, 0) {
            Some(index) => if 0 <= index < self@.members.len() {
                self@.members[index].pane_at(point)
            } else {
                None
            },
            None => None,
        }
    }

    /// The first zoomed pane at or below the children at or behind `from`,
    /// in the order of the tree.
    pub open spec fn zoomed_from(&self, from: int) -> Option<Pane<I>>
        decreases self, self@.members.len() - from,
    {
        if from < 0 || from >= self@.members.len() {
            None
        } else {
            match self@.members[from].zoomed() {
                Some(pane) => Some(pane),
                None => self.zoomed_from(from + 1),
            }
        }
    }

    /// The first zoomed pane at or below this axis, in the order of the
    /// tree.
    pub fn zoomed_pane(&self) -> (pane: Option<&Pane<I>>)
        ensures
            match pane {
                Some(found) => self.zoomed_from(0) == Some(*found),
                None => self.zoomed_from(0) is None,
            },
        decreases self,
    {
        let mut i: usize = 0;
        while i < self.members.len()
            invariant
                i <= self.members.len(),
                self.zoomed_from(0) == self.zoomed_from(i as int),
            decreases self.members.len() - i,
        {
            match self.members[i].zoomed_pane() {
                Some(found) => {
                    return Some(found);
                },
                None => {},
            }
            i += 1;
        }
        None
    }

    /// The index of the first child whose rectangle holds `point`.
    fn box_position(&self, point: Point) -> (position: Option<usize>)
        ensures
            match position {
                Some(index) => box_index_from(self@.bounding_boxes, point, 0) == Some(
                    index as int,
                ) && index < self@.bounding_boxes.len(),
                None => box_index_from(self@.bounding_boxes, point, 0) is None,
            },
    {
        let mut i: usize = 0;
        while i < self.bounding_boxes.len()
            invariant
                i <= self.bounding_boxes.len(),
                box_index_from(self@.bounding_boxes, point, 0) == box_index_from(
                    self@.bounding_boxes,
                    point,
                    i as int,
                ),
            decreases self.bounding_boxes.len() - i,
        {
            match self.bounding_boxes[i] {
                Some(bounds) => {
                    if bounds.contains(point) {
                        return Some(i);
                    }
                },
                None => {},
            }
            i += 1;
        }
        None
    }

    /// The pane at `point`, by the rectangles of the last layout pass. The
    /// children are asked in order; the first whose rectangle holds the
    /// point answers, a nested axis by looking among its own children.
    pub fn pane_at_pixel_position(&self, point: Point) -> (pane: Option<&Pane<I>>)
        ensures
            match pane {
                Some(found) => self.pane_at(point) == Some(*found),
                None => self.pane_at(point) is None,
            },
        decreases self,
    {
        match self.box_position(point) {
            Some(index) => {
                if index < self.members.len() {
                    match &self.members[index] {
                        Member::Pane(pane) => Some(pane),
                        Member::Axis(axis) => axis.pane_at_pixel_position(point),
                    }
                } else {
                    None
                }
            },
            None => None,
        }
    }

    /// Lays the axis out in `bounds`: gives every child its rectangle, and
    /// lays every nested axis out in the rectangle it was given.
    ///
    /// The children share the extent of `bounds` along the axis in
    /// proportion to their weights, in order and without gaps; across the
    /// axis every child spans what `bounds` spans.
    pub fn mark_positions(&mut self, bounds: Bounds)
        requires
            old(self).wf(),
        ensures
            final(self).wf(),
            final(self).relaid(old(self)@, bounds),
        decreases *old(self),
    {
        let count: usize = self.members.len();
        let rectangles: Vec<Bounds> = place_children(bounds, self.axis, &self.flexes);
        let mut i: usize = 0;
        while i < count
            invariant
                i <= count,
                count == self.members.len(),
                count == self.flexes.len(),
                count == self.bounding_boxes.len(),
                count == rectangles.len(),
                self.axis == old(self).axis,
                self.flexes@ == old(self).flexes@,
                self.members@.len() == old(self).members@.len(),
                forall|j: int|
                    0 <= j < count ==> #[trigger] rectangles@[j] == child_bounds(
                        bounds,
                        self.axis,
                        self.flexes@,
                        j,
                    ),
                forall|j: int|
                    0 <= j < i ==> #[trigger] self.bounding_boxes@[j] == Some(rectangles@[j]),
                forall|j: int|
                    0 <= j < i ==> {
                        &&& (#[trigger] self.members@[j]).relaid(
                            old(self).members@[j],
                            rectangles@[j],
                        )
                        &&& self.members@[j].wf()
                    },
                forall|j: int|
                    i <= j < count ==> #[trigger] self.members@[j] == old(self).members@[j],
                forall|j: int| 0 <= j < count ==> (#[trigger] old(self).members@[j]).wf(),
            decreases count - i,
        {
            let child: Bounds = rectangles[i];
            self.bounding_boxes[i] = Some(child);
            match &mut self.members[i] {
                Member::Axis(nested) => {
                    nested.mark_positions(child);
                },
                Member::Pane(_) => {},
            }
            i += 1;
        }
    }

    /// The number of pixels that the children at `index` and behind it
    /// span together along the axis, by the rectangles of the last layout
    /// pass; zero while one of the two has no rectangle.
    pub open spec fn pair_extent(before: PaneAxisView<I>, index: int) -> nat {
        match (before.bounding_boxes[index], before.bounding_boxes[index + 1]) {
            (Some(first), Some(second)) => first.spec_extent(before.axis) + second.spec_extent(
                before.axis,
            ),
            _ => 0,
        }
    }

    /// What dragging the handle behind the pane `pane_id` by `displacement`
    /// pixels along `axis` comes to: the axis with weight moved between
    /// that pane and the child behind it, or the reason why the axis stays
    /// as it is.
    pub open spec fn resize_outcome(
        before: PaneAxisView<I>,
        pane_id: PaneId,
        axis: Axis,
        displacement: int,
    ) -> Result<PaneAxisView<I>, PaneError> {
        match leaf_index(before.members, pane_id) {
            None => Err(PaneError::PaneNotFound),
            Some(index) => if index + 1 >= before.members.len() {
                Err(PaneError::PaneNotFound)
            } else if axis != before.axis {
                Err(PaneError::AxisMismatch)
            } else {
                let pair = shifted_pair(
                    before.flexes[index],
                    before.flexes[index + 1],
                    displacement,
                    Self::pair_extent(before, index),
                );
                Ok(
                    PaneAxisView {
                        flexes: before.flexes.update(index, pair.0).update(index + 1, pair.1),
                        ..before
                    },
                )
            },
        }
    }

    /// Applies a drag of the handle that lies behind the pane `pane_id`:
    /// moves weight between that pane and the child behind it, as much as
    /// `displacement` pixels are of what the two span, and no more than
    /// leaves both weights strictly above the threshold.
    ///
    /// A drag towards the end of the axis has a displacement above zero and
    /// grows the pane. The drag is refused with `PaneNotFound` when the pane
    /// is not among the axis's own children or is the last of them, and with
    /// `AxisMismatch` when the handle runs along another axis. A refused
    /// drag changes nothing. The rectangles stay as they are until the next
    /// layout pass.
    pub fn resize(&mut self, pane_id: PaneId, axis: Axis, displacement: i64) -> (result: Result<
        (),
        PaneError,
    >)
        requires
            old(self).wf(),
        ensures
            final(self).wf(),
            match Self::resize_outcome(old(self)@, pane_id, axis, displacement as int) {
                Ok(after) => result is Ok && final(self)@ == after,
                Err(reason) => result == Err::<(), PaneError>(reason) && *final(self) == *old(self),
            },
    {
        match self.position_of(pane_id) {
            None => Err(PaneError::PaneNotFound),
            Some(index) => {
                assert(index < self.members.len());
                if index + 1 >= self.members.len() {
                    return Err(PaneError::PaneNotFound);
                }
                if axis != self.axis {
                    return Err(PaneError::AxisMismatch);
                }
                let pair_extent: u64 = match (
                    self.bounding_boxes[index],
                    self.bounding_boxes[index + 1],
                ) {
                    (Some(first), Some(second)) => first.extent(axis) as u64 + second.extent(
                        axis,
                    ) as u64,
                    _ => 0,
                };
                let first: u32 = self.flexes[index];
                let second: u32 = self.flexes[index + 1];
                assert(self.flexes@[index as int] > MIN_FLEX);
                assert(self.flexes@[index as int + 1] > MIN_FLEX);
                let pair = shift_pair(first, second, displacement, pair_extent);
                proof {
                    lemma_shifted_pair_valid(first, second, displacement as int, pair_extent as nat);
                }
                self.flexes[index] = pair.0;
                self.flexes[index + 1] = pair.1;
                Ok(())
            },
        }
    }

    /// The first child, if it is a pane.
    pub fn root_pane(&self) -> (pane: Option<&Pane<I>>)
        ensures
            match pane {
                Some(first) => self@.members.len() > 0 && self@.members[0] == Member::Pane(
                    *first,
                ),
                None => self@.members.len() == 0 || self@.members[0] is Axis,
            },
    {
        if self.members.len() == 0 {
            return None;
        }
        match &self.members[0] {
            Member::Pane(pane) => Some(pane),
            Member::Axis(_) => None,
        }
    }
}

/// Splitting a leaf makes an axis of two children along the axis of the
/// direction: the old pane first and the new pane second where the
/// direction is increasing, the other way round where it is not; both with
/// the weight 1, and neither with a rectangle yet.
pub proof fn lemma_leaf_split_shape<I: ItemHandle>(
    old_pane: Pane<I>,
    new_pane: Pane<I>,
    direction: SplitDirection,
)
    ensures
        ({
            let made = Member::axis_of_split(old_pane, new_pane, direction);
            &&& made.axis == direction.spec_axis()
            &&& made.members.len() == 2
            &&& made.flexes.len() == 2
            &&& made.bounding_boxes.len() == 2
            &&& made.flexes[0] == FLEX_ONE
            &&& made.flexes[1] == FLEX_ONE
            &&& made.bounding_boxes[0] is None
            &&& made.bounding_boxes[1] is None
            &&& direction.spec_increasing() ==> made.members[0] == Member::Pane(old_pane)
                && made.members[1] == Member::Pane(new_pane)
            &&& !direction.spec_increasing() ==> made.members[0] == Member::Pane(new_pane)
                && made.members[1] == Member::Pane(old_pane)
        }),
{
}

/// Asking an axis for the rectangle of a pane changes nothing, and the
/// answer is read off the axis alone: as long as the axis is the same,
/// the answer to the same question is the same.
pub proof fn lemma_bounding_box_is_stable<I: ItemHandle>(
    first: PaneAxis<I>,
    second: PaneAxis<I>,
    pane_id: PaneId,
)
    requires
        first@ == second@,
    ensures
        first.cached_bounds(pane_id) == second.cached_bounds(pane_id),
{
}

/// A split that succeeds keeps the three sequences of an axis in step and
/// makes each of them longer by one; everything that was there before is
/// still there, in its order, around the new pane.
pub proof fn lemma_split_keeps_lockstep<I: ItemHandle>(
    before: PaneAxisView<I>,
    old_pane_id: PaneId,
    new_pane: Pane<I>,
    direction: SplitDirection,
)
    requires
        before.members.len() == before.flexes.len(),
        before.members.len() == before.bounding_boxes.len(),
        PaneAxis::split_outcome(before, old_pane_id, new_pane, direction) is Ok,
    ensures
        ({
            let after = PaneAxis::split_outcome(before, old_pane_id, new_pane, direction)->Ok_0;
            let index = leaf_index(before.members, old_pane_id)->Some_0;
            let at = PaneAxis::<I>::insert_index(index, direction);
            &&& after.members.len() == before.members.len() + 1
            &&& after.flexes.len() == after.members.len()
            &&& after.bounding_boxes.len() == after.members.len()
            &&& after.axis == before.axis
            &&& 0 <= index < before.members.len()
            &&& before.members[index].is_leaf(old_pane_id)
            &&& after.members[at] == Member::Pane(new_pane)
            &&& after.flexes[at] == FLEX_ONE
            &&& after.bounding_boxes[at] is None
            &&& forall|k: int|
                0 <= k < at ==> after.members[k] == before.members[k] && after.flexes[k]
                    == before.flexes[k] && after.bounding_boxes[k] == before.bounding_boxes[k]
            &&& forall|k: int|
                at <= k < before.members.len() ==> after.members[k + 1] == before.members[k]
                    && after.flexes[k + 1] == before.flexes[k] && after.bounding_boxes[k + 1]
                    == before.bounding_boxes[k]
        }),
{
    lemma_leaf_index_is_first(before.members, old_pane_id, 0);
}

/// What `leaf_index_from` finds is a pane with the identity asked for, and
/// no member between `from` and it is; where it finds nothing, no member
/// at or behind `from` is that pane.
pub proof fn lemma_leaf_index_is_first<I: ItemHandle>(
    members: Seq<Member<I>>,
    id: PaneId,
    from: int,
)
    requires
        0 <= from,
    ensures
        match leaf_index_from(members, id, from) {
            Some(index) => {
                &&& from <= index < members.len()
                &&& members[index].is_leaf(id)
                &&& forall|k: int| from <= k < index ==> !(#[trigger] members[k]).is_leaf(id)
            },
            None => forall|k: int| from <= k < members.len() ==> !(#[trigger] members[k]).is_leaf(id),
        },
    decreases members.len() - from,
{
    if from < members.len() && !members[from].is_leaf(id) {
        lemma_leaf_index_is_first(members, id, from + 1);
    }
}

/// A pane that is none of the children of an axis is not found among them,
/// so that `remove` refuses it and leaves the axis as it is.
pub proof fn lemma_absent_pane_is_not_found<I: ItemHandle>(
    before: PaneAxisView<I>,
    pane_id: PaneId,
)
    requires
        forall|k: int| 0 <= k < before.members.len() ==> !(#[trigger] before.members[k]).is_leaf(
            pane_id,
        ),
    ensures
        leaf_index(before.members, pane_id) is None,
{
    lemma_leaf_index_is_first(before.members, pane_id, 0);
}

/// What `box_index_from` finds is a rectangle that holds the point, and no
/// rectangle between `from` and it does; where it finds nothing, no
/// rectangle at or behind `from` holds the point.
pub proof fn lemma_box_index_is_first(boxes: Seq<Option<Bounds>>, point: Point, from: int)
    requires
        0 <= from,
    ensures
        match box_index_from(boxes, point, from) {
            Some(index) => {
                &&& from <= index < boxes.len()
                &&& boxes[index] matches Some(found) && found.contains(point)
                &&& forall|k: int|
                    from <= k < index ==> !((#[trigger] boxes[k]) matches Some(other)
                        && other.contains(point))
            },
            None => forall|k: int|
                from <= k < boxes.len() ==> !((#[trigger] boxes[k]) matches Some(other)
                    && other.contains(point)),
        },
    decreases boxes.len() - from,
{
    if from < boxes.len() && !(boxes[from] matches Some(b) && b.contains(point)) {
        lemma_box_index_is_first(boxes, point, from + 1);
    }
}

/// After a layout pass in `bounds`, no pane is found at a point outside
/// `bounds`.
pub proof fn lemma_laid_out_axis_stays_inside<I: ItemHandle>(
    axis: PaneAxis<I>,
    before: PaneAxisView<I>,
    bounds: Bounds,
    point: Point,
)
    requires
        axis.wf(),
        axis.relaid(before, bounds),
        !bounds.contains(point),
    ensures
        axis.pane_at(point) is None,
{
    lemma_box_index_is_first(axis@.bounding_boxes, point, 0);
    let extent = bounds.spec_extent(axis@.axis);
    assert forall|k: int| 0 <= k < axis@.bounding_boxes.len() implies !((
    #[trigger] axis@.bounding_boxes[k]) matches Some(other) && other.contains(point)) by {
        lemma_child_offset_monotone(extent, axis@.flexes, k, k + 1);
        lemma_slice_contains(
            bounds,
            axis@.axis,
            child_offset(extent, axis@.flexes, k) as int,
            child_offset(extent, axis@.flexes, k + 1) as int,
            point,
        );
    }
}

/// After a layout pass in `bounds`, the pane found at a point inside
/// `bounds` is the answer of the one child whose share of `bounds` holds
/// the point.
pub proof fn lemma_laid_out_axis_finds_child<I: ItemHandle>(
    axis: PaneAxis<I>,
    before: PaneAxisView<I>,
    bounds: Bounds,
    point: Point,
) -> (index: int)
    requires
        axis.wf(),
        axis.relaid(before, bounds),
        axis@.members.len() > 0,
        bounds.contains(point),
    ensures
        0 <= index < axis@.members.len(),
        child_bounds(bounds, axis@.axis, axis@.flexes, index).contains(point),
        axis.pane_at(point) == axis@.members[index].pane_at(point),
{
    assert(axis@.flexes[0] > MIN_FLEX);
    lemma_flex_prefix_monotone(axis@.flexes, 1, axis@.flexes.len() as int);
    let index = lemma_children_cover(bounds, axis@.axis, axis@.flexes, point);
    lemma_box_index_is_first(axis@.bounding_boxes, point, 0);
    assert(axis@.bounding_boxes[index] == Some(
        child_bounds(bounds, axis@.axis, axis@.flexes, index),
    ));
    let found = box_index_from(axis@.bounding_boxes, point, 0)->Some_0;
    if found < index {
        assert(axis@.bounding_boxes[found] == Some(
            child_bounds(bounds, axis@.axis, axis@.flexes, found),
        ));
        lemma_children_disjoint(bounds, axis@.axis, axis@.flexes, found, index, point);
    }
    index
}

/// One pane tree, as the workspace shows it in one of its regions.
pub struct PaneGroup<I: ItemHandle> {
    root: Member<I>,
    is_center: bool,
}

/// What a pane group is, as a mathematical value.
pub struct PaneGroupView<I: ItemHandle> {
    pub root: Member<I>,
    /// Whether this group is the main region of the workspace.
    pub is_center: bool,
}

impl<I: ItemHandle> View for PaneGroup<I> {
    type V = PaneGroupView<I>;

    closed spec fn view(&self) -> PaneGroupView<I> {
        PaneGroupView { root: self.root, is_center: self.is_center }
    }
}

impl<I: ItemHandle> PaneGroup<I> {
    /// Whether the tree of this group is well formed.
    pub open spec fn wf(&self) -> bool {
        self@.root.wf()
    }

    /// A group over the tree `root`.
    pub fn with_root(root: Member<I>) -> (group: Self)
        requires
            root.wf(),
        ensures
            group.wf(),
            group@ == (PaneGroupView { root, is_center: false }),
    {
        PaneGroup { root, is_center: false }
    }

    /// A group whose tree is the single pane `pane`.
    pub fn new(pane: Pane<I>) -> (group: Self)
        requires
            pane.wf(),
        ensures
            group.wf(),
            group@ == (PaneGroupView { root: Member::Pane(pane), is_center: false }),
    {
        PaneGroup { root: Member::Pane(pane), is_center: false }
    }

    pub fn set_is_center(&mut self, is_center: bool)
        ensures
            final(self)@ == (PaneGroupView { is_center, ..old(self)@ }),
    {
        self.is_center = is_center;
    }

    pub fn is_center(&self) -> (is_center: bool)
        ensures
            is_center == self@.is_center,
    {
        self.is_center
    }

    /// The root of the tree.
    pub fn root(&self) -> (root: &Member<I>)
        ensures
            *root == self@.root,
    {
        &self.root
    }

    /// Opens `new_pane` beside the pane `old_pane_id` and lays the tree
    /// out anew in `bounds`.
    ///
    /// Where the root is that pane, the root becomes the axis of the two
    /// panes. Where the root is an axis, the pane is looked for among the
    /// children of that axis, and the new pane is put in beside it. The
    /// split is refused with `PaneNotFound` when the pane is neither, and
    /// with `AxisMismatch` when it is a child of the root axis but
    /// `direction` runs across that axis. A refused split changes nothing.
    pub fn split(
        &mut self,
        old_pane_id: PaneId,
        new_pane: Pane<I>,
        direction: SplitDirection,
        bounds: Bounds,
    ) -> (result: Result<(), PaneError>)
        requires
            old(self).wf(),
            new_pane.wf(),
        ensures
            final(self).wf(),
            final(self)@.is_center == old(self)@.is_center,
            match old(self)@.root {
                Member::Pane(pane) => if pane@.id == old_pane_id {
                    &&& result is Ok
                    &&& final(self)@.root matches Member::Axis(axis) && axis.relaid(
                        Member::axis_of_split(pane, new_pane, direction),
                        bounds,
                    )
                } else {
                    &&& result == Err::<(), PaneError>(PaneError::PaneNotFound)
                    &&& *final(self) == *old(self)
                },
                Member::Axis(before) => match PaneAxis::split_outcome(
                    before@,
                    old_pane_id,
                    new_pane,
                    direction,
                ) {
                    Ok(after) => {
                        &&& result is Ok
                        &&& final(self)@.root matches Member::Axis(axis) && axis.relaid(
                            after,
                            bounds,
                        )
                    },
                    Err(reason) => {
                        &&& result == Err::<(), PaneError>(reason)
                        &&& *final(self) == *old(self)
                    },
                },
            },
    {
        match &mut self.root {
            Member::Axis(axis) => {
                let result = axis.split(old_pane_id, new_pane, direction);
                if result.is_ok() {
                    axis.mark_positions(bounds);
                }
                return result;
            },
            Member::Pane(pane) => {
                if pane.id() != old_pane_id {
                    return Err(PaneError::PaneNotFound);
                }
            },
        }
        let mut taken: Member<I> = Member::Axis(PaneAxis::new(direction.axis(), Vec::new()));
        core::mem::swap(&mut self.root, &mut taken);
        match taken {
            Member::Pane(old_pane) => {
                self.root = Member::new_axis(old_pane, new_pane, direction);
                self.root.mark_positions(bounds);
                Ok(())
            },
            Member::Axis(_) => {
                proof {
                    assert(false);
                }
                Err(PaneError::PaneNotFound)
            },
        }
    }

    /// Takes the pane `pane_id` out of the tree, says whether there was
    /// such a pane, and if so lays the tree out anew in `bounds`.
    ///
    /// A root that is a pane is never taken out. Where the root is an
    /// axis, the pane is looked for among the children of that axis.
    pub fn remove(&mut self, pane_id: PaneId, bounds: Bounds) -> (removed: bool)
        requires
            old(self).wf(),
        ensures
            final(self).wf(),
            final(self)@.is_center == old(self)@.is_center,
            match old(self)@.root {
                Member::Pane(_) => !removed && *final(self) == *old(self),
                Member::Axis(before) => match leaf_index(before@.members, pane_id) {
                    Some(index) => {
                        &&& removed
                        &&& final(self)@.root matches Member::Axis(axis) && axis.relaid(
                            PaneAxis::without(before@, index),
                            bounds,
                        )
                    },
                    None => !removed && *final(self) == *old(self),
                },
            },
    {
        match &mut self.root {
            Member::Pane(_) => false,
            Member::Axis(axis) => {
                let removed = axis.remove(pane_id);
                if removed {
                    axis.mark_positions(bounds);
                }
                removed
            },
        }
    }

    /// Whether `after` and `result` are what a drag of the handle behind
    /// the pane `pane_id` makes of the group `before`: weight moved in the
    /// root axis and the tree laid out anew in `bounds`, or a refusal that
    /// leaves the group as it is. A root that is a pane has no handle, and
    /// refuses with `PaneNotFound`.
    pub open spec fn resized(
        before: Self,
        after: Self,
        result: Result<(), PaneError>,
        pane_id: PaneId,
        axis: Axis,
        displacement: int,
        bounds: Bounds,
    ) -> bool {
        &&& after@.is_center == before@.is_center
        &&& match before@.root {
            Member::Pane(_) => {
                &&& result == Err::<(), PaneError>(PaneError::PaneNotFound)
                &&& after == before
            },
            Member::Axis(root) => match PaneAxis::resize_outcome(
                root@,
                pane_id,
                axis,
                displacement,
            ) {
                Ok(moved) => {
                    &&& result is Ok
                    &&& after@.root matches Member::Axis(resized) && resized.relaid(moved, bounds)
                },
                Err(reason) => {
                    &&& result == Err::<(), PaneError>(reason)
                    &&& after == before
                },
            },
        }
    }

    /// Applies a drag of the handle that lies behind the pane `pane_id`,
    /// and lays the tree out anew in `bounds`.
    ///
    /// Where the root is a pane there is no handle: the drag is refused
    /// with `PaneNotFound`. Where the root is an axis, the drag is applied
    /// to that axis. A refused drag changes nothing.
    pub fn resize(
        &mut self,
        pane_id: PaneId,
        axis: Axis,
        displacement: i64,
        bounds: Bounds,
    ) -> (result: Result<(), PaneError>)
        requires
            old(self).wf(),
        ensures
            final(self).wf(),
            Self::resized(
                *old(self),
                *final(self),
                result,
                pane_id,
                axis,
                displacement as int,
                bounds,
            ),
    {
        match &mut self.root {
            Member::Pane(_) => Err(PaneError::PaneNotFound),
            Member::Axis(root) => {
                let result = root.resize(pane_id, axis, displacement);
                if result.is_ok() {
                    root.mark_positions(bounds);
                }
                result
            },
        }
    }

    /// Takes in what the pointer did on `handle`, and applies it: a move
    /// while the handle is dragged resizes the pane that the handle lies
    /// behind and its neighbour by as far as the pointer went along the
    /// axis of the handle. Returns what the handle tells its listeners.
    ///
    /// A move that the tree refuses, and everything that is no move, leaves
    /// the tree as it is.
    pub fn drag_handle(
        &mut self,
        handle: &mut ResizeHandle,
        input: PointerEvent,
        bounds: Bounds,
    ) -> (event: Option<ResizeEvent>)
        requires
            old(self).wf(),
        ensures
            final(self).wf(),
            event == ResizeHandle::emitted(old(handle)@.axis, old(handle)@.state, input),
            final(handle)@ == (ResizeHandleView {
                state: ResizeHandle::next_state(old(handle)@.state, input),
                ..old(handle)@
            }),
            match event {
                Some(ResizeEvent::Resizing { axis, initial_position, position }) => exists|
                    result: Result<(), PaneError>,
                |
                    #[trigger] Self::resized(
                        *old(self),
                        *final(self),
                        result,
                        old(handle)@.pane,
                        axis,
                        position.spec_along(axis) - initial_position.spec_along(axis),
                        bounds,
                    ),
                _ => *final(self) == *old(self),
            },
    {
        let event = handle.handle_pointer(input);
        match event {
            Some(moved) => match moved {
                ResizeEvent::Resizing { axis, .. } => {
                    let result = self.resize(handle.pane(), axis, moved.displacement(), bounds);
                    assert(Self::resized(
                        *old(self),
                        *self,
                        result,
                        old(handle)@.pane,
                        axis,
                        moved.spec_displacement(),
                        bounds,
                    ));
                },
                _ => {},
            },
            None => {},
        }
        event
    }

    /// The rectangle that the last layout pass gave the pane `pane_id`:
    /// `None` when the root is a pane, which has no rectangle, when the
    /// pane is not among the children of the root axis, or when no layout
    /// pass has placed it yet.
    pub open spec fn cached_bounds(&self, pane_id: PaneId) -> Option<Bounds> {
        match self@.root {
            Member::Pane(_) => None,
            Member::Axis(axis) => axis.cached_bounds(pane_id),
        }
    }

    /// The rectangle that the last layout pass gave the pane `pane_id`.
    pub fn bounding_box_for_pane(&self, pane_id: PaneId) -> (bounds: Option<Bounds>)
        ensures
            bounds == self.cached_bounds(pane_id),
    {
        match &self.root {
            Member::Pane(_) => None,
            Member::Axis(axis) => axis.bounding_box_for_pane(pane_id),
        }
    }

    /// The pane that the last layout pass put at `point`: `None` when the
    /// root is a pane, which has no rectangle, or when no rectangle of the
    /// root axis holds the point.
    pub open spec fn pane_at(&self, point: Point) -> Option<Pane<I>> {
        match self@.root {
            Member::Pane(_) => None,
            Member::Axis(axis) => axis.pane_at(point),
        }
    }

    /// The pane at `point`, by the rectangles of the last layout pass.
    pub fn pane_at_pixel_position(&self, point: Point) -> (pane: Option<&Pane<I>>)
        ensures
            match pane {
                Some(found) => self.pane_at(point) == Some(*found),
                None => self.pane_at(point) is None,
            },
    {
        match &self.root {
            Member::Pane(_) => None,
            Member::Axis(axis) => axis.pane_at_pixel_position(point),
        }
    }

    /// The pane `pane_id`: the root if the root is that pane, and else that
    /// pane among the children of the root axis.
    pub fn pane(&self, pane_id: PaneId) -> (pane: Option<&Pane<I>>)
        ensures
            match self@.root {
                Member::Pane(root) => if root@.id == pane_id {
                    pane == Some(&root)
                } else {
                    pane is None
                },
                Member::Axis(axis) => match pane {
                    Some(found) => leaf_index(axis@.members, pane_id) matches Some(index)
                        && axis@.members[index] == Member::Pane(*found),
                    None => leaf_index(axis@.members, pane_id) is None,
                },
            },
    {
        match &self.root {
            Member::Pane(root) => if root.id() == pane_id {
                Some(root)
            } else {
                None
            },
            Member::Axis(axis) => axis.pane(pane_id),
        }
    }

    /// The pane `pane_id`, to be changed in its place: the root if the root
    /// is that pane, and else that pane among the children of the root
    /// axis. What the caller makes of the pane is what the tree then holds;
    /// nothing else of the group changes.
    pub fn pane_mut(&mut self, pane_id: PaneId) -> (pane: Option<&mut Pane<I>>)
        ensures
            final(self)@.is_center == old(self)@.is_center,
            match old(self)@.root {
                Member::Pane(root) => if root@.id == pane_id {
                    pane matches Some(found) && *found == root && final(self)@.root
                        == Member::Pane(*final(found))
                } else {
                    pane is None && *final(self) == *old(self)
                },
                Member::Axis(axis) => match pane {
                    Some(found) => {
                        &&& leaf_index(axis@.members, pane_id) matches Some(index)
                        &&& axis@.members[index] == Member::Pane(*found)
                        &&& final(self)@.root matches Member::Axis(after)
                        &&& after@ == (PaneAxisView {
                            members: axis@.members.update(index, Member::Pane(*final(found))),
                            ..axis@
                        })
                    },
                    None => leaf_index(axis@.members, pane_id) is None && *final(self) == *old(
                        self,
                    ),
                },
            },
    {
        match &mut self.root {
            Member::Pane(root) => if root.id() == pane_id {
                Some(root)
            } else {
                None
            },
            Member::Axis(axis) => axis.pane_mut(pane_id),
        }
    }

    /// The first zoomed pane of the tree, in the order of the tree: the
    /// pane that is to be shown alone.
    pub fn zoomed_pane(&self) -> (pane: Option<&Pane<I>>)
        ensures
            match pane {
                Some(found) => self@.root.zoomed() == Some(*found),
                None => self@.root.zoomed() is None,
            },
    {
        self.root.zoomed_pane()
    }

    /// Lays the whole tree out in `bounds`.
    pub fn mark_positions(&mut self, bounds: Bounds)
        requires
            old(self).wf(),
        ensures
            final(self).wf(),
            final(self)@.is_center == old(self)@.is_center,
            final(self)@.root.relaid(old(self)@.root, bounds),
    {
        match &mut self.root {
            Member::Pane(_) => {},
            Member::Axis(axis) => axis.mark_positions(bounds),
        }
    }
}

} // verus!
