//! A pane: one leaf of the layout, holding content items.

use crate::item::ItemHandle;
use vstd::prelude::*;

verus! {

/// The identity of a pane. It stays the same for as long as the pane lives
/// and is what the layout looks a pane up by.
#[derive(Debug, Clone, Copy, PartialEq, Eq, Hash, Structural)]
pub struct PaneId(pub u64);

/// What a user can ask of a pane.
#[derive(Clone, Debug, PartialEq)]
pub enum PaneAction {
    CloseActiveItem,
    CloseOtherItems,
    CloseAllItems,
    ActivateItem(usize),
    SplitHorizontal,
    SplitVertical,
    Zoom,
    Unzoom,
}

/// A container of content items, one of which is active.
pub struct Pane<I: ItemHandle> {
    id: PaneId,
    items: Vec<I>,
    active_item_index: Option<usize>,
    zoomed: bool,
}

/// What a pane is, as a mathematical value.
pub struct PaneView<I> {
    pub id: PaneId,
    /// The items, in the order of their tabs.
    pub items: Seq<I>,
    /// The index of the active item; `None` exactly when there is no item.
    pub active_item_index: Option<usize>,
    pub zoomed: bool,
}

impl<I> PaneView<I> {
    /// The active index is absent exactly when the pane is empty, and
    /// otherwise names one of the items.
    pub open spec fn wf(&self) -> bool {
        match self.active_item_index {
            None => self.items.len() == 0,
            Some(i) => i < self.items.len(),
        }
    }
}

impl<I: ItemHandle> View for Pane<I> {
    type V = PaneView<I>;

    closed spec fn view(&self) -> PaneView<I> {
        PaneView {
            id: self.id,
            items: self.items@,
            active_item_index: self.active_item_index,
            zoomed: self.zoomed,
        }
    }
}

impl<I: ItemHandle> Pane<I> {
    /// Whether the pane's active index is valid.
    pub open spec fn wf(&self) -> bool {
        self@.wf()
    }

    /// The identity of this pane.
    pub open spec fn spec_id(&self) -> PaneId {
        self@.id
    }

    pub fn new(id: PaneId) -> (pane: Pane<I>)
        ensures
            pane.wf(),
            pane@ == (PaneView {
                id,
                items: Seq::<I>::empty(),
                active_item_index: None,
                zoomed: false,
            }),
    {
        Pane { id, items: Vec::new(), active_item_index: None, zoomed: false }
    }

    #[verifier::when_used_as_spec(spec_id)]
    pub fn id(&self) -> (id: PaneId)
        ensures
            id == self@.id,
    {
        self.id
    }

    /// Appends `item` behind the pane's other items. The item that was
    /// active stays active; in an empty pane the new item becomes active.
    pub fn add_item(&mut self, item: I)
        requires
            old(self).wf(),
        ensures
            final(self).wf(),
            final(self)@ == (PaneView {
                items: old(self)@.items.push(item),
                active_item_index: match old(self)@.active_item_index {
                    Some(i) => Some(i),
                    None => Some(0usize),
                },
                ..old(self)@
            }),
    {
        self.items.push(item);
        if self.active_item_index.is_none() {
            self.active_item_index = Some(0);
        }
    }

    /// Makes the item at `index` the active one. An `index` that names no
    /// item changes nothing.
    pub fn activate_item(&mut self, index: usize)
        requires
            old(self).wf(),
        ensures
            final(self).wf(),
            index < old(self)@.items.len() ==> final(self)@ == (PaneView {
                active_item_index: Some(index),
                ..old(self)@
            }),
            index >= old(self)@.items.len() ==> final(self)@ == old(self)@,
    {
        if index < self.items.len() {
            self.active_item_index = Some(index);
        }
    }

    /// The index of the active item: `None` exactly when the pane is empty.
    pub fn active_index(&self) -> (index: Option<usize>)
        requires
            self.wf(),
        ensures
            index == self@.active_item_index,
            index is Some <==> self@.items.len() > 0,
            index matches Some(i) ==> i < self@.items.len(),
    {
        self.active_item_index
    }

    /// The active item: `None` exactly when the pane is empty.
    pub fn active_item(&self) -> (item: Option<&I>)
        requires
            self.wf(),
        ensures
            item is Some <==> self@.items.len() > 0,
            item matches Some(active) ==> self@.active_item_index matches Some(i) && i
                < self@.items.len() && *active == self@.items[i as int],
    {
        match self.active_item_index {
            Some(i) => Some(&self.items[i]),
            None => None,
        }
    }

    /// What closing the item at `index` leaves of a pane; nothing changes
    /// when `index` names no item. The active index keeps its number, unless
    /// it would then point behind the last item: then it moves to the last
    /// item, and in a pane left empty it is gone.
    pub open spec fn closed_at(before: PaneView<I>, index: usize) -> PaneView<I> {
        if index < before.items.len() {
            let items = before.items.remove(index as int);
            PaneView {
                items,
                active_item_index: match before.active_item_index {
                    Some(i) => if items.len() == 0 {
                        None
                    } else if i >= items.len() {
                        Some((items.len() - 1) as usize)
                    } else {
                        Some(i)
                    },
                    None => None,
                },
                ..before
            }
        } else {
            before
        }
    }

    /// Closes the item at `index`. An `index` that names no item changes
    /// nothing.
    pub fn close_item(&mut self, index: usize)
        requires
            old(self).wf(),
        ensures
            final(self).wf(),
            final(self)@ == Self::closed_at(old(self)@, index),
    {
        if index < self.items.len() {
            let _ = self.items.remove(index);
            let len: usize = self.items.len();
            if len == 0 {
                self.active_item_index = None;
            } else {
                match self.active_item_index {
                    Some(i) => {
                        if i >= len {
                            self.active_item_index = Some(len - 1);
                        }
                    },
                    None => {},
                }
            }
        }
    }

    /// Closes the active item. An empty pane stays as it is.
    pub fn close_active_item(&mut self)
        requires
            old(self).wf(),
        ensures
            final(self).wf(),
            final(self)@ == match old(self)@.active_item_index {
                Some(i) => Self::closed_at(old(self)@, i),
                None => old(self)@,
            },
    {
        match self.active_item_index {
            Some(i) => self.close_item(i),
            None => {},
        }
    }

    /// Flips the zoom flag.
    pub fn toggle_zoom(&mut self)
        ensures
            final(self)@ == (PaneView { zoomed: !old(self)@.zoomed, ..old(self)@ }),
    {
        self.zoomed = !self.zoomed;
    }

    pub fn is_zoomed(&self) -> (zoomed: bool)
        ensures
            zoomed == self@.zoomed,
    {
        self.zoomed
    }

    /// The number of items in the pane.
    pub fn item_count(&self) -> (count: usize)
        ensures
            count == self@.items.len(),
    {
        self.items.len()
    }
}

/// A pane that holds an item has an active item, and the index of it names
/// one of the items.
pub proof fn lemma_nonempty_pane_has_active_item<I>(pane: PaneView<I>)
    requires
        pane.wf(),
        pane.items.len() > 0,
    ensures
        pane.active_item_index matches Some(index) && 0 <= index < pane.items.len(),
{
}

} // verus!
