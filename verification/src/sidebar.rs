//! The sidebar that lists the views of the workspace.

use crate::events::SidebarEvent;
use vstd::prelude::*;

verus! {

pub struct SimpleSidebar {
    pub is_open: bool,
    pub items: Vec<String>,
}

/// The names that the sidebar lists.
pub open spec fn sidebar_items() -> Seq<Seq<char>> {
    seq![
        "Dashboard"@,
        "Assets"@,
        "Scan"@,
        "Vulns"@,
        "Traffic"@,
        "Flows"@,
        "Devices"@,
        "Settings"@,
    ]
}

impl SimpleSidebar {
    /// The names of the items, in their order.
    pub open spec fn item_names(&self) -> Seq<Seq<char>> {
        self.items@.map_values(|item: String| item@)
    }

    /// A closed sidebar that lists the views of the workspace.
    pub fn new() -> (sidebar: Self)
        ensures
            !sidebar.is_open,
            sidebar.item_names() == sidebar_items(),
    {
        let mut items: Vec<String> = Vec::new();
        items.push("Dashboard".to_string());
        items.push("Assets".to_string());
        items.push("Scan".to_string());
        items.push("Vulns".to_string());
        items.push("Traffic".to_string());
        items.push("Flows".to_string());
        items.push("Devices".to_string());
        items.push("Settings".to_string());
        let sidebar = Self { is_open: false, items };
        assert(sidebar.item_names() =~= sidebar_items());
        sidebar
    }

    /// Opens a closed sidebar and closes an open one, and returns what its
    /// listeners are told.
    pub fn toggle(&mut self) -> (event: SidebarEvent)
        ensures
            final(self).is_open == !old(self).is_open,
            final(self).items == old(self).items,
            event == if old(self).is_open {
                SidebarEvent::Closed
            } else {
                SidebarEvent::Opened
            },
    {
        self.is_open = !self.is_open;
        if self.is_open {
            SidebarEvent::Opened
        } else {
            SidebarEvent::Closed
        }
    }

    /// Opens the sidebar, and returns what its listeners are told: that it
    /// was opened, unless it was open already.
    pub fn open(&mut self) -> (event: Option<SidebarEvent>)
        ensures
            final(self).is_open,
            final(self).items == old(self).items,
            event == if old(self).is_open {
                None
            } else {
                Some(SidebarEvent::Opened)
            },
    {
        if !self.is_open {
            self.is_open = true;
            Some(SidebarEvent::Opened)
        } else {
            None
        }
    }

    /// Closes the sidebar, and returns what its listeners are told: that it
    /// was closed, unless it was closed already.
    pub fn close(&mut self) -> (event: Option<SidebarEvent>)
        ensures
            !final(self).is_open,
            final(self).items == old(self).items,
            event == if old(self).is_open {
                Some(SidebarEvent::Closed)
            } else {
                None
            },
    {
        if self.is_open {
            self.is_open = false;
            Some(SidebarEvent::Closed)
        } else {
            None
        }
    }

    pub fn is_open(&self) -> (open: bool)
        ensures
            open == self.is_open,
    {
        self.is_open
    }
}

} // verus!
