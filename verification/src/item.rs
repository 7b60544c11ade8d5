//! Content items: what a pane shows in its tabs.
//!
//! A pane does not look inside its items. All it asks of one is a title and
//! the name of an icon.

use crate::text::str_is;
use vstd::prelude::*;

verus! {

/// `std::any::TypeId`: the identifier of a type, carried through unopened.
#[verifier::external_type_specification]
#[verifier::external_body]
pub struct ExTypeId(std::any::TypeId);

/// `std::any::TypeId::of`: the identifier of the type `T`. Nothing is
/// claimed of the identifier.
pub assume_specification<T: ?Sized + 'static>[ std::any::TypeId::of::<T> ]() -> std::any::TypeId;

/// What a pane needs of a content item. Any type can be one: a pane holds
/// its items without looking into them.
pub trait ItemHandle: 'static + Send + Sync {
    /// The title of the item.
    fn title(&self) -> String;

    /// The name of the icon of the item.
    fn icon(&self) -> String;

    /// The identifier of the item's concrete type.
    fn type_id(&self) -> std::any::TypeId {
        std::any::TypeId::of::<Self>()
    }
}

/// A task of the mission board, shown as an item.
#[derive(Clone)]
pub struct TaskItem {
    pub task_id: usize,
    pub title: String,
    pub task_type: String,
    pub priority: String,
    pub status: String,
}

/// The icon that stands for a task of the given type.
pub open spec fn task_icon(task_type: Seq<char>) -> Seq<char> {
    if task_type == "SCAN"@ {
        "search"@
    } else if task_type == "ANALYSIS"@ {
        "file-text"@
    } else if task_type == "RECON"@ {
        "radar"@
    } else if task_type == "EXPLOIT"@ {
        "target"@
    } else if task_type == "PENTEST"@ {
        "shield"@
    } else {
        "check-square"@
    }
}

impl ItemHandle for TaskItem {
    fn title(&self) -> (title: String)
        ensures
            title == self.title,
    {
        self.title.clone()
    }

    fn icon(&self) -> (icon: String)
        ensures
            icon@ == task_icon(self.task_type@),
    {
        if str_is(self.task_type.as_str(), "SCAN") {
            "search".to_string()
        } else if str_is(self.task_type.as_str(), "ANALYSIS") {
            "file-text".to_string()
        } else if str_is(self.task_type.as_str(), "RECON") {
            "radar".to_string()
        } else if str_is(self.task_type.as_str(), "EXPLOIT") {
            "target".to_string()
        } else if str_is(self.task_type.as_str(), "PENTEST") {
            "shield".to_string()
        } else {
            "check-square".to_string()
        }
    }
}

/// An asset of the inventory, shown as an item.
#[derive(Clone)]
pub struct AssetItem {
    pub asset_id: String,
    pub name: String,
    pub asset_type: String,
}

/// The icon that stands for an asset of the given type.
pub open spec fn asset_icon(asset_type: Seq<char>) -> Seq<char> {
    if asset_type == "drone"@ {
        "plane"@
    } else if asset_type == "controller"@ {
        "gamepad"@
    } else if asset_type == "firmware"@ {
        "file"@
    } else {
        "folder"@
    }
}

impl ItemHandle for AssetItem {
    fn title(&self) -> (title: String)
        ensures
            title == self.name,
    {
        self.name.clone()
    }

    fn icon(&self) -> (icon: String)
        ensures
            icon@ == asset_icon(self.asset_type@),
    {
        if str_is(self.asset_type.as_str(), "drone") {
            "plane".to_string()
        } else if str_is(self.asset_type.as_str(), "controller") {
            "gamepad".to_string()
        } else if str_is(self.asset_type.as_str(), "firmware") {
            "file".to_string()
        } else {
            "folder".to_string()
        }
    }
}

/// A vulnerability, shown as an item.
#[derive(Clone)]
pub struct VulnItem {
    pub vuln_id: usize,
    pub title: String,
    pub severity: String,
    pub status: String,
}

/// The icon that stands for a vulnerability of the given severity.
pub open spec fn vuln_icon(severity: Seq<char>) -> Seq<char> {
    if severity == "critical"@ {
        "alert-circle"@
    } else if severity == "high"@ {
        "alert-triangle"@
    } else if severity == "medium"@ {
        "info"@
    } else {
        "check-circle"@
    }
}

impl ItemHandle for VulnItem {
    fn title(&self) -> (title: String)
        ensures
            title == self.title,
    {
        self.title.clone()
    }

    fn icon(&self) -> (icon: String)
        ensures
            icon@ == vuln_icon(self.severity@),
    {
        if str_is(self.severity.as_str(), "critical") {
            "alert-circle".to_string()
        } else if str_is(self.severity.as_str(), "high") {
            "alert-triangle".to_string()
        } else if str_is(self.severity.as_str(), "medium") {
            "info".to_string()
        } else {
            "check-circle".to_string()
        }
    }
}

/// What the assets panel tells its listeners.
#[derive(Debug, Clone)]
pub enum AssetsEvent {
    AssetSelected(String),
    AssetsUpdated,
}

/// What the vulnerabilities panel tells its listeners.
#[derive(Debug, Clone)]
pub enum VulnsEvent {
    FilterChanged(String),
    VulnSelected(usize),
}

} // verus!
