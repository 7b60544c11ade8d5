//! The rules by which the panels choose colours and labels.
//!
//! A colour is a number `0xRRGGBB`.

use crate::text::{decimal, str_is, u64_to_string};
use vstd::prelude::*;
use vstd::string::StringExecFns;

verus! {

/// White, the colour of the text on a filled tag.
pub const ON_TAG: u32 = 0xffffff;

/// The background of the tag that shows the priority `priority`.
pub open spec fn priority_background(priority: Seq<char>) -> u32 {
    if priority == "critical"@ || priority == "high"@ {
        0xef4444
    } else if priority == "medium"@ {
        0xf97316
    } else {
        0x10b981
    }
}

/// The background and the text colour of the tag that shows the priority
/// `priority`.
pub fn priority_tag_colors(priority: &str) -> (colors: (u32, u32))
    ensures
        colors == (priority_background(priority@), ON_TAG),
{
    if str_is(priority, "critical") || str_is(priority, "high") {
        (0xef4444, ON_TAG)
    } else if str_is(priority, "medium") {
        (0xf97316, ON_TAG)
    } else {
        (0x10b981, ON_TAG)
    }
}

/// The background and the text colour of an entry of the kind `kind` in
/// the list of what the agent did.
pub open spec fn activity_palette(kind: Seq<char>) -> (u32, u32) {
    if kind == "THOUGHT"@ {
        (0xf3e8ff, 0x7c3aed)
    } else if kind == "PLAN"@ {
        (0xfffbeb, 0xf59e0b)
    } else if kind == "TOOL"@ {
        (0xeff6ff, 0x2563eb)
    } else if kind == "ANALYSIS"@ {
        (0xf0fdf4, 0x16a34a)
    } else {
        (0xf3f4f6, 0x6b7280)
    }
}

/// The background and the text colour of an entry of the kind
/// `activity_type` in the list of what the agent did.
pub fn activity_colors(activity_type: &str) -> (colors: (u32, u32))
    ensures
        colors == activity_palette(activity_type@),
{
    if str_is(activity_type, "THOUGHT") {
        (0xf3e8ff, 0x7c3aed)
    } else if str_is(activity_type, "PLAN") {
        (0xfffbeb, 0xf59e0b)
    } else if str_is(activity_type, "TOOL") {
        (0xeff6ff, 0x2563eb)
    } else if str_is(activity_type, "ANALYSIS") {
        (0xf0fdf4, 0x16a34a)
    } else {
        (0xf3f4f6, 0x6b7280)
    }
}

/// The background and the text colour of the tag that shows how a tool
/// ended: green for `Success`, red for anything else.
pub fn tool_status_colors(status: &str) -> (colors: (u32, u32))
    ensures
        colors == if status@ == "Success"@ {
            (0xdcfce7u32, 0x166534u32)
        } else {
            (0xfee2e2u32, 0x991b1bu32)
        },
{
    if str_is(status, "Success") {
        (0xdcfce7, 0x166534)
    } else {
        (0xfee2e2, 0x991b1b)
    }
}

/// The colour of the bar that shows the severity `severity` of a finding.
pub open spec fn severity_bar(severity: Seq<char>) -> u32 {
    if severity == "critical"@ {
        0xef4444
    } else if severity == "high"@ {
        0xf97316
    } else if severity == "medium"@ {
        0xfbbf24
    } else if severity == "low"@ {
        0x60a5fa
    } else {
        0x9ca3af
    }
}

/// The colour of the bar that shows the severity `severity` of a finding.
pub fn finding_severity_color(severity: &str) -> (color: u32)
    ensures
        color == severity_bar(severity@),
{
    if str_is(severity, "critical") {
        0xef4444
    } else if str_is(severity, "high") {
        0xf97316
    } else if str_is(severity, "medium") {
        0xfbbf24
    } else if str_is(severity, "low") {
        0x60a5fa
    } else {
        0x9ca3af
    }
}

/// The background and the text colour of the tag that shows the status
/// `status` of a finding.
pub open spec fn status_palette(status: Seq<char>) -> (u32, u32) {
    if status == "CONFIRMED"@ {
        (0xdcfce7, 0x166534)
    } else if status == "VALIDATING"@ {
        (0xfef3c7, 0x92400e)
    } else if status == "NEW"@ {
        (0xdbeafe, 0x1e40af)
    } else {
        (0xf3f4f6, 0x6b7280)
    }
}

/// The background and the text colour of the tag that shows the status
/// `status` of a finding.
pub fn finding_status_colors(status: &str) -> (colors: (u32, u32))
    ensures
        colors == status_palette(status@),
{
    if str_is(status, "CONFIRMED") {
        (0xdcfce7, 0x166534)
    } else if str_is(status, "VALIDATING") {
        (0xfef3c7, 0x92400e)
    } else if str_is(status, "NEW") {
        (0xdbeafe, 0x1e40af)
    } else {
        (0xf3f4f6, 0x6b7280)
    }
}

/// The colour of the dot before the title of the column `title` of the
/// board.
pub fn column_dot_color(title: &str) -> (color: u32)
    ensures
        color == if title@ == "In Progress"@ {
            0x60a5fau32
        } else if title@ == "Done"@ {
            0x10b981u32
        } else {
            0x6b7280u32
        },
{
    if str_is(title, "In Progress") {
        0x60a5fa
    } else if str_is(title, "Done") {
        0x10b981
    } else {
        0x6b7280
    }
}

/// The number `count` between round brackets, as it stands behind the
/// title of a column.
pub fn count_label(count: usize) -> (label: String)
    ensures
        label@ == "("@ + decimal(count as nat) + ")"@,
{
    let digits = u64_to_string(count as u64);
    "(".to_string().concat(digits.as_str()).concat(")")
}

/// The label `name: value`, as it stands in a badge.
pub fn counter_label(name: &str, value: usize) -> (label: String)
    ensures
        label@ == name@ + ": "@ + decimal(value as nat),
{
    let digits = u64_to_string(value as u64);
    name.to_string().concat(": ").concat(digits.as_str())
}

/// The icons of the entries of a tree.
#[derive(Debug, Clone, Copy, PartialEq, Eq, Structural)]
pub enum TreeIcon {
    File,
    Folder,
    FolderOpen,
}

/// The icon of an entry of a tree: a file, or a folder that is open or
/// closed.
pub fn tree_icon(is_folder: bool, is_expanded: bool) -> (icon: TreeIcon)
    ensures
        icon == if !is_folder {
            TreeIcon::File
        } else if is_expanded {
            TreeIcon::FolderOpen
        } else {
            TreeIcon::Folder
        },
{
    if !is_folder {
        TreeIcon::File
    } else if is_expanded {
        TreeIcon::FolderOpen
    } else {
        TreeIcon::Folder
    }
}

/// `Yes` or `No`.
pub fn yes_no(value: bool) -> (text: String)
    ensures
        text@ == if value {
            "Yes"@
        } else {
            "No"@
        },
{
    if value {
        "Yes".to_string()
    } else {
        "No".to_string()
    }
}

/// `Folder` or `File`.
pub fn folder_or_file(is_folder: bool) -> (text: String)
    ensures
        text@ == if is_folder {
            "Folder"@
        } else {
            "File"@
        },
{
    if is_folder {
        "Folder".to_string()
    } else {
        "File".to_string()
    }
}

/// The text and the colour that tell whether the agent is at work.
pub fn ai_status(ai_active: bool) -> (shown: (&'static str, u32))
    ensures
        shown.0@ == if ai_active {
            "AI Active"@
        } else {
            "AI Inactive"@
        },
        shown.1 == if ai_active {
            0x4ade80u32
        } else {
            0x6b7280u32
        },
{
    if ai_active {
        ("AI Active", 0x4ade80)
    } else {
        ("AI Inactive", 0x6b7280)
    }
}

} // verus!
