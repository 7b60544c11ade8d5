//! The keys that are bound to the actions of the workspace.

use vstd::prelude::*;

verus! {

/// What a key can be bound to.
#[derive(Debug, Clone, Copy, PartialEq, Eq, Structural)]
pub enum KeyBindingAction {
    ToggleSidebar,
    SwitchToDashboard,
    SwitchToAssets,
    SwitchToScan,
    SwitchToVulns,
    SwitchToTraffic,
    SwitchToFlows,
    SwitchToDevices,
    SwitchToSettings,
    SplitHorizontal,
    SplitVertical,
    ClosePanel,
    ZoomPanel,
}

/// A key and the action it is bound to.
pub struct KeyBinding {
    pub name: String,
    pub key: String,
    pub action: KeyBindingAction,
}

/// What a binding is, as a mathematical value.
pub struct KeyBindingView {
    pub name: Seq<char>,
    pub key: Seq<char>,
    pub action: KeyBindingAction,
}

impl View for KeyBinding {
    type V = KeyBindingView;

    open spec fn view(&self) -> KeyBindingView {
        KeyBindingView { name: self.name@, key: self.key@, action: self.action }
    }
}

impl KeyBinding {
    pub fn new(name: String, key: String, action: KeyBindingAction) -> (binding: Self)
        ensures
            binding == (KeyBinding { name, key, action }),
    {
        Self { name, key, action }
    }
}

/// The bindings of the workspace.
pub struct KeyboardShortcuts {
    bindings: Vec<KeyBinding>,
}

/// The bindings that the workspace starts with.
pub open spec fn default_bindings() -> Seq<KeyBindingView> {
    seq![
        KeyBindingView {
            name: "Toggle Sidebar"@,
            key: "cmd+b"@,
            action: KeyBindingAction::ToggleSidebar,
        },
        KeyBindingView {
            name: "Switch to Dashboard"@,
            key: "cmd+1"@,
            action: KeyBindingAction::SwitchToDashboard,
        },
        KeyBindingView {
            name: "Switch to Assets"@,
            key: "cmd+2"@,
            action: KeyBindingAction::SwitchToAssets,
        },
        KeyBindingView {
            name: "Switch to Scan"@,
            key: "cmd+3"@,
            action: KeyBindingAction::SwitchToScan,
        },
        KeyBindingView {
            name: "Switch to Vulns"@,
            key: "cmd+4"@,
            action: KeyBindingAction::SwitchToVulns,
        },
        KeyBindingView {
            name: "Switch to Traffic"@,
            key: "cmd+5"@,
            action: KeyBindingAction::SwitchToTraffic,
        },
        KeyBindingView {
            name: "Switch to Flows"@,
            key: "cmd+6"@,
            action: KeyBindingAction::SwitchToFlows,
        },
        KeyBindingView {
            name: "Switch to Devices"@,
            key: "cmd+7"@,
            action: KeyBindingAction::SwitchToDevices,
        },
        KeyBindingView {
            name: "Switch to Settings"@,
            key: "cmd+,"@,
            action: KeyBindingAction::SwitchToSettings,
        },
        KeyBindingView {
            name: "Split Horizontal"@,
            key: "cmd+k"@,
            action: KeyBindingAction::SplitHorizontal,
        },
        KeyBindingView {
            name: "Split Vertical"@,
            key: "cmd+shift+k"@,
            action: KeyBindingAction::SplitVertical,
        },
        KeyBindingView {
            name: "Close Panel"@,
            key: "cmd+w"@,
            action: KeyBindingAction::ClosePanel,
        },
        KeyBindingView { name: "Zoom Panel"@, key: "cmd+="@, action: KeyBindingAction::ZoomPanel },
    ]
}

/// The index of the first binding at or behind `from` that is bound to
/// `action`.
pub open spec fn binding_index_from(
    bindings: Seq<KeyBindingView>,
    action: KeyBindingAction,
    from: int,
) -> Option<int>
    decreases bindings.len() - from,
{
    if from < 0 || from >= bindings.len() {
        None
    } else if bindings[from].action == action {
        Some(from)
    } else {
        binding_index_from(bindings, action, from + 1)
    }
}

impl View for KeyboardShortcuts {
    type V = Seq<KeyBindingView>;

    closed spec fn view(&self) -> Seq<KeyBindingView> {
        self.bindings@.map_values(|binding: KeyBinding| binding@)
    }
}

/// The binding with the given name and key.
fn bind(name: &str, key: &str, action: KeyBindingAction) -> (binding: KeyBinding)
    ensures
        binding@ == (KeyBindingView { name: name@, key: key@, action }),
{
    KeyBinding::new(name.to_string(), key.to_string(), action)
}

impl KeyboardShortcuts {
    /// The bindings that the workspace starts with.
    pub fn new() -> (shortcuts: Self)
        ensures
            shortcuts@ == default_bindings(),
    {
        let mut bindings: Vec<KeyBinding> = Vec::new();
        bindings.push(bind("Toggle Sidebar", "cmd+b", KeyBindingAction::ToggleSidebar));
        bindings.push(bind("Switch to Dashboard", "cmd+1", KeyBindingAction::SwitchToDashboard));
        bindings.push(bind("Switch to Assets", "cmd+2", KeyBindingAction::SwitchToAssets));
        bindings.push(bind("Switch to Scan", "cmd+3", KeyBindingAction::SwitchToScan));
        bindings.push(bind("Switch to Vulns", "cmd+4", KeyBindingAction::SwitchToVulns));
        bindings.push(bind("Switch to Traffic", "cmd+5", KeyBindingAction::SwitchToTraffic));
        bindings.push(bind("Switch to Flows", "cmd+6", KeyBindingAction::SwitchToFlows));
        bindings.push(bind("Switch to Devices", "cmd+7", KeyBindingAction::SwitchToDevices));
        bindings.push(bind("Switch to Settings", "cmd+,", KeyBindingAction::SwitchToSettings));
        bindings.push(bind("Split Horizontal", "cmd+k", KeyBindingAction::SplitHorizontal));
        bindings.push(bind("Split Vertical", "cmd+shift+k", KeyBindingAction::SplitVertical));
        bindings.push(bind("Close Panel", "cmd+w", KeyBindingAction::ClosePanel));
        bindings.push(bind("Zoom Panel", "cmd+=", KeyBindingAction::ZoomPanel));
        let shortcuts = Self { bindings };
        assert(shortcuts@ =~= default_bindings());
        shortcuts
    }

    /// The first binding that is bound to `action`.
    pub fn get_binding_for_action(&self, action: KeyBindingAction) -> (found: Option<&KeyBinding>)
        ensures
            match found {
                Some(binding) => binding_index_from(self@, action, 0) matches Some(index)
                    && binding@ == self@[index],
                None => binding_index_from(self@, action, 0) is None,
            },
    {
        let mut i: usize = 0;
        while i < self.bindings.len()
            invariant
                i <= self.bindings.len(),
                self@.len() == self.bindings@.len(),
                forall|k: int| 0 <= k < self@.len() ==> #[trigger] self@[k] == self.bindings@[k]@,
                binding_index_from(self@, action, 0) == binding_index_from(self@, action, i as int),
            decreases self.bindings.len() - i,
        {
            if self.bindings[i].action == action {
                return Some(&self.bindings[i]);
            }
            i += 1;
        }
        None
    }
}

} // verus!
