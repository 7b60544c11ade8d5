//! The top of the application: which view is shown, and what is selected.

use crate::ui::WorkspaceEvent;
use crate::workspace::{AppView, VulnFilter};
use vstd::prelude::*;
use vstd::string::StringExecFns;

verus! {

/// The state of the application window.
pub struct Workspace {
    active_view: AppView,
    selected_asset: Option<String>,
    vuln_filter: VulnFilter,
}

/// What the window is, as a mathematical value.
pub struct WorkspaceView {
    pub active_view: AppView,
    pub selected_asset: Option<String>,
    pub vuln_filter: VulnFilter,
}

impl View for Workspace {
    type V = WorkspaceView;

    closed spec fn view(&self) -> WorkspaceView {
        WorkspaceView {
            active_view: self.active_view,
            selected_asset: self.selected_asset,
            vuln_filter: self.vuln_filter,
        }
    }
}

/// The name of the view `view`.
pub open spec fn view_name(view: AppView) -> Seq<char> {
    match view {
        AppView::Dashboard => "Dashboard"@,
        AppView::Assets => "Assets"@,
        AppView::Images => "Images"@,
        AppView::Vulns => "Vulns"@,
        AppView::Traffic => "Traffic"@,
        AppView::Flows => "Flows"@,
        AppView::Devices => "Devices"@,
        AppView::Settings => "Settings"@,
    }
}

/// The name of the view `view`.
pub fn name_of(view: AppView) -> (name: &'static str)
    ensures
        name@ == view_name(view),
{
    match view {
        AppView::Dashboard => "Dashboard",
        AppView::Assets => "Assets",
        AppView::Images => "Images",
        AppView::Vulns => "Vulns",
        AppView::Traffic => "Traffic",
        AppView::Flows => "Flows",
        AppView::Devices => "Devices",
        AppView::Settings => "Settings",
    }
}

/// The number on the badge of the button that leads to `view`: two on the
/// vulnerabilities, eight on the traffic, and no badge on the others.
pub fn nav_badge(view: AppView) -> (count: Option<usize>)
    ensures
        count == match view {
            AppView::Vulns => Some(2usize),
            AppView::Traffic => Some(8usize),
            _ => None,
        },
{
    match view {
        AppView::Vulns => Some(2),
        AppView::Traffic => Some(8),
        _ => None,
    }
}

/// The identity of the button that leads to `view`: `nav-` and the name of
/// the view.
pub fn nav_button_id(view: AppView) -> (id: String)
    ensures
        id@ == "nav-"@ + view_name(view),
{
    "nav-".to_string().concat(name_of(view))
}

impl Workspace {
    /// The window as it opens: on the dashboard, with no asset selected and
    /// all vulnerabilities shown.
    pub fn new() -> (workspace: Self)
        ensures
            workspace@ == (WorkspaceView {
                active_view: AppView::Dashboard,
                selected_asset: None,
                vuln_filter: VulnFilter::All,
            }),
    {
        Self { active_view: AppView::Dashboard, selected_asset: None, vuln_filter: VulnFilter::All }
    }

    /// Shows `view`, and names the event for the listeners: that the view
    /// changed.
    pub fn set_active_view(&mut self, view: AppView) -> (event: WorkspaceEvent)
        ensures
            event == WorkspaceEvent::ViewChanged(view),
            final(self)@ == (WorkspaceView { active_view: view, ..old(self)@ }),
    {
        self.active_view = view;
        WorkspaceEvent::ViewChanged(view)
    }

    pub fn set_vuln_filter(&mut self, filter: VulnFilter)
        ensures
            final(self)@ == (WorkspaceView { vuln_filter: filter, ..old(self)@ }),
    {
        self.vuln_filter = filter;
    }

    pub fn active_view(&self) -> (view: AppView)
        ensures
            view == self@.active_view,
    {
        self.active_view
    }

    pub fn vuln_filter(&self) -> (filter: VulnFilter)
        ensures
            filter == self@.vuln_filter,
    {
        self.vuln_filter
    }

    /// Whether the button that leads to `view` is the one that is lit.
    pub fn is_active(&self, view: AppView) -> (active: bool)
        ensures
            active == (self@.active_view == view),
    {
        self.active_view == view
    }
}

} // verus!
