//! The bar at the top: the tabs, the target, and the state of the agent.

use vstd::prelude::*;

verus! {

#[derive(Debug, Clone, Copy, PartialEq, Eq, Structural)]
pub enum NavigationTab {
    Dashboard,
    Assets,
    Scan,
    Vulns,
    Traffic,
    Flows,
}

pub struct NavigationBar {
    active_tab: NavigationTab,
    target: String,
    ai_active: bool,
    vuln_count: usize,
    traffic_count: usize,
}

/// What the bar is, as a mathematical value.
pub struct NavigationBarView {
    pub active_tab: NavigationTab,
    pub target: Seq<char>,
    pub ai_active: bool,
    pub vuln_count: usize,
    pub traffic_count: usize,
}

impl View for NavigationBar {
    type V = NavigationBarView;

    closed spec fn view(&self) -> NavigationBarView {
        NavigationBarView {
            active_tab: self.active_tab,
            target: self.target@,
            ai_active: self.ai_active,
            vuln_count: self.vuln_count,
            traffic_count: self.traffic_count,
        }
    }
}

impl NavigationBar {
    /// The bar as the screen opens: on the dashboard, with the sample
    /// target, the agent at work, two vulnerabilities and eight requests.
    pub fn new() -> (bar: Self)
        ensures
            bar@ == (NavigationBarView {
                active_tab: NavigationTab::Dashboard,
                target: "mavic-3-pro-v2.local"@,
                ai_active: true,
                vuln_count: 2,
                traffic_count: 8,
            }),
    {
        Self {
            active_tab: NavigationTab::Dashboard,
            target: "mavic-3-pro-v2.local".to_string(),
            ai_active: true,
            vuln_count: 2,
            traffic_count: 8,
        }
    }

    pub fn set_target(&mut self, target: String)
        ensures
            final(self)@ == (NavigationBarView { target: target@, ..old(self)@ }),
    {
        self.target = target;
    }

    pub fn set_active_tab(&mut self, tab: NavigationTab)
        ensures
            final(self)@ == (NavigationBarView { active_tab: tab, ..old(self)@ }),
    {
        self.active_tab = tab;
    }

    pub fn active_tab(&self) -> (tab: NavigationTab)
        ensures
            tab == self@.active_tab,
    {
        self.active_tab
    }

    pub fn target(&self) -> (target: &String)
        ensures
            target@ == self@.target,
    {
        &self.target
    }

    pub fn ai_active(&self) -> (active: bool)
        ensures
            active == self@.ai_active,
    {
        self.ai_active
    }

    /// Whether the tab `tab` is the one that is shown.
    pub fn is_active(&self, tab: NavigationTab) -> (active: bool)
        ensures
            active == (self@.active_tab == tab),
    {
        self.active_tab == tab
    }

    /// The number on the badge of the tab `tab`: the vulnerabilities on
    /// theirs, the requests on the traffic tab, and no badge on the others.
    pub fn badge_count(&self, tab: NavigationTab) -> (count: Option<usize>)
        ensures
            count == match tab {
                NavigationTab::Vulns => Some(self@.vuln_count),
                NavigationTab::Traffic => Some(self@.traffic_count),
                _ => None,
            },
    {
        match tab {
            NavigationTab::Vulns => Some(self.vuln_count),
            NavigationTab::Traffic => Some(self.traffic_count),
            _ => None,
        }
    }
}

} // verus!
