//! The counters at the head of the first mission screen.

use crate::style::counter_label;
use crate::text::decimal;
use vstd::prelude::*;

verus! {

pub struct Dashboard {
    active_agents: usize,
    total_scans: usize,
    vulnerabilities_found: usize,
}

/// What the counters are, as a mathematical value.
pub struct DashboardView {
    pub active_agents: usize,
    pub total_scans: usize,
    pub vulnerabilities_found: usize,
}

impl View for Dashboard {
    type V = DashboardView;

    closed spec fn view(&self) -> DashboardView {
        DashboardView {
            active_agents: self.active_agents,
            total_scans: self.total_scans,
            vulnerabilities_found: self.vulnerabilities_found,
        }
    }
}

impl Dashboard {
    /// All counters at zero.
    pub fn new() -> (dashboard: Self)
        ensures
            dashboard@ == (DashboardView {
                active_agents: 0,
                total_scans: 0,
                vulnerabilities_found: 0,
            }),
    {
        Self { active_agents: 0, total_scans: 0, vulnerabilities_found: 0 }
    }

    /// The text of the badge that shows the counter `text` at `value`.
    pub fn status_badge(&self, text: &str, value: usize) -> (label: String)
        ensures
            label@ == text@ + ": "@ + decimal(value as nat),
    {
        counter_label(text, value)
    }

    /// The texts of the three badges: the agents at work, the scans, the
    /// vulnerabilities.
    pub fn badges(&self) -> (labels: (String, String, String))
        ensures
            labels.0@ == "Active Agents: "@ + decimal(self@.active_agents as nat),
            labels.1@ == "Total Scans: "@ + decimal(self@.total_scans as nat),
            labels.2@ == "Vulnerabilities: "@ + decimal(self@.vulnerabilities_found as nat),
    {
        let agents = self.status_badge("Active Agents", self.active_agents);
        let scans = self.status_badge("Total Scans", self.total_scans);
        let vulnerabilities = self.status_badge("Vulnerabilities", self.vulnerabilities_found);
        proof {
            assert(("Active Agents"@ + ": "@) + decimal(self@.active_agents as nat)
                =~= "Active Agents: "@ + decimal(self@.active_agents as nat)) by {
                reveal_strlit("Active Agents");
                reveal_strlit(": ");
                reveal_strlit("Active Agents: ");
                assert("Active Agents"@ + ": "@ =~= "Active Agents: "@);
            }
            assert(("Total Scans"@ + ": "@) + decimal(self@.total_scans as nat) =~= "Total Scans: "@
                + decimal(self@.total_scans as nat)) by {
                reveal_strlit("Total Scans");
                reveal_strlit(": ");
                reveal_strlit("Total Scans: ");
                assert("Total Scans"@ + ": "@ =~= "Total Scans: "@);
            }
            assert(("Vulnerabilities"@ + ": "@) + decimal(self@.vulnerabilities_found as nat)
                =~= "Vulnerabilities: "@ + decimal(self@.vulnerabilities_found as nat)) by {
                reveal_strlit("Vulnerabilities");
                reveal_strlit(": ");
                reveal_strlit("Vulnerabilities: ");
                assert("Vulnerabilities"@ + ": "@ =~= "Vulnerabilities: "@);
            }
        }
        (agents, scans, vulnerabilities)
    }
}

} // verus!
