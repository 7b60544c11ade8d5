//! The list of what the scans found.

use crate::scanner::Severity;
use vstd::prelude::*;

verus! {

#[derive(Debug, Clone, Copy, PartialEq, Eq, Structural)]
pub enum FindingStatus {
    Confirmed,
    Validating,
    New,
}

/// One finding, as the list shows it.
pub struct FindingItem {
    title: String,
    description: String,
    severity: Severity,
    status: FindingStatus,
    cve: Option<String>,
    target: String,
    discovered_time: String,
}

/// What a finding is, as a mathematical value.
pub struct FindingItemView {
    pub title: Seq<char>,
    pub description: Seq<char>,
    pub severity: Severity,
    pub status: FindingStatus,
    pub cve: Option<Seq<char>>,
    pub target: Seq<char>,
    pub discovered_time: Seq<char>,
}

impl View for FindingItem {
    type V = FindingItemView;

    closed spec fn view(&self) -> FindingItemView {
        FindingItemView {
            title: self.title@,
            description: self.description@,
            severity: self.severity,
            status: self.status,
            cve: match self.cve {
                Some(number) => Some(number@),
                None => None,
            },
            target: self.target@,
            discovered_time: self.discovered_time@,
        }
    }
}

/// The colour of the bar that shows the severity `severity`.
pub open spec fn severity_color(severity: Severity) -> u32 {
    match severity {
        Severity::Critical => 0xef4444,
        Severity::High => 0xf97316,
        Severity::Medium => 0xfbbf24,
        Severity::Low => 0x10b981,
    }
}

/// The text and the colour of the badge that shows the status `status`.
pub open spec fn status_badge(status: FindingStatus) -> (Seq<char>, u32) {
    match status {
        FindingStatus::Confirmed => ("CONFIRMED"@, 0x10b981),
        FindingStatus::Validating => ("VALIDATING"@, 0xfbbf24),
        FindingStatus::New => ("NEW"@, 0x60a5fa),
    }
}

impl FindingItem {
    pub fn new(
        title: String,
        description: String,
        severity: Severity,
        status: FindingStatus,
        cve: Option<String>,
        target: String,
        discovered_time: String,
    ) -> (item: Self)
        ensures
            item@ == (FindingItemView {
                title: title@,
                description: description@,
                severity,
                status,
                cve: match cve {
                    Some(number) => Some(number@),
                    None => None,
                },
                target: target@,
                discovered_time: discovered_time@,
            }),
    {
        Self { title, description, severity, status, cve, target, discovered_time }
    }

    pub fn title(&self) -> (title: &String)
        ensures
            title@ == self@.title,
    {
        &self.title
    }

    pub fn description(&self) -> (description: &String)
        ensures
            description@ == self@.description,
    {
        &self.description
    }

    pub fn severity(&self) -> (severity: Severity)
        ensures
            severity == self@.severity,
    {
        self.severity
    }

    pub fn status(&self) -> (status: FindingStatus)
        ensures
            status == self@.status,
    {
        self.status
    }

    pub fn cve(&self) -> (cve: &Option<String>)
        ensures
            match cve {
                Some(number) => self@.cve == Some(number@),
                None => self@.cve is None,
            },
    {
        &self.cve
    }

    pub fn target(&self) -> (target: &String)
        ensures
            target@ == self@.target,
    {
        &self.target
    }

    pub fn discovered_time(&self) -> (time: &String)
        ensures
            time@ == self@.discovered_time,
    {
        &self.discovered_time
    }

    /// The colour of the bar that shows the severity of the finding.
    pub fn severity_color(&self) -> (color: u32)
        ensures
            color == severity_color(self@.severity),
    {
        match self.severity {
            Severity::Critical => 0xef4444,
            Severity::High => 0xf97316,
            Severity::Medium => 0xfbbf24,
            Severity::Low => 0x10b981,
        }
    }

    /// The text and the colour of the badge that shows the status of the
    /// finding. The background of the badge is the same colour, a fifth as
    /// strong.
    pub fn status_badge(&self) -> (badge: (&'static str, u32))
        ensures
            (badge.0@, badge.1) == status_badge(self@.status),
    {
        match self.status {
            FindingStatus::Confirmed => ("CONFIRMED", 0x10b981),
            FindingStatus::Validating => ("VALIDATING", 0xfbbf24),
            FindingStatus::New => ("NEW", 0x60a5fa),
        }
    }
}

/// The findings, with the filter and the search that narrow them.
pub struct FindingsView {
    findings: Vec<FindingItem>,
    filter_severity: Option<Severity>,
    search_query: String,
    critical_count: usize,
    high_count: usize,
}

/// What the list is, as a mathematical value.
pub struct FindingsViewModel {
    pub findings: Seq<FindingItem>,
    pub filter_severity: Option<Severity>,
    pub search_query: Seq<char>,
    pub critical_count: usize,
    pub high_count: usize,
}

impl View for FindingsView {
    type V = FindingsViewModel;

    closed spec fn view(&self) -> FindingsViewModel {
        FindingsViewModel {
            findings: self.findings@,
            filter_severity: self.filter_severity,
            search_query: self.search_query@,
            critical_count: self.critical_count,
            high_count: self.high_count,
        }
    }
}

impl FindingsView {
    /// The list as the screen opens: no finding, no filter, no search, and
    /// the sample counts of two critical and two high findings.
    pub fn new() -> (view: Self)
        ensures
            view@ == (FindingsViewModel {
                findings: Seq::empty(),
                filter_severity: None,
                search_query: Seq::empty(),
                critical_count: 2,
                high_count: 2,
            }),
    {
        Self {
            findings: Vec::new(),
            filter_severity: None,
            search_query: String::new(),
            critical_count: 2,
            high_count: 2,
        }
    }

    /// Puts `finding` at the end of the list.
    pub fn add_finding(&mut self, finding: FindingItem)
        ensures
            final(self)@ == (FindingsViewModel {
                findings: old(self)@.findings.push(finding),
                ..old(self)@
            }),
    {
        self.findings.push(finding);
    }

    pub fn findings(&self) -> (findings: &Vec<FindingItem>)
        ensures
            findings@ == self@.findings,
    {
        &self.findings
    }

    /// The number of findings.
    pub fn total(&self) -> (count: usize)
        ensures
            count == self@.findings.len(),
    {
        self.findings.len()
    }

    pub fn critical_count(&self) -> (count: usize)
        ensures
            count == self@.critical_count,
    {
        self.critical_count
    }

    pub fn high_count(&self) -> (count: usize)
        ensures
            count == self@.high_count,
    {
        self.high_count
    }
}

} // verus!
