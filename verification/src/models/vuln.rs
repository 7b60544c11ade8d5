//! How a vulnerability is classified: severity, status, and where and how
//! it was found.

use vstd::prelude::*;

verus! {

#[derive(Debug, Clone, Copy, PartialEq, Eq, PartialOrd, Ord, Structural)]
pub enum VulnSeverity {
    Critical,
    High,
    Medium,
    Low,
    Info,
}

#[derive(Debug, Clone, Copy, PartialEq, Eq, Structural)]
pub enum VulnStatus {
    New,
    Validating,
    Confirmed,
    FalsePositive,
    Mitigated,
    Resolved,
}

/// The place in a system at which a vulnerability was found.
#[derive(Debug, Clone)]
pub struct DetectionLocation {
    pub component: String,
    pub file_path: Option<String>,
    pub line_number: Option<usize>,
    pub function: Option<String>,
    pub source: DetectionSource,
}

#[derive(Debug, Clone, Copy, PartialEq, Eq, Structural)]
pub enum DetectionSource {
    StaticAnalysis,
    DynamicAnalysis,
    ManualReview,
    AutomatedScanner,
    AiAnalysis,
    ThreatIntelligence,
}

#[derive(Debug, Clone, Copy, PartialEq, Eq, Structural)]
pub enum ScanType {
    Network,
    Protocol,
    Firmware,
    StaticCodeAnalysis,
    DynamicAnalysis,
    PenetrationTest,
}

#[derive(Debug, Clone, Copy, PartialEq, Eq, Structural)]
pub enum ExploitMaturity {
    NoExploit,
    High,
    Functional,
    ProofOfConcept,
    Unreported,
}

/// A vulnerability with all that is known of it.
///
/// The score of the vulnerability and the analysis of it are kept as they
/// are given: the type `C` holds a score, the type `A` an analysis.
#[derive(Debug, Clone)]
pub struct VulnData<C, A> {
    pub id: String,
    pub title: String,
    pub description: String,
    pub cve: Option<String>,
    pub cwe: Option<String>,
    pub severity: VulnSeverity,
    pub status: VulnStatus,
    pub cvss: Option<C>,
    pub affected: String,
    pub affected_systems: Vec<String>,
    pub detection_time: String,
    pub detection_location: DetectionLocation,
    pub scan_type: ScanType,
    pub exploit_available: bool,
    pub poc_available: bool,
    pub exploit_maturity: Option<ExploitMaturity>,
    pub attack_tactics: Vec<String>,
    pub attack_techniques: Vec<String>,
    pub attack_subtechniques: Vec<String>,
    pub ai_analysis: Option<A>,
    pub references: Vec<String>,
    pub tags: Vec<String>,
}

impl<C, A> VulnData<C, A> {
    /// Whether nothing is known of this vulnerability yet but what `new`
    /// was given: it is new, was found by a scanner of the network, and
    /// everything else is empty, absent or off.
    pub open spec fn is_fresh(&self) -> bool {
        &&& self.status == VulnStatus::New
        &&& self.cve is None
        &&& self.cwe is None
        &&& self.cvss is None
        &&& self.affected@.len() == 0
        &&& self.affected_systems@.len() == 0
        &&& self.detection_time@.len() == 0
        &&& self.detection_location.component@.len() == 0
        &&& self.detection_location.file_path is None
        &&& self.detection_location.line_number is None
        &&& self.detection_location.function is None
        &&& self.detection_location.source == DetectionSource::AutomatedScanner
        &&& self.scan_type == ScanType::Network
        &&& !self.exploit_available
        &&& !self.poc_available
        &&& self.exploit_maturity is None
        &&& self.attack_tactics@.len() == 0
        &&& self.attack_techniques@.len() == 0
        &&& self.attack_subtechniques@.len() == 0
        &&& self.ai_analysis is None
        &&& self.references@.len() == 0
        &&& self.tags@.len() == 0
    }

    /// A vulnerability of which only its identity, title, description and
    /// severity are known.
    pub fn new(id: String, title: String, description: String, severity: VulnSeverity) -> (vuln:
        Self)
        ensures
            vuln.id == id,
            vuln.title == title,
            vuln.description == description,
            vuln.severity == severity,
            vuln.is_fresh(),
    {
        Self {
            id,
            title,
            description,
            severity,
            status: VulnStatus::New,
            cve: None,
            cwe: None,
            cvss: None,
            affected: String::new(),
            affected_systems: Vec::new(),
            detection_time: String::new(),
            detection_location: DetectionLocation {
                component: String::new(),
                file_path: None,
                line_number: None,
                function: None,
                source: DetectionSource::AutomatedScanner,
            },
            scan_type: ScanType::Network,
            exploit_available: false,
            poc_available: false,
            exploit_maturity: None,
            attack_tactics: Vec::new(),
            attack_techniques: Vec::new(),
            attack_subtechniques: Vec::new(),
            ai_analysis: None,
            references: Vec::new(),
            tags: Vec::new(),
        }
    }

    /// Whether the severity is critical or high.
    pub fn is_high_severity(&self) -> (high: bool)
        ensures
            high == (self.severity == VulnSeverity::Critical || self.severity
                == VulnSeverity::High),
    {
        matches!(self.severity, VulnSeverity::Critical | VulnSeverity::High)
    }

    /// Whether an exploit is at hand and its maturity is known.
    pub fn has_exploit(&self) -> (has: bool)
        ensures
            has == (self.exploit_available && self.exploit_maturity is Some),
    {
        self.exploit_available && self.exploit_maturity.is_some()
    }
}

} // verus!
