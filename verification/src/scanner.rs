//! The scanners, and what they report.
//!
//! The scanners do not look at anything yet: each reports that it looked at
//! its target and found nothing.

use std::path::PathBuf;
use vstd::prelude::*;

verus! {

/// What a scan found.
#[derive(Debug, Clone)]
pub struct ScanResult {
    pub scan_type: ScanType,
    pub target: String,
    pub findings: Vec<Finding>,
}

#[derive(Debug, Clone, Copy, PartialEq, Eq, Structural)]
pub enum ScanType {
    Network,
    Protocol,
    Firmware,
}

/// One weakness that a scan found.
#[derive(Debug, Clone)]
pub struct Finding {
    pub severity: Severity,
    pub title: String,
    pub description: String,
    pub cve: Option<String>,
}

#[derive(Debug, Clone, Copy, PartialEq, Eq, PartialOrd, Ord, Structural)]
pub enum Severity {
    Low,
    Medium,
    High,
    Critical,
}

impl ScanResult {
    /// The report of a scan of `target` that found nothing.
    pub fn empty(scan_type: ScanType, target: String) -> (result: Self)
        ensures
            result.scan_type == scan_type,
            result.target == target,
            result.findings@.len() == 0,
    {
        Self { scan_type, target, findings: Vec::new() }
    }
}

/// Scans a range of network addresses.
pub struct NetworkScanner {
    target_range: String,
}

impl View for NetworkScanner {
    type V = Seq<char>;

    /// The range of addresses that is scanned.
    closed spec fn view(&self) -> Seq<char> {
        self.target_range@
    }
}

impl NetworkScanner {
    pub fn new(target_range: String) -> (scanner: Self)
        ensures
            scanner@ == target_range@,
    {
        Self { target_range }
    }

    /// The range of addresses that is scanned.
    pub fn target_range(&self) -> (range: &String)
        ensures
            range@ == self@,
    {
        &self.target_range
    }

    /// Scans the range: a network scan of the range, without findings.
    pub fn scan(&self) -> (result: ScanResult)
        ensures
            result.scan_type == ScanType::Network,
            result.target@ == self@,
            result.findings@.len() == 0,
    {
        ScanResult::empty(ScanType::Network, self.target_range.clone())
    }

    /// The devices in the range that are UAVs: none.
    pub fn detect_uav_devices(&self) -> (devices: Vec<String>)
        ensures
            devices@.len() == 0,
    {
        Vec::new()
    }
}

/// The protocols that UAVs speak.
#[derive(Debug, Clone, Copy, PartialEq, Eq, Structural)]
pub enum UavProtocol {
    MAVLink,
    DJI,
    ArduPilot,
    PX4,
    Unknown,
}

/// Looks at how a target speaks one protocol.
pub struct ProtocolAnalyzer {
    protocol_type: UavProtocol,
}

impl View for ProtocolAnalyzer {
    type V = UavProtocol;

    /// The protocol that is looked at.
    closed spec fn view(&self) -> UavProtocol {
        self.protocol_type
    }
}

impl ProtocolAnalyzer {
    pub fn new(protocol_type: UavProtocol) -> (analyzer: Self)
        ensures
            analyzer@ == protocol_type,
    {
        Self { protocol_type }
    }

    /// The protocol that is looked at.
    pub fn protocol_type(&self) -> (protocol: UavProtocol)
        ensures
            protocol == self@,
    {
        self.protocol_type
    }

    /// Looks at `target`: a protocol scan of it, without findings.
    pub fn analyze(&self, target: &str) -> (result: ScanResult)
        ensures
            result.scan_type == ScanType::Protocol,
            result.target@ == target@,
            result.findings@.len() == 0,
    {
        ScanResult::empty(ScanType::Protocol, target.to_string())
    }

    /// The weaknesses in how `target` checks who speaks to it: none.
    pub fn test_authentication(&self, target: &str) -> (findings: Vec<Finding>)
        ensures
            findings@.len() == 0,
    {
        Vec::new()
    }

    /// The ways to slip commands into `target`: none.
    pub fn test_command_injection(&self, target: &str) -> (findings: Vec<Finding>)
        ensures
            findings@.len() == 0,
    {
        Vec::new()
    }
}

/// `std::path::PathBuf`: a path in the file system, carried through
/// unopened.
#[verifier::external_type_specification]
#[verifier::external_body]
pub struct ExPathBuf(PathBuf);

/// `Path::to_string_lossy`, made a `String`: the path as text, where what
/// is not Unicode in it has given way to a replacement character.
#[verifier::external_body]
fn path_text(path: &PathBuf) -> String {
    path.to_string_lossy().to_string()
}

/// Looks into one firmware image.
pub struct FirmwareAnalyzer {
    firmware_path: PathBuf,
}

impl View for FirmwareAnalyzer {
    type V = PathBuf;

    /// The path of the image.
    closed spec fn view(&self) -> PathBuf {
        self.firmware_path
    }
}

impl FirmwareAnalyzer {
    pub fn new(firmware_path: PathBuf) -> (analyzer: Self)
        ensures
            analyzer@ == firmware_path,
    {
        Self { firmware_path }
    }

    /// The path of the image.
    pub fn firmware_path(&self) -> (path: &PathBuf)
        ensures
            *path == self@,
    {
        &self.firmware_path
    }

    /// Looks into the image: a firmware scan of its path, without findings.
    pub fn analyze(&self) -> (result: ScanResult)
        ensures
            result.scan_type == ScanType::Firmware,
            result.findings@.len() == 0,
    {
        ScanResult::empty(ScanType::Firmware, path_text(&self.firmware_path))
    }

    /// The texts in the image that are worth a look: none.
    pub fn extract_strings(&self) -> (strings: Vec<String>)
        ensures
            strings@.len() == 0,
    {
        Vec::new()
    }

    /// The known weaknesses in the image: none.
    pub fn find_vulnerabilities(&self) -> (findings: Vec<Finding>)
        ensures
            findings@.len() == 0,
    {
        Vec::new()
    }
}

} // verus!
