//! The assets under test: hosts, their services, and how much is at risk.

use vstd::prelude::*;

verus! {

/// An asset, as the inventory lists it.
#[derive(Debug, Clone)]
pub struct AssetData {
    pub id: String,
    pub name: String,
    pub asset_type: String,
    pub status: String,
}

impl AssetData {
    /// A copy of the asset.
    pub fn duplicate(&self) -> (copy: Self)
        ensures
            copy == *self,
    {
        Self {
            id: self.id.clone(),
            name: self.name.clone(),
            asset_type: self.asset_type.clone(),
            status: self.status.clone(),
        }
    }
}

/// How much is at risk.
#[derive(Debug, Clone, Copy, PartialEq, Eq, Structural)]
pub enum Severity {
    Critical,
    High,
    Medium,
    Low,
    Info,
}

impl Severity {
    /// The colour in which this severity is shown, as `0xRRGGBB`.
    pub open spec fn spec_color_hex(&self) -> u32 {
        match self {
            Severity::Critical => 0xef4444,
            Severity::High => 0xf97316,
            Severity::Medium => 0xfbbf24,
            Severity::Low => 0x10b981,
            Severity::Info => 0x6b7280,
        }
    }

    /// The name under which this severity is shown.
    pub open spec fn name(&self) -> Seq<char> {
        match self {
            Severity::Critical => "CRITICAL"@,
            Severity::High => "HIGH"@,
            Severity::Medium => "MEDIUM"@,
            Severity::Low => "LOW"@,
            Severity::Info => "INFO"@,
        }
    }

    /// The colour in which this severity is shown, as `0xRRGGBB`.
    #[verifier::when_used_as_spec(spec_color_hex)]
    pub fn color_hex(&self) -> (color: u32)
        ensures
            color == self.spec_color_hex(),
    {
        match self {
            Severity::Critical => 0xef4444,
            Severity::High => 0xf97316,
            Severity::Medium => 0xfbbf24,
            Severity::Low => 0x10b981,
            Severity::Info => 0x6b7280,
        }
    }

    /// The name under which this severity is shown.
    pub fn display_name(&self) -> (name: &'static str)
        ensures
            name@ == self.name(),
    {
        match self {
            Severity::Critical => "CRITICAL",
            Severity::High => "HIGH",
            Severity::Medium => "MEDIUM",
            Severity::Low => "LOW",
            Severity::Info => "INFO",
        }
    }
}

/// The zone of the network in which an asset stands.
#[derive(Debug, Clone, Copy, PartialEq, Eq, Structural)]
pub enum ZoneType {
    /// The outside network.
    Z1,
    /// The demilitarised zone.
    Z2,
    /// The business network.
    Z3,
    /// The flight control devices.
    Z4,
    /// The device communication layer.
    Z5,
}

impl ZoneType {
    /// The name under which this zone is shown.
    pub open spec fn name(&self) -> Seq<char> {
        match self {
            ZoneType::Z1 => "外部网络"@,
            ZoneType::Z2 => "DMZ"@,
            ZoneType::Z3 => "业务网络"@,
            ZoneType::Z4 => "飞控设备层"@,
            ZoneType::Z5 => "设备通信层"@,
        }
    }

    /// The name under which this zone is shown.
    pub fn display_name(&self) -> (name: &'static str)
        ensures
            name@ == self.name(),
    {
        match self {
            ZoneType::Z1 => "外部网络",
            ZoneType::Z2 => "DMZ",
            ZoneType::Z3 => "业务网络",
            ZoneType::Z4 => "飞控设备层",
            ZoneType::Z5 => "设备通信层",
        }
    }
}

/// A service that an asset offers on a port.
#[derive(Debug, Clone)]
pub struct Service {
    pub port: u16,
    pub protocol: String,
    pub service_name: String,
    pub version: Option<String>,
    pub banner: Option<String>,
}

/// A login that was found to work on an asset.
#[derive(Debug, Clone)]
pub struct Credential {
    pub username: String,
    pub password: String,
    pub auth_type: String,
    pub last_used: Option<String>,
}

/// How far the scan of an asset has come.
#[derive(Debug, Clone)]
pub struct ScanProgress {
    pub percentage: u8,
    pub last_scan: Option<String>,
    pub next_scan: Option<String>,
    pub scan_type: String,
    pub scanning: bool,
}

#[derive(Debug, Clone)]
pub struct ComplianceStandard {
    pub name: String,
    pub status: ComplianceStatus,
    pub last_audit: Option<String>,
}

#[derive(Debug, Clone, Copy, PartialEq, Eq, Structural)]
pub enum ComplianceStatus {
    Compliant,
    NonCompliant,
    Pending,
    NotApplicable,
}

/// A link from one asset to another.
#[derive(Debug, Clone)]
pub struct Connection {
    pub target_id: String,
    pub connection_type: String,
    pub protocol: String,
    pub port: u16,
}

#[derive(Debug, Clone, Copy, PartialEq, Eq, Structural)]
pub enum AssetStatus {
    Online,
    Offline,
    Unknown,
    Maintenance,
}

/// An asset with all that is known of it.
#[derive(Debug, Clone)]
pub struct AssetNode {
    pub id: String,
    pub name: String,
    pub ip_address: String,
    pub mac_address: Option<String>,
    pub zone: ZoneType,
    pub severity: Severity,
    pub risk_score: u8,
    pub vulnerabilities_count: usize,
    pub services: Vec<Service>,
    pub open_ports: Vec<u16>,
    pub credentials: Vec<Credential>,
    pub owner: String,
    pub business_purpose: String,
    pub department: Option<String>,
    pub scan_progress: ScanProgress,
    pub compliance_standards: Vec<ComplianceStandard>,
    pub connections: Vec<Connection>,
    pub status: AssetStatus,
    pub last_seen: String,
    pub asset_type: String,
    pub firmware_version: Option<String>,
    pub manufacturer: Option<String>,
    pub location: Option<String>,
}

impl AssetNode {
    /// Whether nothing is known of this asset yet but what `new` was given:
    /// no finding, no service, no open port, a quick scan that has not
    /// begun, and every text empty.
    pub open spec fn is_fresh(&self) -> bool {
        &&& self.mac_address is None
        &&& self.severity == Severity::Info
        &&& self.risk_score == 0
        &&& self.vulnerabilities_count == 0
        &&& self.services@.len() == 0
        &&& self.open_ports@.len() == 0
        &&& self.credentials@.len() == 0
        &&& self.owner@.len() == 0
        &&& self.business_purpose@.len() == 0
        &&& self.department is None
        &&& self.scan_progress.percentage == 0
        &&& self.scan_progress.last_scan is None
        &&& self.scan_progress.next_scan is None
        &&& self.scan_progress.scan_type@ == "Quick"@
        &&& !self.scan_progress.scanning
        &&& self.compliance_standards@.len() == 0
        &&& self.connections@.len() == 0
        &&& self.status == AssetStatus::Unknown
        &&& self.last_seen@.len() == 0
        &&& self.asset_type@.len() == 0
        &&& self.firmware_version is None
        &&& self.manufacturer is None
        &&& self.location is None
    }

    /// An asset of which only its identity, name, address and zone are
    /// known.
    pub fn new(id: String, name: String, ip_address: String, zone: ZoneType) -> (node: Self)
        ensures
            node.id == id,
            node.name == name,
            node.ip_address == ip_address,
            node.zone == zone,
            node.is_fresh(),
    {
        Self {
            id,
            name,
            ip_address,
            mac_address: None,
            zone,
            severity: Severity::Info,
            risk_score: 0,
            vulnerabilities_count: 0,
            services: Vec::new(),
            open_ports: Vec::new(),
            credentials: Vec::new(),
            owner: String::new(),
            business_purpose: String::new(),
            department: None,
            scan_progress: ScanProgress {
                percentage: 0,
                last_scan: None,
                next_scan: None,
                scan_type: "Quick".to_string(),
                scanning: false,
            },
            compliance_standards: Vec::new(),
            connections: Vec::new(),
            status: AssetStatus::Unknown,
            last_seen: String::new(),
            asset_type: String::new(),
            firmware_version: None,
            manufacturer: None,
            location: None,
        }
    }

    pub fn is_critical(&self) -> (critical: bool)
        ensures
            critical == (self.severity == Severity::Critical),
    {
        self.severity == Severity::Critical
    }

    pub fn open_ports_count(&self) -> (count: usize)
        ensures
            count == self.open_ports@.len(),
    {
        self.open_ports.len()
    }

    pub fn services_count(&self) -> (count: usize)
        ensures
            count == self.services@.len(),
    {
        self.services.len()
    }

    pub fn is_scanning(&self) -> (scanning: bool)
        ensures
            scanning == self.scan_progress.scanning,
    {
        self.scan_progress.scanning
    }

    /// The colour of this asset's severity, as `0xRRGGBB`.
    pub fn severity_color(&self) -> (color: u32)
        ensures
            color == self.severity.spec_color_hex(),
    {
        self.severity.color_hex()
    }
}

} // verus!
