//! The data that the panels show: tasks, assets, traffic, flows, devices.

pub mod asset;
pub mod device;
pub mod flow;
pub mod task;
pub mod traffic;
pub mod vuln;

pub use asset::{
    AssetData, AssetNode, AssetStatus, ComplianceStandard, ComplianceStatus, Connection,
    Credential, ScanProgress, Service, Severity, ZoneType,
};
pub use device::{
    ContainerExecutionStatus, DeviceCapability, DeviceIcon, DeviceStatus, TemperatureStatus,
};
pub use flow::{
    BackoffStrategy, ConnectionType, CriticalPath, ExecutionMetrics, ExecutionStatus, FlowNode,
    NodeType, ParallelExecution, RetryConfig, StepInfo, TimingInfo,
};
pub use task::{TaskData, TaskStatus};
pub use traffic::{AnomalyType, HttpMethod, Protocol, TrafficEntry, TrafficSource};
pub use vuln::{
    DetectionLocation, DetectionSource, ExploitMaturity, ScanType, VulnData, VulnSeverity,
    VulnStatus,
};
