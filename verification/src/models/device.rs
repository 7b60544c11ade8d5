//! The state of the radio devices and of the containers that run tasks.

use vstd::prelude::*;

verus! {

#[derive(Debug, Clone, Copy, PartialEq, Eq, Structural)]
pub enum DeviceStatus {
    Online,
    Offline,
    Busy,
    Error,
    Scanning,
}

#[derive(Debug, Clone, Copy, PartialEq, Eq, Structural)]
pub enum TemperatureStatus {
    Normal,
    Warning,
    Critical,
}

#[derive(Debug, Clone, Copy, PartialEq, Eq, Structural)]
pub enum DeviceIcon {
    Antenna,
    Radio,
    Satellite,
    Usb,
    Network,
}

#[derive(Debug, Clone, Copy, PartialEq, Eq, Structural)]
pub enum DeviceCapability {
    RFTransmit,
    RFReceive,
    SpectrumAnalysis,
    ProtocolAnalysis,
    MAVLink,
    DJI,
}

#[derive(Debug, Clone, Copy, PartialEq, Eq, Structural)]
pub enum ContainerExecutionStatus {
    Running,
    Stopped,
    Building,
}

impl ContainerExecutionStatus {
    /// The name under which this status is shown.
    pub open spec fn name(&self) -> Seq<char> {
        match self {
            ContainerExecutionStatus::Running => "RUNNING"@,
            ContainerExecutionStatus::Stopped => "STOPPED"@,
            ContainerExecutionStatus::Building => "BUILDING"@,
        }
    }

    /// The name under which this status is shown.
    pub fn to_string(&self) -> (text: String)
        ensures
            text@ == self.name(),
    {
        match self {
            ContainerExecutionStatus::Running => "RUNNING".to_string(),
            ContainerExecutionStatus::Stopped => "STOPPED".to_string(),
            ContainerExecutionStatus::Building => "BUILDING".to_string(),
        }
    }
}

} // verus!
