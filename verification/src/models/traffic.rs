//! One request and its answer, as the traffic panel lists them.

use crate::text::{bool_to_string, decimal, i64_to_string, signed_decimal, str_is, u64_to_string};
use vstd::prelude::*;

verus! {

#[derive(Debug, Clone, Copy, PartialEq, Eq, Hash, Structural)]
pub enum Protocol {
    HTTP,
    HTTPS,
    FTP,
    TELNET,
    MAVLink,
    DJI,
    Unknown,
}

impl Protocol {
    /// The name under which this protocol is shown.
    pub open spec fn name(&self) -> Seq<char> {
        match self {
            Protocol::HTTP => "HTTP"@,
            Protocol::HTTPS => "HTTPS"@,
            Protocol::FTP => "FTP"@,
            Protocol::TELNET => "TELNET"@,
            Protocol::MAVLink => "MAVLink"@,
            Protocol::DJI => "DJI"@,
            Protocol::Unknown => "UNKNOWN"@,
        }
    }

    /// The name under which this protocol is shown.
    pub fn to_string(&self) -> (text: String)
        ensures
            text@ == self.name(),
    {
        match self {
            Protocol::HTTP => "HTTP".to_string(),
            Protocol::HTTPS => "HTTPS".to_string(),
            Protocol::FTP => "FTP".to_string(),
            Protocol::TELNET => "TELNET".to_string(),
            Protocol::MAVLink => "MAVLink".to_string(),
            Protocol::DJI => "DJI".to_string(),
            Protocol::Unknown => "UNKNOWN".to_string(),
        }
    }
}

#[derive(Debug, Clone, Copy, PartialEq, Eq, Hash, Structural)]
pub enum HttpMethod {
    GET,
    POST,
    PUT,
    DELETE,
    PATCH,
    HEAD,
    OPTIONS,
    CONNECT,
    TRACE,
    Unknown,
}

impl HttpMethod {
    /// The name under which this method is shown.
    pub open spec fn name(&self) -> Seq<char> {
        match self {
            HttpMethod::GET => "GET"@,
            HttpMethod::POST => "POST"@,
            HttpMethod::PUT => "PUT"@,
            HttpMethod::DELETE => "DELETE"@,
            HttpMethod::PATCH => "PATCH"@,
            HttpMethod::HEAD => "HEAD"@,
            HttpMethod::OPTIONS => "OPTIONS"@,
            HttpMethod::CONNECT => "CONNECT"@,
            HttpMethod::TRACE => "TRACE"@,
            HttpMethod::Unknown => "UNKNOWN"@,
        }
    }

    /// The name under which this method is shown.
    pub fn to_string(&self) -> (text: String)
        ensures
            text@ == self.name(),
    {
        match self {
            HttpMethod::GET => "GET".to_string(),
            HttpMethod::POST => "POST".to_string(),
            HttpMethod::PUT => "PUT".to_string(),
            HttpMethod::DELETE => "DELETE".to_string(),
            HttpMethod::PATCH => "PATCH".to_string(),
            HttpMethod::HEAD => "HEAD".to_string(),
            HttpMethod::OPTIONS => "OPTIONS".to_string(),
            HttpMethod::CONNECT => "CONNECT".to_string(),
            HttpMethod::TRACE => "TRACE".to_string(),
            HttpMethod::Unknown => "UNKNOWN".to_string(),
        }
    }
}

#[derive(Debug, Clone, Copy, PartialEq, Eq, Hash, Structural)]
pub enum AnomalyType {
    StatusAnomaly,
    LatencyAnomaly,
    SizeAnomaly,
    PatternAnomaly,
    ResponseAnomaly,
    TLSIssue,
    ProtocolViolation,
}

#[derive(Debug, Clone, Copy, PartialEq, Eq, Hash, Structural)]
pub enum TrafficSource {
    Intercept,
    Replay,
    Workflow,
    Plugin,
    Import,
}

/// One request and its answer.
#[derive(Debug, Clone)]
pub struct TrafficEntry {
    pub id: i64,
    pub created_at: String,
    pub method: Option<HttpMethod>,
    pub path: String,
    pub query: Option<String>,
    pub host: String,
    pub port: u16,
    pub protocol: Protocol,
    pub tls: bool,
    pub extension: Option<String>,
    pub status: u16,
    pub status_text: Option<String>,
    pub duration_ms: u64,
    pub request_size: u64,
    pub response_size: u64,
    pub asset_id: String,
    pub asset_name: String,
    pub target_ip: Option<String>,
    pub source_ip: Option<String>,
    pub source_port: Option<u16>,
    pub request_raw: Option<String>,
    pub request_headers: Vec<(String, String)>,
    pub request_body: Option<String>,
    pub response_raw: Option<String>,
    pub response_headers: Vec<(String, String)>,
    pub response_body: Option<String>,
    pub source: TrafficSource,
    pub task_id: Option<i64>,
    pub workspace_id: Option<String>,
    pub flow_id: Option<String>,
    pub anomalies: Vec<AnomalyType>,
    pub anomaly_description: Option<String>,
    pub is_live: bool,
    pub finding_ids: Vec<i64>,
    pub artifact_ids: Vec<i64>,
    pub notes: Option<String>,
    pub is_exported: bool,
}

/// The fields of a traffic entry that a filter or a column can name.
#[derive(Debug, Clone, Copy, PartialEq, Eq, Structural)]
pub enum TrafficField {
    Method,
    Path,
    Status,
    Protocol,
    Time,
    Asset,
    ResponseSize,
    Duration,
    Host,
    Port,
    Query,
    Tls,
    Extension,
    RequestSize,
    RowId,
}

/// The field that the name `field` stands for, if it stands for one.
pub open spec fn field_named(field: Seq<char>) -> Option<TrafficField> {
    if field == "method"@ || field == "req.method"@ {
        Some(TrafficField::Method)
    } else if field == "path"@ || field == "req.path"@ {
        Some(TrafficField::Path)
    } else if field == "status"@ || field == "resp.code"@ {
        Some(TrafficField::Status)
    } else if field == "proto"@ || field == "protocol"@ {
        Some(TrafficField::Protocol)
    } else if field == "time"@ {
        Some(TrafficField::Time)
    } else if field == "asset"@ {
        Some(TrafficField::Asset)
    } else if field == "size"@ {
        Some(TrafficField::ResponseSize)
    } else if field == "duration"@ || field == "resp.roundtrip"@ {
        Some(TrafficField::Duration)
    } else if field == "req.host"@ {
        Some(TrafficField::Host)
    } else if field == "req.port"@ {
        Some(TrafficField::Port)
    } else if field == "req.query"@ {
        Some(TrafficField::Query)
    } else if field == "req.tls"@ {
        Some(TrafficField::Tls)
    } else if field == "req.ext"@ {
        Some(TrafficField::Extension)
    } else if field == "req.len"@ {
        Some(TrafficField::RequestSize)
    } else if field == "resp.len"@ {
        Some(TrafficField::ResponseSize)
    } else if field == "row.id"@ {
        Some(TrafficField::RowId)
    } else {
        None
    }
}

/// The field that the name `field` stands for, if it stands for one.
pub fn parse_field(field: &str) -> (parsed: Option<TrafficField>)
    ensures
        parsed == field_named(field@),
{
    if str_is(field, "method") || str_is(field, "req.method") {
        Some(TrafficField::Method)
    } else if str_is(field, "path") || str_is(field, "req.path") {
        Some(TrafficField::Path)
    } else if str_is(field, "status") || str_is(field, "resp.code") {
        Some(TrafficField::Status)
    } else if str_is(field, "proto") || str_is(field, "protocol") {
        Some(TrafficField::Protocol)
    } else if str_is(field, "time") {
        Some(TrafficField::Time)
    } else if str_is(field, "asset") {
        Some(TrafficField::Asset)
    } else if str_is(field, "size") {
        Some(TrafficField::ResponseSize)
    } else if str_is(field, "duration") || str_is(field, "resp.roundtrip") {
        Some(TrafficField::Duration)
    } else if str_is(field, "req.host") {
        Some(TrafficField::Host)
    } else if str_is(field, "req.port") {
        Some(TrafficField::Port)
    } else if str_is(field, "req.query") {
        Some(TrafficField::Query)
    } else if str_is(field, "req.tls") {
        Some(TrafficField::Tls)
    } else if str_is(field, "req.ext") {
        Some(TrafficField::Extension)
    } else if str_is(field, "req.len") {
        Some(TrafficField::RequestSize)
    } else if str_is(field, "resp.len") {
        Some(TrafficField::ResponseSize)
    } else if str_is(field, "row.id") {
        Some(TrafficField::RowId)
    } else {
        None
    }
}

/// A copy of the text in `text`, if there is one.
fn clone_text(text: &Option<String>) -> (copy: Option<String>)
    ensures
        copy == *text,
{
    match text {
        Some(s) => Some(s.clone()),
        None => None,
    }
}

impl TrafficEntry {
    /// Whether nothing is known of this entry yet but what `new` was given:
    /// port 80, an unknown protocol, an intercepted request, and everything
    /// else empty, absent, zero or off.
    pub open spec fn is_blank(&self) -> bool {
        &&& self.method is None
        &&& self.path@.len() == 0
        &&& self.query is None
        &&& self.host@.len() == 0
        &&& self.port == 80
        &&& self.protocol == Protocol::Unknown
        &&& !self.tls
        &&& self.extension is None
        &&& self.status == 0
        &&& self.status_text is None
        &&& self.duration_ms == 0
        &&& self.request_size == 0
        &&& self.response_size == 0
        &&& self.asset_id@.len() == 0
        &&& self.asset_name@.len() == 0
        &&& self.target_ip is None
        &&& self.source_ip is None
        &&& self.source_port is None
        &&& self.request_raw is None
        &&& self.request_headers@.len() == 0
        &&& self.request_body is None
        &&& self.response_raw is None
        &&& self.response_headers@.len() == 0
        &&& self.response_body is None
        &&& self.source == TrafficSource::Intercept
        &&& self.task_id is None
        &&& self.workspace_id is None
        &&& self.flow_id is None
        &&& self.anomalies@.len() == 0
        &&& self.anomaly_description is None
        &&& !self.is_live
        &&& self.finding_ids@.len() == 0
        &&& self.artifact_ids@.len() == 0
        &&& self.notes is None
        &&& !self.is_exported
    }

    /// An entry of which only its number and its time are known.
    pub fn new(id: i64, created_at: String) -> (entry: Self)
        ensures
            entry.id == id,
            entry.created_at == created_at,
            entry.is_blank(),
    {
        Self {
            id,
            created_at,
            method: None,
            path: String::new(),
            query: None,
            host: String::new(),
            port: 80,
            protocol: Protocol::Unknown,
            tls: false,
            extension: None,
            status: 0,
            status_text: None,
            duration_ms: 0,
            request_size: 0,
            response_size: 0,
            asset_id: String::new(),
            asset_name: String::new(),
            target_ip: None,
            source_ip: None,
            source_port: None,
            request_raw: None,
            request_headers: Vec::new(),
            request_body: None,
            response_raw: None,
            response_headers: Vec::new(),
            response_body: None,
            source: TrafficSource::Intercept,
            task_id: None,
            workspace_id: None,
            flow_id: None,
            anomalies: Vec::new(),
            anomaly_description: None,
            is_live: false,
            finding_ids: Vec::new(),
            artifact_ids: Vec::new(),
            notes: None,
            is_exported: false,
        }
    }

    /// What this entry shows in the field `field`: a text as it is, the
    /// name of a method or a protocol, a number in decimal digits, a flag as
    /// `true` or `false`. `None` where the entry has no value there.
    pub open spec fn field_text(&self, field: TrafficField) -> Option<Seq<char>> {
        match field {
            TrafficField::Method => match self.method {
                Some(method) => Some(method.name()),
                None => None,
            },
            TrafficField::Path => Some(self.path@),
            TrafficField::Status => Some(decimal(self.status as nat)),
            TrafficField::Protocol => Some(self.protocol.name()),
            TrafficField::Time => Some(self.created_at@),
            TrafficField::Asset => Some(self.asset_name@),
            TrafficField::ResponseSize => Some(decimal(self.response_size as nat)),
            TrafficField::Duration => Some(decimal(self.duration_ms as nat)),
            TrafficField::Host => Some(self.host@),
            TrafficField::Port => Some(decimal(self.port as nat)),
            TrafficField::Query => match self.query {
                Some(query) => Some(query@),
                None => None,
            },
            TrafficField::Tls => Some(
                if self.tls {
                    "true"@
                } else {
                    "false"@
                },
            ),
            TrafficField::Extension => match self.extension {
                Some(extension) => Some(extension@),
                None => None,
            },
            TrafficField::RequestSize => Some(decimal(self.request_size as nat)),
            TrafficField::RowId => Some(signed_decimal(self.id as int)),
        }
    }

    /// What this entry shows under the name `field`; `None` where the name
    /// stands for no field, or the entry has no value there.
    pub fn get_field(&self, field: &str) -> (text: Option<String>)
        ensures
            match text {
                Some(shown) => field_named(field@) matches Some(named) && self.field_text(named)
                    == Some(shown@),
                None => field_named(field@) matches Some(named) ==> self.field_text(named)
                    is None,
            },
    {
        match parse_field(field) {
            None => None,
            Some(named) => match named {
                TrafficField::Method => match self.method {
                    Some(method) => Some(method.to_string()),
                    None => None,
                },
                TrafficField::Path => Some(self.path.clone()),
                TrafficField::Status => Some(u64_to_string(self.status as u64)),
                TrafficField::Protocol => Some(self.protocol.to_string()),
                TrafficField::Time => Some(self.created_at.clone()),
                TrafficField::Asset => Some(self.asset_name.clone()),
                TrafficField::ResponseSize => Some(u64_to_string(self.response_size)),
                TrafficField::Duration => Some(u64_to_string(self.duration_ms)),
                TrafficField::Host => Some(self.host.clone()),
                TrafficField::Port => Some(u64_to_string(self.port as u64)),
                TrafficField::Query => clone_text(&self.query),
                TrafficField::Tls => Some(bool_to_string(self.tls)),
                TrafficField::Extension => clone_text(&self.extension),
                TrafficField::RequestSize => Some(u64_to_string(self.request_size)),
                TrafficField::RowId => Some(i64_to_string(self.id)),
            },
        }
    }
}

} // verus!
