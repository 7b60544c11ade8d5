//! The panel that shows what the agent thinks and does.

use vstd::prelude::*;

verus! {

#[derive(Debug, Clone, Copy, PartialEq, Eq, Structural)]
pub enum AgentLogType {
    History,
    Thought,
    Plan,
    Tool,
}

impl AgentLogType {
    /// The colour and the label under which an entry of this kind is shown.
    pub open spec fn badge(&self) -> (u32, Seq<char>) {
        match self {
            AgentLogType::History => (0x6b7280, "HISTORY"@),
            AgentLogType::Thought => (0xa78bfa, "THOUGHT"@),
            AgentLogType::Plan => (0xfbbf24, "PLAN"@),
            AgentLogType::Tool => (0x60a5fa, "TOOL"@),
        }
    }

    /// The colour in which an entry of this kind is shown.
    pub fn color(&self) -> (color: u32)
        ensures
            color == self.badge().0,
    {
        match self {
            AgentLogType::History => 0x6b7280,
            AgentLogType::Thought => 0xa78bfa,
            AgentLogType::Plan => 0xfbbf24,
            AgentLogType::Tool => 0x60a5fa,
        }
    }

    /// The label under which an entry of this kind is shown.
    pub fn label(&self) -> (label: &'static str)
        ensures
            label@ == self.badge().1,
    {
        match self {
            AgentLogType::History => "HISTORY",
            AgentLogType::Thought => "THOUGHT",
            AgentLogType::Plan => "PLAN",
            AgentLogType::Tool => "TOOL",
        }
    }

    /// The sign that stands before an entry of this kind.
    pub fn icon(&self) -> (icon: &'static str)
        ensures
            icon@ == match self {
                AgentLogType::History => "⚪"@,
                AgentLogType::Thought => "💭"@,
                AgentLogType::Plan => "📋"@,
                AgentLogType::Tool => "🔧"@,
            },
    {
        match self {
            AgentLogType::History => "⚪",
            AgentLogType::Thought => "💭",
            AgentLogType::Plan => "📋",
            AgentLogType::Tool => "🔧",
        }
    }
}

/// One entry of the agent's log.
#[derive(Debug, Clone)]
pub struct AgentLog {
    log_type: AgentLogType,
    timestamp: String,
    content: String,
}

/// What an entry is, as a mathematical value.
pub struct AgentLogView {
    pub log_type: AgentLogType,
    pub timestamp: Seq<char>,
    pub content: Seq<char>,
}

impl View for AgentLog {
    type V = AgentLogView;

    closed spec fn view(&self) -> AgentLogView {
        AgentLogView {
            log_type: self.log_type,
            timestamp: self.timestamp@,
            content: self.content@,
        }
    }
}

impl AgentLog {
    pub fn new(log_type: AgentLogType, timestamp: String, content: String) -> (log: Self)
        ensures
            log@ == (AgentLogView { log_type, timestamp: timestamp@, content: content@ }),
    {
        Self { log_type, timestamp, content }
    }

    pub fn log_type(&self) -> (log_type: AgentLogType)
        ensures
            log_type == self@.log_type,
    {
        self.log_type
    }

    pub fn timestamp(&self) -> (timestamp: &String)
        ensures
            timestamp@ == self@.timestamp,
    {
        &self.timestamp
    }

    pub fn content(&self) -> (content: &String)
        ensures
            content@ == self@.content,
    {
        &self.content
    }
}

pub struct AgentPanel {
    agent_name: String,
    mission_objective: String,
    logs: Vec<AgentLog>,
    is_live: bool,
}

/// What the panel is, as a mathematical value.
pub struct AgentPanelView {
    pub agent_name: Seq<char>,
    pub mission_objective: Seq<char>,
    pub logs: Seq<AgentLog>,
    pub is_live: bool,
}

impl View for AgentPanel {
    type V = AgentPanelView;

    closed spec fn view(&self) -> AgentPanelView {
        AgentPanelView {
            agent_name: self.agent_name@,
            mission_objective: self.mission_objective@,
            logs: self.logs@,
            is_live: self.is_live,
        }
    }
}

impl AgentPanel {
    /// The panel as the screen opens: the sample agent and its objective,
    /// live, with an empty log.
    pub fn new() -> (panel: Self)
        ensures
            panel@ == (AgentPanelView {
                agent_name: "PENLIGENT AGENT"@,
                mission_objective: "Analyze the target drone communication interface for injection vulnerabilities."@,
                logs: Seq::empty(),
                is_live: true,
            }),
    {
        Self {
            agent_name: "PENLIGENT AGENT".to_string(),
            mission_objective: "Analyze the target drone communication interface for injection vulnerabilities.".to_string(),
            logs: Vec::new(),
            is_live: true,
        }
    }

    /// Puts `log` at the end of the log.
    pub fn add_log(&mut self, log: AgentLog)
        ensures
            final(self)@ == (AgentPanelView { logs: old(self)@.logs.push(log), ..old(self)@ }),
    {
        self.logs.push(log);
    }

    pub fn agent_name(&self) -> (name: &String)
        ensures
            name@ == self@.agent_name,
    {
        &self.agent_name
    }

    pub fn mission_objective(&self) -> (objective: &String)
        ensures
            objective@ == self@.mission_objective,
    {
        &self.mission_objective
    }

    pub fn logs(&self) -> (logs: &Vec<AgentLog>)
        ensures
            logs@ == self@.logs,
    {
        &self.logs
    }

    pub fn is_live(&self) -> (live: bool)
        ensures
            live == self@.is_live,
    {
        self.is_live
    }
}

} // verus!
