//! What the whole application knows: the target, the scan, the agent.

use vstd::prelude::*;

verus! {

#[derive(Debug, Clone, Copy, PartialEq, Eq, Structural)]
pub enum ScanStatus {
    Idle,
    Running,
    Completed,
    Failed,
}

pub struct AppState {
    pub current_target: String,
    pub scan_status: ScanStatus,
    pub active_ai_agent: Option<String>,
    pub is_dev_mode: bool,
}

impl AppState {
    /// The state at the start: no target, no scan, no agent.
    pub fn new(is_dev_mode: bool) -> (state: Self)
        ensures
            state.current_target@ == Seq::<char>::empty(),
            state.scan_status == ScanStatus::Idle,
            state.active_ai_agent is None,
            state.is_dev_mode == is_dev_mode,
    {
        Self {
            current_target: String::new(),
            scan_status: ScanStatus::Idle,
            active_ai_agent: None,
            is_dev_mode,
        }
    }

    pub fn set_target(&mut self, target: String)
        ensures
            *final(self) == (AppState { current_target: target, ..*old(self) }),
    {
        self.current_target = target;
    }

    pub fn get_target(&self) -> (target: String)
        ensures
            target == self.current_target,
    {
        self.current_target.clone()
    }

    pub fn set_scan_status(&mut self, status: ScanStatus)
        ensures
            *final(self) == (AppState { scan_status: status, ..*old(self) }),
    {
        self.scan_status = status;
    }

    pub fn get_scan_status(&self) -> (status: ScanStatus)
        ensures
            status == self.scan_status,
    {
        self.scan_status
    }

    pub fn set_active_ai_agent(&mut self, agent: Option<String>)
        ensures
            *final(self) == (AppState { active_ai_agent: agent, ..*old(self) }),
    {
        self.active_ai_agent = agent;
    }

    pub fn get_active_ai_agent(&self) -> (agent: Option<String>)
        ensures
            agent == self.active_ai_agent,
    {
        match &self.active_ai_agent {
            Some(name) => Some(name.clone()),
            None => None,
        }
    }
}

} // verus!
