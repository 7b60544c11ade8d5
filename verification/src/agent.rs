//! Agents, and the scheduler that hands them tasks.

use crate::ident::Uuid;
use crate::sequences::lemma_filter_take_next;
use crate::task::Task;
use vstd::prelude::*;
use vstd::string::StringExecFns;

verus! {

#[derive(Debug, Clone, Copy, PartialEq, Eq, Structural)]
pub enum AgentStatus {
    Idle,
    Running,
    Paused,
    Completed,
    Failed,
}

/// What an agent can do.
#[derive(Debug, Clone, Copy, PartialEq, Eq, Structural)]
pub enum AgentCapability {
    NetworkScan,
    ProtocolAnalysis,
    FirmwareAnalysis,
    ExploitExecution,
}

/// A worker that runs tasks.
#[derive(Debug, Clone)]
pub struct Agent {
    pub id: Uuid,
    pub name: String,
    pub status: AgentStatus,
    pub capabilities: Vec<AgentCapability>,
}

impl Agent {
    /// The idle agent with the given identity.
    pub fn with_id(id: Uuid, name: String, capabilities: Vec<AgentCapability>) -> (agent: Self)
        ensures
            agent == (Agent { id, name, status: AgentStatus::Idle, capabilities }),
    {
        Self { id, name, status: AgentStatus::Idle, capabilities }
    }

    /// An idle agent with a new random identity.
    pub fn new(name: String, capabilities: Vec<AgentCapability>) -> (agent: Self)
        ensures
            agent.id.is_random(),
            agent == (Agent { id: agent.id, name, status: AgentStatus::Idle, capabilities }),
    {
        Self::with_id(Uuid::new_v4(), name, capabilities)
    }
}

/// What came of running a task.
#[derive(Debug)]
pub struct TaskResult {
    pub task_name: String,
    pub success: bool,
    pub output: String,
}

impl TaskResult {
    /// The result of a task that ran to its end.
    pub fn completed(task_name: &str) -> (result: Self)
        ensures
            result.task_name@ == task_name@,
            result.success,
            result.output@ == "Task "@ + task_name@ + " completed successfully"@,
    {
        let output = "Task ".to_string().concat(task_name).concat(" completed successfully");
        Self { task_name: task_name.to_string(), success: true, output }
    }
}

/// That the scheduler could not take a task.
#[derive(Debug, Clone, Copy, PartialEq, Eq, Structural)]
pub struct SchedulerError;

/// The agents that can be given work, and the tasks that wait for one.
pub struct AgentScheduler {
    agents: Vec<Agent>,
    task_queue: Vec<Task>,
}

/// What a scheduler is, as a mathematical value.
pub struct AgentSchedulerView {
    /// The agents, in the order in which they were first registered.
    pub agents: Seq<Agent>,
    /// The waiting tasks, the one that waits longest first.
    pub task_queue: Seq<Task>,
}

/// The index of the first agent at or behind `from` with the identity `id`.
pub open spec fn agent_index_from(agents: Seq<Agent>, id: Uuid, from: int) -> Option<int>
    decreases agents.len() - from,
{
    if from < 0 || from >= agents.len() {
        None
    } else if agents[from].id == id {
        Some(from)
    } else {
        agent_index_from(agents, id, from + 1)
    }
}

/// The agents `agents` with `agent` registered: in the place of the agent
/// that had its identity, or else behind all others.
pub open spec fn with_agent(agents: Seq<Agent>, agent: Agent) -> Seq<Agent> {
    match agent_index_from(agents, agent.id, 0) {
        Some(index) => agents.update(index, agent),
        None => agents.push(agent),
    }
}

/// No two agents have the same identity.
pub open spec fn distinct_ids(agents: Seq<Agent>) -> bool {
    forall|i: int, j: int|
        0 <= i < j < agents.len() ==> (#[trigger] agents[i]).id != (#[trigger] agents[j]).id
}

/// The agent `agent`, now running.
pub open spec fn running(agent: Agent) -> Agent {
    Agent { status: AgentStatus::Running, ..agent }
}

/// The agents `agents` after `tasks` waiting tasks were handed out among
/// those at or behind `from`: in their order, every idle agent takes one
/// task and runs, until no task is left.
pub open spec fn after_assignment(agents: Seq<Agent>, from: int, tasks: nat) -> Seq<Agent>
    decreases agents.len() - from,
{
    if from < 0 || from >= agents.len() || tasks == 0 {
        agents
    } else if agents[from].status == AgentStatus::Idle {
        after_assignment(agents.update(from, running(agents[from])), from + 1, (tasks - 1) as nat)
    } else {
        after_assignment(agents, from + 1, tasks)
    }
}

/// The number of tasks that are handed out when `tasks` tasks wait for the
/// agents at or behind `from`: one for every idle agent, as long as a task
/// is left.
pub open spec fn assigned_count(agents: Seq<Agent>, from: int, tasks: nat) -> nat
    decreases agents.len() - from,
{
    if from < 0 || from >= agents.len() || tasks == 0 {
        0
    } else if agents[from].status == AgentStatus::Idle {
        1 + assigned_count(agents, from + 1, (tasks - 1) as nat)
    } else {
        assigned_count(agents, from + 1, tasks)
    }
}

/// The agents among `agents` that are running, in their order.
pub open spec fn active(agents: Seq<Agent>) -> Seq<Agent> {
    agents.filter(|agent: Agent| agent.status == AgentStatus::Running)
}

impl View for AgentScheduler {
    type V = AgentSchedulerView;

    closed spec fn view(&self) -> AgentSchedulerView {
        AgentSchedulerView { agents: self.agents@, task_queue: self.task_queue@ }
    }
}

impl AgentScheduler {
    /// No two agents of the scheduler have the same identity.
    pub open spec fn wf(&self) -> bool {
        distinct_ids(self@.agents)
    }

    /// A scheduler without agents and without tasks.
    pub fn new() -> (scheduler: Self)
        ensures
            scheduler.wf(),
            scheduler@.agents == Seq::<Agent>::empty(),
            scheduler@.task_queue == Seq::<Task>::empty(),
    {
        Self { agents: Vec::new(), task_queue: Vec::new() }
    }

    /// Registers `agent`. An agent that was registered under the same
    /// identity gives way to it.
    pub fn register_agent(&mut self, agent: Agent)
        requires
            old(self).wf(),
        ensures
            final(self).wf(),
            final(self)@.agents == with_agent(old(self)@.agents, agent),
            final(self)@.task_queue == old(self)@.task_queue,
    {
        let mut i: usize = 0;
        while i < self.agents.len()
            invariant
                i <= self.agents.len(),
                self.agents@ == old(self).agents@,
                self.task_queue@ == old(self).task_queue@,
                distinct_ids(old(self).agents@),
                agent_index_from(self.agents@, agent.id, 0) == agent_index_from(
                    self.agents@,
                    agent.id,
                    i as int,
                ),
                forall|k: int| 0 <= k < i ==> (#[trigger] self.agents@[k]).id != agent.id,
            decreases self.agents.len() - i,
        {
            if self.agents[i].id == agent.id {
                self.agents[i] = agent;
                proof {
                    let before = old(self).agents@;
                    let after = self.agents@;
                    assert forall|a: int, b: int| 0 <= a < b < after.len() implies (
                    #[trigger] after[a]).id != (#[trigger] after[b]).id by {
                        assert(after[a].id == before[a].id);
                        assert(after[b].id == before[b].id);
                    }
                }
                return ;
            }
            i += 1;
        }
        self.agents.push(agent);
        proof {
            let before = old(self).agents@;
            let after = self.agents@;
            assert forall|a: int, b: int| 0 <= a < b < after.len() implies (#[trigger] after[a]).id
                != (#[trigger] after[b]).id by {
                if b < before.len() {
                    assert(after[a].id == before[a].id);
                    assert(after[b].id == before[b].id);
                } else {
                    assert(after[a] == before[a]);
                }
            }
        }
    }

    /// Puts `task` behind the tasks that wait. The scheduler takes every
    /// task.
    pub fn schedule_task(&mut self, task: Task) -> (result: Result<(), SchedulerError>)
        ensures
            result is Ok,
            final(self)@.agents == old(self)@.agents,
            final(self)@.task_queue == old(self)@.task_queue.push(task),
    {
        self.task_queue.push(task);
        Ok(())
    }

    /// Hands waiting tasks to idle agents: in the order of their
    /// registration, every idle agent takes the task that waits longest and
    /// runs, until no task is left.
    pub fn assign_tasks(&mut self) -> (result: Result<(), SchedulerError>)
        requires
            old(self).wf(),
        ensures
            result is Ok,
            final(self).wf(),
            final(self)@.agents == after_assignment(
                old(self)@.agents,
                0,
                old(self)@.task_queue.len(),
            ),
            final(self)@.task_queue == old(self)@.task_queue.skip(
                assigned_count(old(self)@.agents, 0, old(self)@.task_queue.len()) as int,
            ),
    {
        let ghost agents_before = self.agents@;
        let ghost queue_before = self.task_queue@;
        let ghost mut taken: nat = 0;
        let mut i: usize = 0;
        proof {
            assert(queue_before.skip(0) =~= queue_before);
        }
        while i < self.agents.len()
            invariant
                i <= self.agents.len(),
                self.agents@.len() == agents_before.len(),
                taken <= queue_before.len(),
                self.task_queue@ == queue_before.skip(taken as int),
                forall|k: int| 0 <= k < self.agents@.len() ==> (#[trigger] self.agents@[k]).id
                    == agents_before[k].id,
                forall|k: int| i <= k < self.agents@.len() ==> #[trigger] self.agents@[k]
                    == agents_before[k],
                after_assignment(agents_before, 0, queue_before.len()) == after_assignment(
                    self.agents@,
                    i as int,
                    (queue_before.len() - taken) as nat,
                ),
                assigned_count(agents_before, 0, queue_before.len()) == taken + assigned_count(
                    agents_before,
                    i as int,
                    (queue_before.len() - taken) as nat,
                ),
            decreases self.agents.len() - i,
        {
            let ghost agents_now = self.agents@;
            if self.agents[i].status == AgentStatus::Idle && self.task_queue.len() > 0 {
                let _ = self.task_queue.remove(0);
                self.agents[i].status = AgentStatus::Running;
                proof {
                    assert(self.task_queue@ =~= queue_before.skip(taken as int + 1));
                    assert(self.agents@ =~= agents_now.update(
                        i as int,
                        running(agents_now[i as int]),
                    ));
                    taken = taken + 1;
                }
            }
            i += 1;
        }
        Ok(())
    }

    /// The agents that are running, in the order of their registration.
    pub fn get_active_agents(&self) -> (found: Vec<&Agent>)
        ensures
            found@.map_values(|agent: &Agent| *agent) == active(self@.agents),
    {
        let mut found: Vec<&Agent> = Vec::new();
        let mut i: usize = 0;
        proof {
            assert(found@.map_values(|agent: &Agent| *agent) =~= Seq::<Agent>::empty());
            assert(self.agents@.take(0) =~= Seq::<Agent>::empty());
            Seq::<Agent>::empty().lemma_filter_len(|agent: Agent| agent.status == AgentStatus::Running);
        }
        while i < self.agents.len()
            invariant
                i <= self.agents.len(),
                found@.map_values(|agent: &Agent| *agent) == active(self.agents@.take(i as int)),
            decreases self.agents.len() - i,
        {
            proof {
                lemma_filter_take_next(
                    self.agents@,
                    |agent: Agent| agent.status == AgentStatus::Running,
                    i as int,
                );
            }
            let ghost found_before = found@;
            if self.agents[i].status == AgentStatus::Running {
                found.push(&self.agents[i]);
                proof {
                    assert(found@.map_values(|agent: &Agent| *agent) =~= found_before.map_values(
                        |agent: &Agent| *agent,
                    ).push(self.agents@[i as int]));
                }
            }
            i += 1;
        }
        proof {
            assert(self.agents@.take(i as int) =~= self.agents@);
        }
        found
    }

    /// The agents, in the order in which they were first registered.
    pub fn agents(&self) -> (agents: &Vec<Agent>)
        ensures
            agents@ == self@.agents,
    {
        &self.agents
    }

    /// The waiting tasks, the one that waits longest first.
    pub fn task_queue(&self) -> (tasks: &Vec<Task>)
        ensures
            tasks@ == self@.task_queue,
    {
        &self.task_queue
    }
}

} // verus!
