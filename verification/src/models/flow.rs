//! The nodes of a flow of work, and how they run.

use crate::clock::now_rfc3339;
use crate::ident::{hyphenated, Uuid};
use std::collections::HashMap;
use vstd::prelude::*;

verus! {

#[derive(Debug, Clone, Copy, PartialEq, Eq, Hash, Structural)]
pub enum NodeType {
    Atomic,
    Composite,
    Task,
}

#[derive(Debug, Clone, Copy, PartialEq, Eq, Hash, Structural)]
pub enum ExecutionStatus {
    Pending,
    Running,
    Completed,
    Failed,
    Skipped,
    Cancelled,
}

#[derive(Debug, Clone, Copy, PartialEq, Eq, Structural)]
pub enum ConnectionType {
    Dependency,
    OnSuccess,
    OnFailure,
    Conditional,
}

/// How often a node ran, how often it went well, and how long it took.
///
/// The rate of success is not kept: it is the successful runs over all
/// runs.
#[derive(Debug, Clone)]
pub struct ExecutionMetrics {
    pub total_executions: u32,
    pub successful_executions: u32,
    pub failed_executions: u32,
    pub estimated_duration_ms: u64,
    pub actual_duration_ms: Option<u64>,
    pub average_duration_ms: Option<u64>,
}

/// The average duration after a run of `duration_ms`, the `total`-th run
/// of all: the duration itself for the first run or without an average so
/// far, and else the average so far, weighed by the runs before, with the
/// new duration, rounded down.
pub open spec fn average_after(average: Option<u64>, total: nat, duration_ms: nat) -> int {
    match average {
        Some(so_far) => if total == 1 {
            duration_ms as int
        } else {
            (so_far * (total - 1) + duration_ms) / (total as int)
        },
        None => duration_ms as int,
    }
}

impl ExecutionMetrics {
    /// No run yet.
    pub fn new(estimated_duration_ms: u64) -> (metrics: Self)
        ensures
            metrics == (ExecutionMetrics {
                total_executions: 0,
                successful_executions: 0,
                failed_executions: 0,
                estimated_duration_ms,
                actual_duration_ms: None,
                average_duration_ms: None,
            }),
    {
        Self {
            total_executions: 0,
            successful_executions: 0,
            failed_executions: 0,
            estimated_duration_ms,
            actual_duration_ms: None,
            average_duration_ms: None,
        }
    }

    /// Whether one more run can be counted: whether no counter is full,
    /// and the sum that the new average is taken from fits its type.
    pub open spec fn can_record(&self, duration_ms: u64) -> bool {
        &&& self.total_executions < u32::MAX
        &&& self.successful_executions < u32::MAX
        &&& self.failed_executions < u32::MAX
        &&& match self.average_duration_ms {
            Some(so_far) => so_far * self.total_executions + duration_ms <= u64::MAX,
            None => true,
        }
    }

    /// Whether one more run can be counted.
    pub fn fits(&self, duration_ms: u64) -> (fits: bool)
        ensures
            fits == self.can_record(duration_ms),
    {
        if self.total_executions == u32::MAX || self.successful_executions == u32::MAX
            || self.failed_executions == u32::MAX {
            return false;
        }
        match self.average_duration_ms {
            Some(so_far) => {
                assert(so_far * self.total_executions <= 0xffff_ffff_ffff_ffff * 0xffff_ffff)
                    by (nonlinear_arith)
                    requires
                        so_far <= 0xffff_ffff_ffff_ffff,
                        self.total_executions <= 0xffff_ffff,
                ;
                let weighed: u128 = so_far as u128 * self.total_executions as u128;
                let sum: u128 = weighed + duration_ms as u128;
                sum <= u64::MAX as u128
            },
            None => true,
        }
    }

    /// These metrics after one more run, which took `duration_ms` and went
    /// well or not.
    pub open spec fn after_run(&self, duration_ms: u64, success: bool) -> ExecutionMetrics {
        ExecutionMetrics {
            total_executions: (self.total_executions + 1) as u32,
            successful_executions: if success {
                (self.successful_executions + 1) as u32
            } else {
                self.successful_executions
            },
            failed_executions: if success {
                self.failed_executions
            } else {
                (self.failed_executions + 1) as u32
            },
            estimated_duration_ms: self.estimated_duration_ms,
            actual_duration_ms: Some(duration_ms),
            average_duration_ms: Some(
                average_after(
                    self.average_duration_ms,
                    (self.total_executions + 1) as nat,
                    duration_ms as nat,
                ) as u64,
            ),
        }
    }

    /// Counts one more run, which took `duration_ms` and went well or not.
    pub fn record_execution(&mut self, duration_ms: u64, success: bool)
        requires
            old(self).can_record(duration_ms),
        ensures
            *final(self) == old(self).after_run(duration_ms, success),
            final(self).average_duration_ms matches Some(average) && average == average_after(
                old(self).average_duration_ms,
                old(self).total_executions as nat + 1,
                duration_ms as nat,
            ),
    {
        self.total_executions += 1;
        if success {
            self.successful_executions += 1;
        } else {
            self.failed_executions += 1;
        }
        self.actual_duration_ms = Some(duration_ms);
        self.average_duration_ms = if self.total_executions == 1 {
            Some(duration_ms)
        } else {
            match self.average_duration_ms {
                Some(so_far) => {
                    let runs_before: u64 = (self.total_executions - 1) as u64;
                    assert(so_far * runs_before + duration_ms <= u64::MAX);
                    Some((so_far * runs_before + duration_ms) / self.total_executions as u64)
                },
                None => Some(duration_ms),
            }
        };
    }

    /// Counts one more run if it can be counted, and says whether it was.
    /// A run that cannot be counted changes nothing.
    pub fn try_record_execution(&mut self, duration_ms: u64, success: bool) -> (recorded: bool)
        ensures
            recorded == old(self).can_record(duration_ms),
            *final(self) == if recorded {
                old(self).after_run(duration_ms, success)
            } else {
                *old(self)
            },
    {
        if self.fits(duration_ms) {
            self.record_execution(duration_ms, success);
            true
        } else {
            false
        }
    }
}

/// How many instances of a node may run at once, and how many do.
#[derive(Debug, Clone)]
pub struct ParallelExecution {
    pub max_parallel: u32,
    pub current_parallel: u32,
    pub total_instances: u32,
}

impl ParallelExecution {
    /// One instance, none running yet.
    pub fn new(max_parallel: u32) -> (made: Self)
        ensures
            made == (ParallelExecution { max_parallel, current_parallel: 0, total_instances: 1 }),
    {
        Self { max_parallel, current_parallel: 0, total_instances: 1 }
    }

    /// `total_instances` instances, none running yet.
    pub fn with_instances(max_parallel: u32, total_instances: u32) -> (made: Self)
        ensures
            made == (ParallelExecution { max_parallel, current_parallel: 0, total_instances }),
    {
        Self { max_parallel, current_parallel: 0, total_instances }
    }

    /// Whether one more instance may start.
    pub fn can_start_more(&self) -> (free: bool)
        ensures
            free == (self.current_parallel < self.max_parallel),
    {
        self.current_parallel < self.max_parallel
    }
}

/// The nodes on the longest chain of a flow.
#[derive(Debug, Clone)]
pub struct CriticalPath {
    pub nodes: Vec<String>,
    pub is_critical: bool,
}

impl CriticalPath {
    /// No node, and not critical.
    pub fn new() -> (path: Self)
        ensures
            path.nodes@ == Seq::<String>::empty(),
            !path.is_critical,
    {
        Self { nodes: Vec::new(), is_critical: false }
    }

    /// The critical path over `nodes`.
    pub fn with_nodes(nodes: Vec<String>) -> (path: Self)
        ensures
            path == (CriticalPath { nodes, is_critical: true }),
    {
        Self { nodes, is_critical: true }
    }
}

impl Default for CriticalPath {
    fn default() -> (path: Self)
        ensures
            path.nodes@ == Seq::<String>::empty(),
            !path.is_critical,
    {
        Self::new()
    }
}

#[derive(Debug, Clone)]
pub struct StepInfo {
    pub step_number: u32,
    pub description: String,
    pub sub_step_count: Option<u32>,
}

#[derive(Debug, Clone)]
pub struct RetryConfig {
    pub max_retries: u32,
    pub retry_count: u32,
    pub backoff_strategy: BackoffStrategy,
}

/// How long to wait before a retry.
#[derive(Debug, Clone, Copy)]
pub enum BackoffStrategy {
    NoBackoff,
    Fixed { delay_ms: u64 },
    Exponential { base_delay_ms: u64, max_delay_ms: u64 },
}

#[derive(Debug, Clone)]
pub struct TimingInfo {
    pub created_at: String,
    pub started_at: Option<String>,
    pub completed_at: Option<String>,
    pub expected_duration_ms: u64,
}

/// One node of a flow of work.
#[derive(Debug, Clone)]
pub struct FlowNode {
    pub id: String,
    pub name: String,
    pub node_type: NodeType,
    pub status: ExecutionStatus,
    pub dependencies: Vec<String>,
    pub connections: HashMap<String, ConnectionType>,
    pub step_info: StepInfo,
    pub metrics: ExecutionMetrics,
    pub parallel: ParallelExecution,
    pub critical_path: CriticalPath,
    pub targets: Vec<String>,
    pub parameters: HashMap<String, String>,
    pub retry_config: RetryConfig,
    pub timing: TimingInfo,
    pub metadata: HashMap<String, String>,
}

impl FlowNode {
    /// Whether nothing is known of this node yet but what `new` was given:
    /// it waits, depends on nothing, has not run, may run once at a time
    /// and be tried three times over, and everything else is empty or
    /// absent.
    pub open spec fn is_fresh(&self) -> bool {
        &&& self.status == ExecutionStatus::Pending
        &&& self.dependencies@.len() == 0
        &&& self.connections@ == Map::<String, ConnectionType>::empty()
        &&& self.step_info.description@.len() == 0
        &&& self.step_info.sub_step_count is None
        &&& self.metrics == (ExecutionMetrics {
            total_executions: 0,
            successful_executions: 0,
            failed_executions: 0,
            estimated_duration_ms: 0,
            actual_duration_ms: None,
            average_duration_ms: None,
        })
        &&& self.parallel == (ParallelExecution {
            max_parallel: 1,
            current_parallel: 0,
            total_instances: 1,
        })
        &&& self.critical_path.nodes@.len() == 0
        &&& !self.critical_path.is_critical
        &&& self.targets@.len() == 0
        &&& self.parameters@ == Map::<String, String>::empty()
        &&& self.retry_config.max_retries == 3
        &&& self.retry_config.retry_count == 0
        &&& self.retry_config.backoff_strategy is NoBackoff
        &&& self.timing.started_at is None
        &&& self.timing.completed_at is None
        &&& self.timing.expected_duration_ms == 0
        &&& self.metadata@ == Map::<String, String>::empty()
    }

    /// The node with the identity `id` that was made at the time
    /// `created_at`.
    pub fn with_id(
        id: String,
        name: String,
        node_type: NodeType,
        step_number: u32,
        created_at: String,
    ) -> (node: Self)
        ensures
            node.id == id,
            node.name == name,
            node.node_type == node_type,
            node.step_info.step_number == step_number,
            node.timing.created_at == created_at,
            node.is_fresh(),
    {
        Self {
            id,
            name,
            node_type,
            status: ExecutionStatus::Pending,
            dependencies: Vec::new(),
            connections: HashMap::new(),
            step_info: StepInfo { step_number, description: String::new(), sub_step_count: None },
            metrics: ExecutionMetrics::new(0),
            parallel: ParallelExecution::new(1),
            critical_path: CriticalPath::new(),
            targets: Vec::new(),
            parameters: HashMap::new(),
            retry_config: RetryConfig {
                max_retries: 3,
                retry_count: 0,
                backoff_strategy: BackoffStrategy::NoBackoff,
            },
            timing: TimingInfo {
                created_at,
                started_at: None,
                completed_at: None,
                expected_duration_ms: 0,
            },
            metadata: HashMap::new(),
        }
    }

    /// A node with a new random identity, made now.
    pub fn new(name: String, node_type: NodeType, step_number: u32) -> (node: Self)
        ensures
            exists|id: Uuid| id.is_random() && node.id@ == hyphenated(id.0),
            node.name == name,
            node.node_type == node_type,
            node.step_info.step_number == step_number,
            node.is_fresh(),
    {
        let id = Uuid::new_v4();
        Self::with_id(id.to_string(), name, node_type, step_number, now_rfc3339())
    }
}

} // verus!
