use uavred::agent::{
    Agent, AgentCapability, AgentScheduler, AgentStatus, SchedulerError, TaskResult,
};
use uavred::clock::{now_rfc3339, Timestamp};
use uavred::ident::Uuid;
use uavred::task::{Task, TaskPriority, TaskStatus, TaskType};

fn scan(name: &str) -> Task {
    Task::new(
        name.to_string(),
        TaskType::NetworkScan { target: "10.0.0.0/24".to_string() },
        TaskPriority::High,
    )
}

fn agent(id: u128, name: &str, status: AgentStatus) -> Agent {
    let mut agent = Agent::with_id(Uuid(id), name.to_string(), vec![AgentCapability::NetworkScan]);
    agent.status = status;
    agent
}

fn statuses(scheduler: &AgentScheduler) -> Vec<AgentStatus> {
    scheduler.agents().iter().map(|a| a.status).collect()
}

fn names(tasks: &[Task]) -> Vec<String> {
    tasks.iter().map(|t| t.name.clone()).collect()
}

#[test]
fn random_identifiers_are_version_four() {
    let a = Uuid::new_v4();
    let b = Uuid::new_v4();
    assert_ne!(a, b);
    for id in [a, b] {
        assert_eq!(id.0 & 0x0000_0000_0000_f000_c000_0000_0000_0000, 0x0000_0000_0000_4000_8000_0000_0000_0000);
    }
}

#[test]
fn identifier_as_text() {
    assert_eq!(
        Uuid(0xa1a2a3a4_b1b2_c1c2_d1d2_d3d4d5d6d7d8).to_string(),
        "a1a2a3a4-b1b2-c1c2-d1d2-d3d4d5d6d7d8"
    );
    assert_eq!(Uuid(0).to_string(), "00000000-0000-0000-0000-000000000000");
    assert_eq!(Uuid(u128::MAX).to_string(), "ffffffff-ffff-ffff-ffff-ffffffffffff");
    assert_eq!(Uuid(0x0123_4567_89ab_cdef).to_string(), "00000000-0000-0000-0123-456789abcdef");
}

#[test]
fn the_clock_gives_a_valid_time() {
    let now = Timestamp::now();
    assert!(now.nanoseconds < 1_000_000_000);
    // Later than the year 2020.
    assert!(now.seconds > 1_577_836_800);
    let later = Timestamp::now();
    assert!((later.seconds, later.nanoseconds) >= (now.seconds, now.nanoseconds));
    let text = now_rfc3339();
    assert!(text.ends_with("+00:00"));
    assert_eq!(&text[4..5], "-");
    assert_eq!(&text[10..11], "T");
}

#[test]
fn new_task_is_pending() {
    let task = scan("Sweep");
    assert_eq!(task.name, "Sweep");
    assert!(matches!(&task.task_type, TaskType::NetworkScan { target } if target == "10.0.0.0/24"));
    assert_eq!(task.status, TaskStatus::Pending);
    assert_eq!(task.priority, TaskPriority::High);
    assert_eq!(task.started_at, None);
    assert_eq!(task.completed_at, None);
    assert_eq!(task.id.0 >> 76 & 0xf, 4);
    assert!(task.created_at.nanoseconds < 1_000_000_000);
    assert_ne!(task.id, scan("Sweep").id);
}

#[test]
fn task_runs_through_its_states() {
    let mut task = scan("Sweep");
    let id = task.id;
    let created = task.created_at;
    task.start();
    assert_eq!(task.status, TaskStatus::Running);
    assert!(task.started_at.is_some());
    assert_eq!(task.completed_at, None);
    let started = task.started_at;
    task.complete();
    assert_eq!(task.status, TaskStatus::Completed);
    assert_eq!(task.started_at, started);
    assert!(task.completed_at.is_some());
    assert_eq!(task.id, id);
    assert_eq!(task.created_at, created);
    assert_eq!(task.name, "Sweep");
    let mut other = scan("Other");
    other.fail();
    assert_eq!(other.status, TaskStatus::Failed);
    assert_eq!(other.started_at, None);
    assert!(other.completed_at.is_some());
}

#[test]
fn task_states_at_given_times() {
    let at = |seconds: i64| Timestamp { seconds, nanoseconds: 5 };
    let mut task = Task::new_at(
        Uuid(9),
        "Fixed".to_string(),
        TaskType::FirmwareAnalysis { path: "/fw.bin".to_string() },
        TaskPriority::Low,
        at(100),
    );
    assert_eq!(task.id, Uuid(9));
    assert_eq!(task.created_at, at(100));
    assert_eq!(task.status, TaskStatus::Pending);
    task.start_at(at(200));
    assert_eq!((task.status, task.started_at, task.completed_at), (TaskStatus::Running, Some(at(200)), None));
    task.fail_at(at(300));
    assert_eq!((task.status, task.started_at, task.completed_at), (TaskStatus::Failed, Some(at(200)), Some(at(300))));
    task.complete_at(at(400));
    assert_eq!((task.status, task.started_at, task.completed_at), (TaskStatus::Completed, Some(at(200)), Some(at(400))));
    assert_eq!(task.created_at, at(100));
}

#[test]
fn priorities_order_from_low_up() {
    assert!(TaskPriority::Low < TaskPriority::Medium);
    assert!(TaskPriority::Medium < TaskPriority::High);
    assert!(TaskPriority::High < TaskPriority::Critical);
}

#[test]
fn new_agent_is_idle() {
    let agent = Agent::new(
        "scout".to_string(),
        vec![AgentCapability::NetworkScan, AgentCapability::ExploitExecution],
    );
    assert_eq!(agent.name, "scout");
    assert_eq!(agent.status, AgentStatus::Idle);
    assert_eq!(
        agent.capabilities,
        vec![AgentCapability::NetworkScan, AgentCapability::ExploitExecution]
    );
    assert_eq!(agent.id.0 >> 76 & 0xf, 4);
}

#[test]
fn task_result_of_a_completed_task() {
    let result = TaskResult::completed("Sweep");
    assert_eq!(result.task_name, "Sweep");
    assert!(result.success);
    assert_eq!(result.output, "Task Sweep completed successfully");
    assert_eq!(TaskResult::completed("").output, "Task  completed successfully");
}

#[test]
fn scheduler_starts_empty() {
    let scheduler = AgentScheduler::new();
    assert!(scheduler.agents().is_empty());
    assert!(scheduler.task_queue().is_empty());
    assert!(scheduler.get_active_agents().is_empty());
}

#[test]
fn register_agent_replaces_by_identity() {
    let mut scheduler = AgentScheduler::new();
    scheduler.register_agent(agent(1, "one", AgentStatus::Idle));
    scheduler.register_agent(agent(2, "two", AgentStatus::Idle));
    scheduler.register_agent(agent(1, "uno", AgentStatus::Paused));
    let names: Vec<&str> = scheduler.agents().iter().map(|a| a.name.as_str()).collect();
    assert_eq!(names, vec!["uno", "two"]);
    assert_eq!(statuses(&scheduler), vec![AgentStatus::Paused, AgentStatus::Idle]);
}

#[test]
fn schedule_task_queues_in_order() {
    let mut scheduler = AgentScheduler::new();
    assert_eq!(scheduler.schedule_task(scan("a")), Ok::<(), SchedulerError>(()));
    assert_eq!(scheduler.schedule_task(scan("b")), Ok(()));
    assert_eq!(names(scheduler.task_queue()), vec!["a", "b"]);
}

#[test]
fn assign_tasks_to_idle_agents_in_order() {
    let mut scheduler = AgentScheduler::new();
    scheduler.register_agent(agent(1, "busy", AgentStatus::Running));
    scheduler.register_agent(agent(2, "first", AgentStatus::Idle));
    scheduler.register_agent(agent(3, "paused", AgentStatus::Paused));
    scheduler.register_agent(agent(4, "second", AgentStatus::Idle));
    scheduler.register_agent(agent(5, "third", AgentStatus::Idle));
    scheduler.schedule_task(scan("a")).unwrap();
    scheduler.schedule_task(scan("b")).unwrap();
    assert_eq!(scheduler.assign_tasks(), Ok(()));
    assert_eq!(
        statuses(&scheduler),
        vec![
            AgentStatus::Running,
            AgentStatus::Running,
            AgentStatus::Paused,
            AgentStatus::Running,
            AgentStatus::Idle
        ]
    );
    assert!(scheduler.task_queue().is_empty());
    let active: Vec<&str> =
        scheduler.get_active_agents().iter().map(|a| a.name.as_str()).collect();
    assert_eq!(active, vec!["busy", "first", "second"]);
}

#[test]
fn assign_tasks_leaves_what_no_agent_takes() {
    let mut scheduler = AgentScheduler::new();
    scheduler.register_agent(agent(1, "only", AgentStatus::Idle));
    scheduler.register_agent(agent(2, "failed", AgentStatus::Failed));
    for name in ["a", "b", "c"] {
        scheduler.schedule_task(scan(name)).unwrap();
    }
    scheduler.assign_tasks().unwrap();
    assert_eq!(statuses(&scheduler), vec![AgentStatus::Running, AgentStatus::Failed]);
    assert_eq!(names(scheduler.task_queue()), vec!["b", "c"]);
    scheduler.assign_tasks().unwrap();
    assert_eq!(names(scheduler.task_queue()), vec!["b", "c"]);
}

#[test]
fn assign_tasks_without_tasks_or_agents() {
    let mut scheduler = AgentScheduler::new();
    scheduler.assign_tasks().unwrap();
    scheduler.register_agent(agent(1, "idle", AgentStatus::Idle));
    scheduler.assign_tasks().unwrap();
    assert_eq!(statuses(&scheduler), vec![AgentStatus::Idle]);
    let mut lonely = AgentScheduler::new();
    lonely.schedule_task(scan("a")).unwrap();
    lonely.assign_tasks().unwrap();
    assert_eq!(names(lonely.task_queue()), vec!["a"]);
}

#[test]
fn the_time_text_stands_for_the_time_of_the_clock() {
    let before = Timestamp::now();
    let text = now_rfc3339();
    let after = Timestamp::now();
    // "YYYY-MM-DDTHH:MM:SS", an optional fraction, and the offset of UTC.
    let bytes = text.as_bytes();
    assert!(bytes.len() >= 25);
    assert_eq!(bytes[4], b'-');
    assert_eq!(bytes[7], b'-');
    assert_eq!(bytes[10], b'T');
    assert_eq!(bytes[13], b':');
    assert_eq!(bytes[16], b':');
    assert!(text.ends_with("+00:00"));
    // The time of day that the text gives lies between the two readings.
    let number = |from: usize| text[from..from + 2].parse::<i64>().unwrap();
    let of_day = number(11) * 3600 + number(14) * 60 + number(17);
    let low = before.seconds.rem_euclid(86_400);
    let high = after.seconds.rem_euclid(86_400);
    if low <= high {
        assert!(low <= of_day && of_day <= high);
    } else {
        assert!(of_day >= low || of_day <= high);
    }
}
