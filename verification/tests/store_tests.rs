use uavred::database::{
    delete_task_sql, escape_quotes, list_tasks_sql, next_task_id, save_task_sql,
    status_to_string, string_to_status, task_from_row, DatabaseError, CREATE_TABLE_SQL,
    MAX_ID_SQL,
};
use uavred::memory::{MemoryAssetRepository, MemoryTaskRepository, MemoryVulnRepository};
use uavred::models::{AssetData, TaskData, TaskStatus, VulnData, VulnSeverity};
use uavred::repository::{AssetRepository, TaskRepository, VulnRepository};
use uavred::task_store::{TaskStore, TaskStoreEvent};
use uavred::workspace::VulnFilter;

fn task(id: usize, title: &str, status: TaskStatus) -> TaskData {
    TaskData::new(id, title.to_string(), "SCAN".to_string(), "high".to_string(), status)
}

fn ids(tasks: &[TaskData]) -> Vec<usize> {
    tasks.iter().map(|t| t.id).collect()
}

fn asset(id: &str, name: &str) -> AssetData {
    AssetData {
        id: id.to_string(),
        name: name.to_string(),
        asset_type: "drone".to_string(),
        status: "online".to_string(),
    }
}

fn vuln(id: &str, severity: VulnSeverity) -> VulnData<u8, u8> {
    VulnData::new(id.to_string(), format!("title {}", id), String::new(), severity)
}

#[test]
fn task_repository_starts_empty() {
    let store = MemoryTaskRepository::new();
    assert!(store.get_tasks(TaskStatus::Todo).is_empty());
    assert!(store.get_tasks(TaskStatus::InProgress).is_empty());
    assert!(store.get_tasks(TaskStatus::Done).is_empty());
    assert_eq!(store.get_next_task_id(), 1);
}

#[test]
fn task_repository_filters_by_status_in_order() {
    let store = MemoryTaskRepository::with_initial_tasks(vec![
        task(3, "c", TaskStatus::Todo),
        task(1, "a", TaskStatus::Done),
        task(2, "b", TaskStatus::Todo),
    ]);
    assert_eq!(ids(&store.get_tasks(TaskStatus::Todo)), vec![3, 2]);
    assert_eq!(ids(&store.get_tasks(TaskStatus::Done)), vec![1]);
    assert!(store.get_tasks(TaskStatus::InProgress).is_empty());
    assert_eq!(store.get_tasks(TaskStatus::Todo)[1].title, "b");
}

#[test]
fn task_repository_add_remove_update() {
    let mut store = MemoryTaskRepository::new();
    store.add_task(task(1, "a", TaskStatus::Todo));
    store.add_task(task(2, "b", TaskStatus::Todo));
    store.add_task(task(1, "again", TaskStatus::Todo));
    assert_eq!(ids(&store.get_tasks(TaskStatus::Todo)), vec![1, 2, 1]);
    // Only the first task with the identity gives way.
    store.update_task(task(1, "changed", TaskStatus::Done));
    assert_eq!(ids(&store.get_tasks(TaskStatus::Todo)), vec![2, 1]);
    assert_eq!(store.get_tasks(TaskStatus::Done)[0].title, "changed");
    // An unknown task changes nothing.
    store.update_task(task(9, "nobody", TaskStatus::Done));
    assert_eq!(ids(&store.get_tasks(TaskStatus::Done)), vec![1]);
    // Every task with the identity goes.
    store.remove_task(1);
    assert_eq!(ids(&store.get_tasks(TaskStatus::Todo)), vec![2]);
    assert!(store.get_tasks(TaskStatus::Done).is_empty());
    store.remove_task(1);
    assert_eq!(ids(&store.get_tasks(TaskStatus::Todo)), vec![2]);
}

#[test]
fn task_repository_next_id_is_above_the_highest() {
    let store = MemoryTaskRepository::with_initial_tasks(vec![
        task(3, "c", TaskStatus::Todo),
        task(17, "a", TaskStatus::Done),
        task(2, "b", TaskStatus::Todo),
    ]);
    assert_eq!(store.get_next_task_id(), 18);
    let zero = MemoryTaskRepository::with_initial_tasks(vec![task(0, "z", TaskStatus::Todo)]);
    assert_eq!(zero.get_next_task_id(), 1);
}

#[test]
fn asset_repository() {
    let mut store = MemoryAssetRepository::new();
    assert!(store.get_assets().is_empty());
    store.add_asset(asset("a", "one"));
    store.add_asset(asset("b", "two"));
    store.add_asset(asset("a", "three"));
    let names = |s: &MemoryAssetRepository| -> Vec<String> {
        s.get_assets().iter().map(|a| a.name.clone()).collect()
    };
    assert_eq!(names(&store), vec!["one", "two", "three"]);
    store.update_asset(asset("a", "changed"));
    assert_eq!(names(&store), vec!["changed", "two", "three"]);
    store.update_asset(asset("zz", "nobody"));
    assert_eq!(names(&store), vec!["changed", "two", "three"]);
    store.remove_asset("A");
    assert_eq!(names(&store), vec!["changed", "two", "three"]);
    store.remove_asset("a");
    assert_eq!(names(&store), vec!["two"]);
    let seeded = MemoryAssetRepository::with_initial_assets(vec![asset("x", "y")]);
    assert_eq!(names(&seeded), vec!["y"]);
}

#[test]
fn vuln_repository() {
    let mut store: MemoryVulnRepository<u8, u8> = MemoryVulnRepository::new();
    assert!(store.get_vulns(VulnFilter::All).is_empty());
    store.add_vuln(vuln("1", VulnSeverity::Critical));
    store.add_vuln(vuln("2", VulnSeverity::Low));
    store.add_vuln(vuln("3", VulnSeverity::Critical));
    store.add_vuln(vuln("4", VulnSeverity::Info));
    let found = |s: &MemoryVulnRepository<u8, u8>, filter: VulnFilter| -> Vec<String> {
        s.get_vulns(filter).iter().map(|v| v.id.clone()).collect()
    };
    assert_eq!(found(&store, VulnFilter::All), vec!["1", "2", "3", "4"]);
    assert_eq!(found(&store, VulnFilter::Critical), vec!["1", "3"]);
    assert_eq!(found(&store, VulnFilter::Low), vec!["2"]);
    assert!(found(&store, VulnFilter::High).is_empty());
    assert!(found(&store, VulnFilter::Medium).is_empty());
    store.update_vuln(vuln("3", VulnSeverity::Medium));
    assert_eq!(found(&store, VulnFilter::Critical), vec!["1"]);
    assert_eq!(found(&store, VulnFilter::Medium), vec!["3"]);
    assert_eq!(found(&store, VulnFilter::All), vec!["1", "2", "3", "4"]);
    store.update_vuln(vuln("9", VulnSeverity::Medium));
    assert_eq!(found(&store, VulnFilter::All), vec!["1", "2", "3", "4"]);
    store.remove_vuln("2");
    assert_eq!(found(&store, VulnFilter::All), vec!["1", "3", "4"]);
    store.remove_vuln("2");
    assert_eq!(found(&store, VulnFilter::All), vec!["1", "3", "4"]);
    let seeded = MemoryVulnRepository::with_initial_vulns(vec![vuln("x", VulnSeverity::High)]);
    assert_eq!(found(&seeded, VulnFilter::High), vec!["x"]);
}

#[test]
fn status_names_read_back() {
    for status in [TaskStatus::Todo, TaskStatus::InProgress, TaskStatus::Done] {
        let name = status_to_string(status);
        assert_eq!(string_to_status(&name).unwrap(), status);
    }
    assert_eq!(status_to_string(TaskStatus::InProgress), "in_progress");
}

#[test]
fn unknown_status_is_refused() {
    for name in ["", "Todo", "in progress", "finished"] {
        match string_to_status(name) {
            Err(DatabaseError::InvalidStatus(text)) => assert_eq!(text, name),
            Ok(_) => panic!("{} names no status", name),
        }
    }
    let error = string_to_status("finished").unwrap_err();
    assert_eq!(error.message(), "无效的任务状态: finished");
}

#[test]
fn quotes_are_doubled() {
    assert_eq!(escape_quotes("plain"), "plain");
    assert_eq!(escape_quotes("it's"), "it''s");
    assert_eq!(escape_quotes("'"), "''");
    assert_eq!(escape_quotes("''"), "''''");
    assert_eq!(escape_quotes(""), "");
    assert_eq!(escape_quotes("a'b'c"), "a''b''c");
}

#[test]
fn statements() {
    assert_eq!(
        list_tasks_sql(TaskStatus::InProgress),
        "SELECT id, title, task_type, priority, status, created_at, updated_at FROM tasks WHERE status = 'in_progress' ORDER BY id ASC"
    );
    assert_eq!(delete_task_sql(17), "DELETE FROM tasks WHERE id = 17");
    assert_eq!(delete_task_sql(0), "DELETE FROM tasks WHERE id = 0");
    assert_eq!(MAX_ID_SQL, "SELECT COALESCE(MAX(id), 0) FROM tasks");
    assert!(CREATE_TABLE_SQL.starts_with("CREATE TABLE IF NOT EXISTS tasks (\n    id INTEGER PRIMARY KEY,\n"));
    assert!(CREATE_TABLE_SQL.ends_with("    updated_at TEXT NOT NULL\n)\n"));
    let task = TaskData::new(
        5,
        "Bob's scan".to_string(),
        "SCAN".to_string(),
        "hi'gh".to_string(),
        TaskStatus::Todo,
    );
    assert_eq!(
        save_task_sql(&task, "2024-05-17T09:30:00+00:00"),
        "INSERT OR REPLACE INTO tasks (id, title, task_type, priority, status, created_at, updated_at) VALUES (5, 'Bob''s scan', 'SCAN', 'hi''gh', 'todo', COALESCE((SELECT created_at FROM tasks WHERE id = 5), '2024-05-17T09:30:00+00:00'), '2024-05-17T09:30:00+00:00')"
    );
}

#[test]
fn rows_are_read() {
    let task = task_from_row(12, "t".to_string(), "SCAN".to_string(), "low".to_string(), "done")
        .unwrap();
    assert_eq!(task.id, 12);
    assert_eq!(task.title, "t");
    assert_eq!(task.task_type, "SCAN");
    assert_eq!(task.priority, "low");
    assert_eq!(task.status, TaskStatus::Done);
    let refused =
        task_from_row(12, "t".to_string(), "SCAN".to_string(), "low".to_string(), "DONE");
    assert!(matches!(refused, Err(DatabaseError::InvalidStatus(text)) if text == "DONE"));
    assert_eq!(next_task_id(0), 1);
    assert_eq!(next_task_id(41), 42);
}

#[test]
fn task_store_mirrors_the_database() {
    let mut store = TaskStore::new();
    assert!(store.get_tasks(TaskStatus::Todo).is_empty());
    let event = store.reload(
        vec![task(1, "a", TaskStatus::Todo), task(2, "b", TaskStatus::Todo)],
        vec![task(3, "c", TaskStatus::InProgress)],
        vec![],
    );
    assert!(matches!(event, TaskStoreEvent::TasksUpdated));
    assert_eq!(ids(&store.get_tasks(TaskStatus::Todo)), vec![1, 2]);
    assert_eq!(ids(&store.get_tasks(TaskStatus::InProgress)), vec![3]);
    assert!(store.get_tasks(TaskStatus::Done).is_empty());
    assert_eq!(store.get_task_status(1), Some(TaskStatus::Todo));
    assert_eq!(store.get_task_status(3), Some(TaskStatus::InProgress));
    assert_eq!(store.get_task_status(4), None);

    let event = store.add_task(task(4, "d", TaskStatus::Done));
    assert!(matches!(event, TaskStoreEvent::TaskAdded(added) if added.id == 4 && added.title == "d"));
    assert_eq!(ids(&store.get_tasks(TaskStatus::Done)), vec![4]);

    let before = store.get_task_status(1);
    let event = store.update_task(task(1, "moved", TaskStatus::Done), before);
    assert!(matches!(event, TaskStoreEvent::TaskUpdated(moved) if moved.title == "moved"));
    assert_eq!(ids(&store.get_tasks(TaskStatus::Todo)), vec![2]);
    assert_eq!(ids(&store.get_tasks(TaskStatus::Done)), vec![4, 1]);

    // A task that stays in its list moves to the end of it.
    let before = store.get_task_status(4);
    store.update_task(task(4, "again", TaskStatus::Done), before);
    assert_eq!(ids(&store.get_tasks(TaskStatus::Done)), vec![1, 4]);

    // A task that was in no list is added.
    let before = store.get_task_status(9);
    assert_eq!(before, None);
    store.update_task(task(9, "new", TaskStatus::Todo), before);
    assert_eq!(ids(&store.get_tasks(TaskStatus::Todo)), vec![2, 9]);

    let status = store.get_task_status(3);
    let event = store.delete_task(3, status);
    assert!(matches!(event, Some(TaskStoreEvent::TaskDeleted(3))));
    assert!(store.get_tasks(TaskStatus::InProgress).is_empty());
    let status = store.get_task_status(3);
    assert!(store.delete_task(3, status).is_none());
    assert_eq!(ids(&store.get_tasks(TaskStatus::Todo)), vec![2, 9]);
    assert_eq!(ids(&store.get_tasks(TaskStatus::Done)), vec![1, 4]);
}

#[test]
fn task_store_status_prefers_the_earlier_list() {
    let mut store = TaskStore::new();
    store.reload(
        vec![],
        vec![task(1, "running", TaskStatus::InProgress)],
        vec![task(1, "done", TaskStatus::Done)],
    );
    assert_eq!(store.get_task_status(1), Some(TaskStatus::InProgress));
}
