//! The tasks of the board as the application holds them: one list for each
//! status.
//!
//! The store mirrors the task table of the database. Whoever holds the
//! connection runs the statements; once a statement went through, the store
//! is told, changes its lists to match, and names the event that its
//! listeners are to hear.

use crate::models::{TaskData, TaskStatus};
use crate::repository::without_task;
use crate::sequences::lemma_filter_take_next;
use vstd::prelude::*;

verus! {

/// What the store tells its listeners.
#[derive(Debug, Clone)]
pub enum TaskStoreEvent {
    TasksUpdated,
    TaskAdded(TaskData),
    TaskUpdated(TaskData),
    TaskDeleted(usize),
}

/// The tasks of the board, one list for each status.
pub struct TaskStore {
    todo_tasks: Vec<TaskData>,
    in_progress_tasks: Vec<TaskData>,
    done_tasks: Vec<TaskData>,
}

/// What a store is, as a mathematical value.
pub struct TaskStoreView {
    pub todo_tasks: Seq<TaskData>,
    pub in_progress_tasks: Seq<TaskData>,
    pub done_tasks: Seq<TaskData>,
}

impl TaskStoreView {
    /// The list of the status `status`.
    pub open spec fn list(&self, status: TaskStatus) -> Seq<TaskData> {
        match status {
            TaskStatus::Todo => self.todo_tasks,
            TaskStatus::InProgress => self.in_progress_tasks,
            TaskStatus::Done => self.done_tasks,
        }
    }

    /// This store with `tasks` for the list of the status `status`.
    pub open spec fn with_list(&self, status: TaskStatus, tasks: Seq<TaskData>) -> TaskStoreView {
        match status {
            TaskStatus::Todo => TaskStoreView { todo_tasks: tasks, ..*self },
            TaskStatus::InProgress => TaskStoreView { in_progress_tasks: tasks, ..*self },
            TaskStatus::Done => TaskStoreView { done_tasks: tasks, ..*self },
        }
    }

    /// The list in which a task with the identity `id` stands: the first
    /// of the lists of waiting, running and finished tasks that holds one.
    pub open spec fn status_of(&self, id: usize) -> Option<TaskStatus> {
        if holds(self.todo_tasks, id) {
            Some(TaskStatus::Todo)
        } else if holds(self.in_progress_tasks, id) {
            Some(TaskStatus::InProgress)
        } else if holds(self.done_tasks, id) {
            Some(TaskStatus::Done)
        } else {
            None
        }
    }

    /// This store after the task `task` was stored anew: gone from the
    /// list `old_status`, if there is one, and at the end of the list of
    /// its own status.
    pub open spec fn updated(&self, task: TaskData, old_status: Option<TaskStatus>) -> TaskStoreView {
        let cleared = match old_status {
            Some(status) => self.with_list(status, without_task(self.list(status), task.id)),
            None => *self,
        };
        cleared.with_list(task.status, cleared.list(task.status).push(task))
    }
}

/// Whether a task with the identity `id` is among `tasks`.
pub open spec fn holds(tasks: Seq<TaskData>, id: usize) -> bool {
    exists|i: int| 0 <= i < tasks.len() && (#[trigger] tasks[i]).id == id
}

impl View for TaskStore {
    type V = TaskStoreView;

    closed spec fn view(&self) -> TaskStoreView {
        TaskStoreView {
            todo_tasks: self.todo_tasks@,
            in_progress_tasks: self.in_progress_tasks@,
            done_tasks: self.done_tasks@,
        }
    }
}

/// A copy of `tasks`.
fn copy_tasks(tasks: &Vec<TaskData>) -> (copy: Vec<TaskData>)
    ensures
        copy@ == tasks@,
{
    let mut copy: Vec<TaskData> = Vec::new();
    let mut i: usize = 0;
    while i < tasks.len()
        invariant
            i <= tasks.len(),
            copy@ == tasks@.take(i as int),
        decreases tasks.len() - i,
    {
        copy.push(tasks[i].duplicate());
        proof {
            assert(tasks@.take(i as int + 1) == tasks@.take(i as int).push(tasks@[i as int]));
        }
        i += 1;
    }
    proof {
        assert(tasks@.take(i as int) == tasks@);
    }
    copy
}

/// Whether a task with the identity `id` is among `tasks`.
fn has_task(tasks: &Vec<TaskData>, id: usize) -> (found: bool)
    ensures
        found == holds(tasks@, id),
{
    let mut i: usize = 0;
    while i < tasks.len()
        invariant
            i <= tasks.len(),
            forall|k: int| 0 <= k < i ==> (#[trigger] tasks@[k]).id != id,
        decreases tasks.len() - i,
    {
        if tasks[i].id == id {
            return true;
        }
        i += 1;
    }
    false
}

/// Takes every task with the identity `id` out of `tasks`.
fn drop_task(tasks: &mut Vec<TaskData>, id: usize)
    ensures
        final(tasks)@ == without_task(old(tasks)@, id),
{
    let mut kept: Vec<TaskData> = Vec::new();
    let mut i: usize = 0;
    while i < tasks.len()
        invariant
            i <= tasks.len(),
            tasks@ == old(tasks)@,
            kept@ == without_task(tasks@.take(i as int), id),
        decreases tasks.len() - i,
    {
        proof {
            lemma_filter_take_next(tasks@, |task: TaskData| task.id != id, i as int);
        }
        if tasks[i].id != id {
            kept.push(tasks[i].duplicate());
        }
        i += 1;
    }
    proof {
        assert(tasks@.take(i as int) == tasks@);
    }
    *tasks = kept;
}

impl TaskStore {
    /// A store without tasks.
    pub fn new() -> (store: Self)
        ensures
            store@ == (TaskStoreView {
                todo_tasks: Seq::empty(),
                in_progress_tasks: Seq::empty(),
                done_tasks: Seq::empty(),
            }),
    {
        Self { todo_tasks: Vec::new(), in_progress_tasks: Vec::new(), done_tasks: Vec::new() }
    }

    /// Takes in the three lists as the database holds them, and names the
    /// event for the listeners: that the tasks were updated.
    pub fn reload(
        &mut self,
        todo_tasks: Vec<TaskData>,
        in_progress_tasks: Vec<TaskData>,
        done_tasks: Vec<TaskData>,
    ) -> (event: TaskStoreEvent)
        ensures
            event is TasksUpdated,
            final(self)@ == (TaskStoreView {
                todo_tasks: todo_tasks@,
                in_progress_tasks: in_progress_tasks@,
                done_tasks: done_tasks@,
            }),
    {
        self.todo_tasks = todo_tasks;
        self.in_progress_tasks = in_progress_tasks;
        self.done_tasks = done_tasks;
        TaskStoreEvent::TasksUpdated
    }

    /// The tasks of the status `status`.
    pub fn get_tasks(&self, status: TaskStatus) -> (tasks: Vec<TaskData>)
        ensures
            tasks@ == self@.list(status),
    {
        match status {
            TaskStatus::Todo => copy_tasks(&self.todo_tasks),
            TaskStatus::InProgress => copy_tasks(&self.in_progress_tasks),
            TaskStatus::Done => copy_tasks(&self.done_tasks),
        }
    }

    /// Puts a task that was stored in the database at the end of the list
    /// of its status, and names the event for the listeners: that the task
    /// was added.
    pub fn add_task(&mut self, task: TaskData) -> (event: TaskStoreEvent)
        ensures
            event == TaskStoreEvent::TaskAdded(task),
            final(self)@ == old(self)@.with_list(
                task.status,
                old(self)@.list(task.status).push(task),
            ),
    {
        let event = TaskStoreEvent::TaskAdded(task.duplicate());
        match task.status {
            TaskStatus::Todo => self.todo_tasks.push(task),
            TaskStatus::InProgress => self.in_progress_tasks.push(task),
            TaskStatus::Done => self.done_tasks.push(task),
        }
        event
    }

    /// Moves a task that was stored anew in the database to the end of the
    /// list of its status, and names the event for the listeners: that the
    /// task was updated. `old_status` is the list in which the task stood
    /// before, as `get_task_status` gave it.
    pub fn update_task(&mut self, task: TaskData, old_status: Option<TaskStatus>) -> (event:
        TaskStoreEvent)
        ensures
            event == TaskStoreEvent::TaskUpdated(task),
            final(self)@ == old(self)@.updated(task, old_status),
    {
        match old_status {
            Some(TaskStatus::Todo) => drop_task(&mut self.todo_tasks, task.id),
            Some(TaskStatus::InProgress) => drop_task(&mut self.in_progress_tasks, task.id),
            Some(TaskStatus::Done) => drop_task(&mut self.done_tasks, task.id),
            None => {},
        }
        let event = TaskStoreEvent::TaskUpdated(task.duplicate());
        match task.status {
            TaskStatus::Todo => self.todo_tasks.push(task),
            TaskStatus::InProgress => self.in_progress_tasks.push(task),
            TaskStatus::Done => self.done_tasks.push(task),
        }
        event
    }

    /// Takes a task that was deleted from the database out of the list in
    /// which it stood, and names the event for the listeners: that the task
    /// was deleted. Without such a list nothing changes, and nobody is
    /// told.
    pub fn delete_task(&mut self, id: usize, status: Option<TaskStatus>) -> (event: Option<
        TaskStoreEvent,
    >)
        ensures
            match status {
                Some(list) => event == Some(TaskStoreEvent::TaskDeleted(id)) && final(self)@
                    == old(self)@.with_list(list, without_task(old(self)@.list(list), id)),
                None => event is None && final(self)@ == old(self)@,
            },
    {
        match status {
            Some(TaskStatus::Todo) => drop_task(&mut self.todo_tasks, id),
            Some(TaskStatus::InProgress) => drop_task(&mut self.in_progress_tasks, id),
            Some(TaskStatus::Done) => drop_task(&mut self.done_tasks, id),
            None => {
                return None;
            },
        }
        Some(TaskStoreEvent::TaskDeleted(id))
    }

    /// The list in which a task with the identity `id` stands.
    pub fn get_task_status(&self, id: usize) -> (status: Option<TaskStatus>)
        ensures
            status == self@.status_of(id),
    {
        if has_task(&self.todo_tasks, id) {
            Some(TaskStatus::Todo)
        } else if has_task(&self.in_progress_tasks, id) {
            Some(TaskStatus::InProgress)
        } else if has_task(&self.done_tasks, id) {
            Some(TaskStatus::Done)
        } else {
            None
        }
    }
}

} // verus!
