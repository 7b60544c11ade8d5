//! The dashboard: the board of tasks and the task that is looked at.

use crate::models::{TaskData, TaskStatus};
use crate::text::{decimal, u64_to_string};
use crate::ui::DashboardEvent;
use crate::workspace::DashboardView;
use vstd::prelude::*;
use vstd::string::StringExecFns;

verus! {

/// The state of the dashboard.
pub struct DashboardPanel {
    pub view: DashboardView,
    pub selected_task_id: Option<usize>,
    pub todo_tasks: Vec<TaskData>,
    pub in_progress_tasks: Vec<TaskData>,
    pub done_tasks: Vec<TaskData>,
}

/// The index of the first task at or behind `from` whose identity is `id`.
pub open spec fn index_of_task(tasks: Seq<TaskData>, id: usize, from: int) -> Option<int>
    decreases tasks.len() - from,
{
    if from < 0 || from >= tasks.len() {
        None
    } else if tasks[from].id == id {
        Some(from)
    } else {
        index_of_task(tasks, id, from + 1)
    }
}

/// The first task among `tasks` whose identity is `id`.
pub open spec fn first_with_id(tasks: Seq<TaskData>, id: usize) -> Option<TaskData> {
    match index_of_task(tasks, id, 0) {
        Some(index) => Some(tasks[index]),
        None => None,
    }
}

/// The first task among `tasks` whose identity is `id`.
fn find_in(tasks: &Vec<TaskData>, id: usize) -> (found: Option<&TaskData>)
    ensures
        match found {
            Some(task) => first_with_id(tasks@, id) == Some(*task),
            None => first_with_id(tasks@, id) is None,
        },
{
    let mut i: usize = 0;
    while i < tasks.len()
        invariant
            i <= tasks.len(),
            index_of_task(tasks@, id, 0) == index_of_task(tasks@, id, i as int),
        decreases tasks.len() - i,
    {
        if tasks[i].id == id {
            return Some(&tasks[i]);
        }
        i += 1;
    }
    None
}

/// The title of a task that was just made: `New Task` and its identity.
pub fn new_task_title(id: usize) -> (title: String)
    ensures
        title@ == "New Task "@ + decimal(id as nat),
{
    let digits = u64_to_string(id as u64);
    "New Task ".to_string().concat(digits.as_str())
}

/// The task that the button of a column makes: a task of medium priority
/// with the identity `id`, in the column of the status `status`.
pub fn new_task(id: usize, status: TaskStatus) -> (task: TaskData)
    ensures
        task.id == id,
        task.title@ == "New Task "@ + decimal(id as nat),
        task.task_type@ == "TASK"@,
        task.priority@ == "medium"@,
        task.status == status,
{
    TaskData::new(id, new_task_title(id), "TASK".to_string(), "medium".to_string(), status)
}

/// The line that shows the identity of the task that is looked at.
pub fn task_id_label(id: usize) -> (label: String)
    ensures
        label@ == "ID: "@ + decimal(id as nat),
{
    let digits = u64_to_string(id as u64);
    "ID: ".to_string().concat(digits.as_str())
}

/// One objective as a line of the list of objectives.
pub fn objective_line(objective: &str) -> (line: String)
    ensures
        line@ == "> "@ + objective@,
{
    "> ".to_string().concat(objective)
}

impl DashboardPanel {
    /// The dashboard as it opens: on the board, with no task selected and
    /// no task loaded.
    pub fn new() -> (panel: Self)
        ensures
            panel.view == DashboardView::MissionControl,
            panel.selected_task_id is None,
            panel.todo_tasks@.len() == 0,
            panel.in_progress_tasks@.len() == 0,
            panel.done_tasks@.len() == 0,
    {
        Self {
            view: DashboardView::MissionControl,
            selected_task_id: None,
            todo_tasks: Vec::new(),
            in_progress_tasks: Vec::new(),
            done_tasks: Vec::new(),
        }
    }

    /// Takes in the three lists as the task store holds them.
    pub fn set_tasks(
        &mut self,
        todo_tasks: Vec<TaskData>,
        in_progress_tasks: Vec<TaskData>,
        done_tasks: Vec<TaskData>,
    )
        ensures
            *final(self) == (DashboardPanel {
                todo_tasks,
                in_progress_tasks,
                done_tasks,
                ..*old(self)
            }),
    {
        self.todo_tasks = todo_tasks;
        self.in_progress_tasks = in_progress_tasks;
        self.done_tasks = done_tasks;
    }

    /// Shows `view`, and names the event for the listeners: that the view
    /// changed.
    pub fn set_view(&mut self, view: DashboardView) -> (event: DashboardEvent)
        ensures
            event == DashboardEvent::ViewChanged(view),
            *final(self) == (DashboardPanel { view, ..*old(self) }),
    {
        self.view = view;
        DashboardEvent::ViewChanged(view)
    }

    /// Selects the task `task_id`, or none, and names the event for the
    /// listeners: that a task was selected, unless it was selected already.
    pub fn select_task(&mut self, task_id: Option<usize>) -> (event: Option<DashboardEvent>)
        ensures
            *final(self) == (DashboardPanel { selected_task_id: task_id, ..*old(self) }),
            event == if old(self).selected_task_id == task_id {
                None
            } else {
                Some(DashboardEvent::TaskSelected(task_id))
            },
    {
        let same = match (self.selected_task_id, task_id) {
            (Some(a), Some(b)) => a == b,
            (None, None) => true,
            _ => false,
        };
        if !same {
            self.selected_task_id = task_id;
            Some(DashboardEvent::TaskSelected(task_id))
        } else {
            None
        }
    }

    /// The event for the listeners when `task` was handed to the task
    /// store: that the task was added, as the board shows it.
    pub fn add_task(&self, task: &TaskData) -> (event: DashboardEvent)
        ensures
            event matches DashboardEvent::TaskAdded(added) && added == (crate::workspace::TaskData {
                id: task.id,
                title: task.title,
                task_type: task.task_type,
                priority: task.priority,
            }),
    {
        DashboardEvent::TaskAdded(task.to_workspace())
    }

    /// The task with the identity `task_id`: the first such task among
    /// those that wait, else among those under way, else among those done.
    pub open spec fn task_with_id(&self, task_id: usize) -> Option<TaskData> {
        if first_with_id(self.todo_tasks@, task_id) is Some {
            first_with_id(self.todo_tasks@, task_id)
        } else if first_with_id(self.in_progress_tasks@, task_id) is Some {
            first_with_id(self.in_progress_tasks@, task_id)
        } else {
            first_with_id(self.done_tasks@, task_id)
        }
    }

    /// The task with the identity `task_id`.
    pub fn find_task(&self, task_id: usize) -> (found: Option<&TaskData>)
        ensures
            match found {
                Some(task) => self.task_with_id(task_id) == Some(*task),
                None => self.task_with_id(task_id) is None,
            },
    {
        match find_in(&self.todo_tasks, task_id) {
            Some(task) => Some(task),
            None => match find_in(&self.in_progress_tasks, task_id) {
                Some(task) => Some(task),
                None => find_in(&self.done_tasks, task_id),
            },
        }
    }

    /// The title under which the task `task_id` is looked at: the sample
    /// title for the first task, else the title of the task, and `Task`
    /// where there is no such task.
    pub fn detail_title(&self, task_id: usize) -> (title: String)
        ensures
            title@ == if task_id == 1 {
                "Analyze Flight Logs"@
            } else {
                match self.task_with_id(task_id) {
                    Some(task) => task.title@,
                    None => "Task"@,
                }
            },
    {
        if task_id == 1 {
            "Analyze Flight Logs".to_string()
        } else {
            match self.find_task(task_id) {
                Some(task) => task.title.clone(),
                None => "Task".to_string(),
            }
        }
    }

    /// The objectives of the task `task_id`: the two sample objectives for
    /// the first task, and for every other task the note that it has none.
    pub fn detail_objectives(task_id: usize) -> (objectives: Vec<String>)
        ensures
            objectives@.map_values(|line: String| line@) == if task_id == 1 {
                seq![
                    "Analyze the target drone communication interface for injection vulnerabilities."@,
                    "Focus on legacy PHP endpoints."@,
                ]
            } else {
                seq!["No objectives defined."@]
            },
    {
        let mut objectives: Vec<String> = Vec::new();
        if task_id == 1 {
            objectives.push(
                "Analyze the target drone communication interface for injection vulnerabilities.".to_string(),
            );
            objectives.push("Focus on legacy PHP endpoints.".to_string());
            assert(objectives@.map_values(|line: String| line@) =~= seq![
                "Analyze the target drone communication interface for injection vulnerabilities."@,
                "Focus on legacy PHP endpoints."@,
            ]);
        } else {
            objectives.push("No objectives defined.".to_string());
            assert(objectives@.map_values(|line: String| line@) =~= seq![
                "No objectives defined."@,
            ]);
        }
        objectives
    }

    /// What the agent is shown to have done on the task `task_id`, each as
    /// kind, time and text: the three sample entries for the first task,
    /// and nothing for every other task.
    pub fn detail_activities(task_id: usize) -> (activities: Vec<(String, String, String)>)
        ensures
            activities@.len() == if task_id == 1 {
                3nat
            } else {
                0nat
            },
            task_id == 1 ==> {
                &&& activities@[0].0@ == "HISTORY"@
                &&& activities@[0].1@ == "14:30:05"@
                &&& activities@[0].2@
                    == "Initial reconnaissance completed. Target appears to be running OpenResty + PHP 5.6.40. Several potentially vulnerable parameters identified."@
                &&& activities@[1].0@ == "THOUGHT"@
                &&& activities@[1].1@ == "14:31:12"@
                &&& activities@[1].2@
                    == "Detected suspicious parameter `?ip=` in the URL. This pattern suggests a potential Command Injection vulnerability. The legacy PHP version (5.6.40) increases the likelihood of unpatched security flaws."@
                &&& activities@[2].0@ == "PLAN"@
                &&& activities@[2].1@ == "14:31:15"@
                &&& activities@[2].2@
                    == "1. Verify connection to target.\n2. Fuzz the `ip` parameter with common injection payloads.\n3. Analyze response time and content for execution indicators."@
            },
    {
        let mut activities: Vec<(String, String, String)> = Vec::new();
        if task_id == 1 {
            activities.push(
                (
                    "HISTORY".to_string(),
                    "14:30:05".to_string(),
                    "Initial reconnaissance completed. Target appears to be running OpenResty + PHP 5.6.40. Several potentially vulnerable parameters identified.".to_string(),
                ),
            );
            activities.push(
                (
                    "THOUGHT".to_string(),
                    "14:31:12".to_string(),
                    "Detected suspicious parameter `?ip=` in the URL. This pattern suggests a potential Command Injection vulnerability. The legacy PHP version (5.6.40) increases the likelihood of unpatched security flaws.".to_string(),
                ),
            );
            activities.push(
                (
                    "PLAN".to_string(),
                    "14:31:15".to_string(),
                    "1. Verify connection to target.\n2. Fuzz the `ip` parameter with common injection payloads.\n3. Analyze response time and content for execution indicators.".to_string(),
                ),
            );
        }
        activities
    }

    /// Whether the sample run of a tool and the analysis of it are shown
    /// below what the agent did on the task `task_id`: for the first task
    /// only.
    pub fn shows_sample_run(task_id: usize) -> (shown: bool)
        ensures
            shown == (task_id == 1),
    {
        task_id == 1
    }

    /// Whether the tab of the view `view` is the one that is shown.
    pub fn is_active(&self, view: DashboardView) -> (active: bool)
        ensures
            active == (self.view == view),
    {
        self.view == view
    }
}

} // verus!
