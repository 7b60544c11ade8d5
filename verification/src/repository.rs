//! Where tasks and assets are kept, whatever keeps them.

use crate::models::{AssetData, TaskData, TaskStatus, VulnData, VulnSeverity};
use crate::workspace::VulnFilter;
use vstd::prelude::*;

verus! {

/// The tasks among `tasks` that have the status `status`, in their order.
pub open spec fn with_status(tasks: Seq<TaskData>, status: TaskStatus) -> Seq<TaskData> {
    tasks.filter(|task: TaskData| task.status == status)
}

/// The tasks among `tasks` whose identity is not `id`, in their order.
pub open spec fn without_task(tasks: Seq<TaskData>, id: usize) -> Seq<TaskData> {
    tasks.filter(|task: TaskData| task.id != id)
}

/// The index of the first task at or behind `from` whose identity is `id`.
pub open spec fn task_index_from(tasks: Seq<TaskData>, id: usize, from: int) -> Option<int>
    decreases tasks.len() - from,
{
    if from < 0 || from >= tasks.len() {
        None
    } else if tasks[from].id == id {
        Some(from)
    } else {
        task_index_from(tasks, id, from + 1)
    }
}

/// The tasks `tasks`, where the first task with the identity of `task` has
/// given way to `task`; without such a task, `tasks` as they are.
pub open spec fn with_task_updated(tasks: Seq<TaskData>, task: TaskData) -> Seq<TaskData> {
    match task_index_from(tasks, task.id, 0) {
        Some(index) => tasks.update(index, task),
        None => tasks,
    }
}

/// The highest identity among the first `n` of `tasks`; zero without a task.
pub open spec fn highest_task_id(tasks: Seq<TaskData>, n: int) -> usize
    decreases n,
{
    if n <= 0 || n > tasks.len() {
        0
    } else if tasks[n - 1].id > highest_task_id(tasks, n - 1) {
        tasks[n - 1].id
    } else {
        highest_task_id(tasks, n - 1)
    }
}

/// The assets among `assets` whose identity is not `id`, in their order.
pub open spec fn without_asset(assets: Seq<AssetData>, id: Seq<char>) -> Seq<AssetData> {
    assets.filter(|asset: AssetData| asset.id@ != id)
}

/// The index of the first asset at or behind `from` whose identity is `id`.
pub open spec fn asset_index_from(assets: Seq<AssetData>, id: Seq<char>, from: int) -> Option<int>
    decreases assets.len() - from,
{
    if from < 0 || from >= assets.len() {
        None
    } else if assets[from].id@ == id {
        Some(from)
    } else {
        asset_index_from(assets, id, from + 1)
    }
}

/// The assets `assets`, where the first asset with the identity of `asset`
/// has given way to `asset`; without such an asset, `assets` as they are.
pub open spec fn with_asset_updated(assets: Seq<AssetData>, asset: AssetData) -> Seq<AssetData> {
    match asset_index_from(assets, asset.id@, 0) {
        Some(index) => assets.update(index, asset),
        None => assets,
    }
}

/// A store of tasks.
pub trait TaskRepository: Send + Sync {
    /// The tasks in the store, in the order in which they came.
    spec fn tasks(&self) -> Seq<TaskData>;

    /// The tasks that have the status `status`.
    fn get_tasks(&self, status: TaskStatus) -> (found: Vec<TaskData>)
        ensures
            found@ == with_status(self.tasks(), status),
    ;

    /// Puts `task` behind the tasks in the store.
    fn add_task(&mut self, task: TaskData)
        ensures
            final(self).tasks() == old(self).tasks().push(task),
    ;

    /// Takes every task with the identity `id` out of the store.
    fn remove_task(&mut self, id: usize)
        ensures
            final(self).tasks() == without_task(old(self).tasks(), id),
    ;

    /// Puts `task` in the place of the first task with its identity. A
    /// store without such a task stays as it is.
    fn update_task(&mut self, task: TaskData)
        ensures
            final(self).tasks() == with_task_updated(old(self).tasks(), task),
    ;

    /// An identity that no task in the store has: one above the highest.
    fn get_next_task_id(&self) -> (id: usize)
        requires
            highest_task_id(self.tasks(), self.tasks().len() as int) < usize::MAX,
        ensures
            id == highest_task_id(self.tasks(), self.tasks().len() as int) + 1,
    ;
}

/// Whether a vulnerability of the severity `severity` passes the filter
/// `filter`.
pub open spec fn passes(filter: VulnFilter, severity: VulnSeverity) -> bool {
    match filter {
        VulnFilter::All => true,
        VulnFilter::Critical => severity == VulnSeverity::Critical,
        VulnFilter::High => severity == VulnSeverity::High,
        VulnFilter::Medium => severity == VulnSeverity::Medium,
        VulnFilter::Low => severity == VulnSeverity::Low,
    }
}

/// The vulnerabilities among `vulns` that pass the filter `filter`, in
/// their order.
pub open spec fn filtered<C, A>(vulns: Seq<VulnData<C, A>>, filter: VulnFilter) -> Seq<
    VulnData<C, A>,
> {
    vulns.filter(|vuln: VulnData<C, A>| passes(filter, vuln.severity))
}

/// The vulnerabilities among `vulns` whose identity is not `id`, in their
/// order.
pub open spec fn without_vuln<C, A>(vulns: Seq<VulnData<C, A>>, id: Seq<char>) -> Seq<
    VulnData<C, A>,
> {
    vulns.filter(|vuln: VulnData<C, A>| vuln.id@ != id)
}

/// The index of the first vulnerability at or behind `from` whose identity
/// is `id`.
pub open spec fn vuln_index_from<C, A>(vulns: Seq<VulnData<C, A>>, id: Seq<char>, from: int)
    -> Option<int>
    decreases vulns.len() - from,
{
    if from < 0 || from >= vulns.len() {
        None
    } else if vulns[from].id@ == id {
        Some(from)
    } else {
        vuln_index_from(vulns, id, from + 1)
    }
}

/// The vulnerabilities `vulns`, where the first with the identity of
/// `vuln` has given way to `vuln`; without such a one, `vulns` as they are.
pub open spec fn with_vuln_updated<C, A>(vulns: Seq<VulnData<C, A>>, vuln: VulnData<C, A>) -> Seq<
    VulnData<C, A>,
> {
    match vuln_index_from(vulns, vuln.id@, 0) {
        Some(index) => vulns.update(index, vuln),
        None => vulns,
    }
}

/// A store of vulnerabilities.
pub trait VulnRepository<C, A>: Send + Sync {
    /// The vulnerabilities in the store, in the order in which they came.
    spec fn vulns(&self) -> Seq<VulnData<C, A>>;

    /// The vulnerabilities that pass the filter `filter`.
    fn get_vulns(&self, filter: VulnFilter) -> (found: Vec<&VulnData<C, A>>)
        ensures
            found@.map_values(|vuln: &VulnData<C, A>| *vuln) == filtered(self.vulns(), filter),
    ;

    /// Puts `vuln` behind the vulnerabilities in the store.
    fn add_vuln(&mut self, vuln: VulnData<C, A>)
        ensures
            final(self).vulns() == old(self).vulns().push(vuln),
    ;

    /// Takes every vulnerability with the identity `id` out of the store.
    fn remove_vuln(&mut self, id: &str)
        ensures
            final(self).vulns() == without_vuln(old(self).vulns(), id@),
    ;

    /// Puts `vuln` in the place of the first vulnerability with its
    /// identity. A store without such a one stays as it is.
    fn update_vuln(&mut self, vuln: VulnData<C, A>)
        ensures
            final(self).vulns() == with_vuln_updated(old(self).vulns(), vuln),
    ;
}

/// A store of assets.
pub trait AssetRepository: Send + Sync {
    /// The assets in the store, in the order in which they came.
    spec fn assets(&self) -> Seq<AssetData>;

    /// All assets in the store.
    fn get_assets(&self) -> (found: Vec<AssetData>)
        ensures
            found@ == self.assets(),
    ;

    /// Puts `asset` behind the assets in the store.
    fn add_asset(&mut self, asset: AssetData)
        ensures
            final(self).assets() == old(self).assets().push(asset),
    ;

    /// Takes every asset with the identity `id` out of the store.
    fn remove_asset(&mut self, id: &str)
        ensures
            final(self).assets() == without_asset(old(self).assets(), id@),
    ;

    /// Puts `asset` in the place of the first asset with its identity. A
    /// store without such an asset stays as it is.
    fn update_asset(&mut self, asset: AssetData)
        ensures
            final(self).assets() == with_asset_updated(old(self).assets(), asset),
    ;
}

/// The next identity is above the identity of every task in the store.
pub proof fn lemma_highest_task_id_bounds(tasks: Seq<TaskData>, n: int, i: int)
    requires
        0 <= i < n <= tasks.len(),
    ensures
        tasks[i].id <= highest_task_id(tasks, n),
    decreases n,
{
    if i < n - 1 {
        lemma_highest_task_id_bounds(tasks, n - 1, i);
    }
}

} // verus!
