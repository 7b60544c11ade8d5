//! Stores that keep their tasks and assets in memory.

use crate::models::{AssetData, TaskData, TaskStatus, VulnData, VulnSeverity};
use crate::repository::{
    asset_index_from, filtered, highest_task_id, passes, task_index_from, vuln_index_from,
    with_status, without_asset, without_task, without_vuln, AssetRepository, TaskRepository,
    VulnRepository,
};
use crate::workspace::VulnFilter;
use crate::sequences::lemma_filter_take_next;
use crate::text::str_is;
use vstd::prelude::*;

verus! {

/// A store of tasks in memory.
pub struct MemoryTaskRepository {
    tasks: Vec<TaskData>,
}

impl View for MemoryTaskRepository {
    type V = Seq<TaskData>;

    closed spec fn view(&self) -> Seq<TaskData> {
        self.tasks@
    }
}

impl MemoryTaskRepository {
    /// An empty store.
    pub fn new() -> (store: Self)
        ensures
            store@ == Seq::<TaskData>::empty(),
    {
        Self { tasks: Vec::new() }
    }

    /// A store that holds `tasks`.
    pub fn with_initial_tasks(tasks: Vec<TaskData>) -> (store: Self)
        ensures
            store@ == tasks@,
    {
        Self { tasks }
    }
}

impl TaskRepository for MemoryTaskRepository {
    open spec fn tasks(&self) -> Seq<TaskData> {
        self@
    }

    fn get_tasks(&self, status: TaskStatus) -> (found: Vec<TaskData>) {
        let mut found: Vec<TaskData> = Vec::new();
        let mut i: usize = 0;
        while i < self.tasks.len()
            invariant
                i <= self.tasks.len(),
                found@ == with_status(self.tasks@.take(i as int), status),
            decreases self.tasks.len() - i,
        {
            proof {
                lemma_filter_take_next(
                    self.tasks@,
                    |task: TaskData| task.status == status,
                    i as int,
                );
            }
            if self.tasks[i].status == status {
                found.push(self.tasks[i].duplicate());
            }
            i += 1;
        }
        proof {
            assert(self.tasks@.take(i as int) == self.tasks@);
        }
        found
    }

    fn add_task(&mut self, task: TaskData) {
        self.tasks.push(task);
    }

    fn remove_task(&mut self, id: usize) {
        let mut kept: Vec<TaskData> = Vec::new();
        let mut i: usize = 0;
        while i < self.tasks.len()
            invariant
                i <= self.tasks.len(),
                self.tasks@ == old(self).tasks@,
                kept@ == without_task(self.tasks@.take(i as int), id),
            decreases self.tasks.len() - i,
        {
            proof {
                lemma_filter_take_next(self.tasks@, |task: TaskData| task.id != id, i as int);
            }
            if self.tasks[i].id != id {
                kept.push(self.tasks[i].duplicate());
            }
            i += 1;
        }
        proof {
            assert(self.tasks@.take(i as int) == self.tasks@);
        }
        self.tasks = kept;
    }

    fn update_task(&mut self, task: TaskData) {
        let mut i: usize = 0;
        while i < self.tasks.len()
            invariant
                i <= self.tasks.len(),
                self.tasks@ == old(self).tasks@,
                task_index_from(self.tasks@, task.id, 0) == task_index_from(
                    self.tasks@,
                    task.id,
                    i as int,
                ),
            decreases self.tasks.len() - i,
        {
            if self.tasks[i].id == task.id {
                self.tasks[i] = task;
                return ;
            }
            i += 1;
        }
    }

    fn get_next_task_id(&self) -> (id: usize) {
        let mut highest: usize = 0;
        let mut i: usize = 0;
        while i < self.tasks.len()
            invariant
                i <= self.tasks.len(),
                highest == highest_task_id(self.tasks@, i as int),
            decreases self.tasks.len() - i,
        {
            if self.tasks[i].id > highest {
                highest = self.tasks[i].id;
            }
            i += 1;
        }
        highest + 1
    }
}

/// A store of vulnerabilities in memory.
pub struct MemoryVulnRepository<C, A> {
    vulns: Vec<VulnData<C, A>>,
}

impl<C, A> View for MemoryVulnRepository<C, A> {
    type V = Seq<VulnData<C, A>>;

    closed spec fn view(&self) -> Seq<VulnData<C, A>> {
        self.vulns@
    }
}

impl<C, A> MemoryVulnRepository<C, A> {
    /// An empty store.
    pub fn new() -> (store: Self)
        ensures
            store@ == Seq::<VulnData<C, A>>::empty(),
    {
        Self { vulns: Vec::new() }
    }

    /// A store that holds `vulns`.
    pub fn with_initial_vulns(vulns: Vec<VulnData<C, A>>) -> (store: Self)
        ensures
            store@ == vulns@,
    {
        Self { vulns }
    }
}

/// Whether a vulnerability of the severity `severity` passes the filter
/// `filter`.
fn passes_filter(filter: VulnFilter, severity: VulnSeverity) -> (passed: bool)
    ensures
        passed == passes(filter, severity),
{
    match filter {
        VulnFilter::All => true,
        VulnFilter::Critical => severity == VulnSeverity::Critical,
        VulnFilter::High => severity == VulnSeverity::High,
        VulnFilter::Medium => severity == VulnSeverity::Medium,
        VulnFilter::Low => severity == VulnSeverity::Low,
    }
}

impl<C: Send + Sync, A: Send + Sync> VulnRepository<C, A> for MemoryVulnRepository<C, A> {
    open spec fn vulns(&self) -> Seq<VulnData<C, A>> {
        self@
    }

    fn get_vulns(&self, filter: VulnFilter) -> (found: Vec<&VulnData<C, A>>) {
        let mut found: Vec<&VulnData<C, A>> = Vec::new();
        let mut i: usize = 0;
        proof {
            assert(found@.map_values(|vuln: &VulnData<C, A>| *vuln) =~= Seq::<
                VulnData<C, A>,
            >::empty());
            assert(self.vulns@.take(0) =~= Seq::<VulnData<C, A>>::empty());
            Seq::<VulnData<C, A>>::empty().lemma_filter_len(
                |vuln: VulnData<C, A>| passes(filter, vuln.severity),
            );
        }
        while i < self.vulns.len()
            invariant
                i <= self.vulns.len(),
                found@.map_values(|vuln: &VulnData<C, A>| *vuln) == filtered(
                    self.vulns@.take(i as int),
                    filter,
                ),
            decreases self.vulns.len() - i,
        {
            proof {
                lemma_filter_take_next(
                    self.vulns@,
                    |vuln: VulnData<C, A>| passes(filter, vuln.severity),
                    i as int,
                );
            }
            let ghost found_before = found@;
            if passes_filter(filter, self.vulns[i].severity) {
                found.push(&self.vulns[i]);
                proof {
                    assert(found@.map_values(|vuln: &VulnData<C, A>| *vuln)
                        =~= found_before.map_values(|vuln: &VulnData<C, A>| *vuln).push(
                        self.vulns@[i as int],
                    ));
                }
            }
            i += 1;
        }
        proof {
            assert(self.vulns@.take(i as int) =~= self.vulns@);
        }
        found
    }

    fn add_vuln(&mut self, vuln: VulnData<C, A>) {
        self.vulns.push(vuln);
    }

    fn remove_vuln(&mut self, id: &str) {
        let mut kept: Vec<VulnData<C, A>> = Vec::new();
        let ghost all = self.vulns@;
        let mut rest: Vec<VulnData<C, A>> = Vec::new();
        core::mem::swap(&mut self.vulns, &mut rest);
        let ghost mut done: int = 0;
        proof {
            assert(rest@ =~= all.skip(0));
        }
        while rest.len() > 0
            invariant
                0 <= done <= all.len(),
                rest@ == all.skip(done),
                kept@ == without_vuln(all.take(done), id@),
            decreases rest.len(),
        {
            proof {
                lemma_filter_take_next(all, |vuln: VulnData<C, A>| vuln.id@ != id@, done);
            }
            let vuln = rest.remove(0);
            assert(vuln == all[done]);
            assert(rest@ =~= all.skip(done + 1));
            if !str_is(vuln.id.as_str(), id) {
                kept.push(vuln);
            }
            proof {
                done = done + 1;
            }
        }
        proof {
            assert(all.take(done) =~= all);
        }
        self.vulns = kept;
    }

    fn update_vuln(&mut self, vuln: VulnData<C, A>) {
        let mut i: usize = 0;
        while i < self.vulns.len()
            invariant
                i <= self.vulns.len(),
                self.vulns@ == old(self).vulns@,
                vuln_index_from(self.vulns@, vuln.id@, 0) == vuln_index_from(
                    self.vulns@,
                    vuln.id@,
                    i as int,
                ),
            decreases self.vulns.len() - i,
        {
            if self.vulns[i].id == vuln.id {
                self.vulns[i] = vuln;
                return ;
            }
            i += 1;
        }
    }
}

/// A store of assets in memory.
pub struct MemoryAssetRepository {
    assets: Vec<AssetData>,
}

impl View for MemoryAssetRepository {
    type V = Seq<AssetData>;

    closed spec fn view(&self) -> Seq<AssetData> {
        self.assets@
    }
}

impl MemoryAssetRepository {
    /// An empty store.
    pub fn new() -> (store: Self)
        ensures
            store@ == Seq::<AssetData>::empty(),
    {
        Self { assets: Vec::new() }
    }

    /// A store that holds `assets`.
    pub fn with_initial_assets(assets: Vec<AssetData>) -> (store: Self)
        ensures
            store@ == assets@,
    {
        Self { assets }
    }
}

impl AssetRepository for MemoryAssetRepository {
    open spec fn assets(&self) -> Seq<AssetData> {
        self@
    }

    fn get_assets(&self) -> (found: Vec<AssetData>) {
        let mut found: Vec<AssetData> = Vec::new();
        let mut i: usize = 0;
        while i < self.assets.len()
            invariant
                i <= self.assets.len(),
                found@ == self.assets@.take(i as int),
            decreases self.assets.len() - i,
        {
            found.push(self.assets[i].duplicate());
            proof {
                assert(self.assets@.take(i as int + 1) == self.assets@.take(i as int).push(
                    self.assets@[i as int],
                ));
            }
            i += 1;
        }
        proof {
            assert(self.assets@.take(i as int) == self.assets@);
        }
        found
    }

    fn add_asset(&mut self, asset: AssetData) {
        self.assets.push(asset);
    }

    fn remove_asset(&mut self, id: &str) {
        let mut kept: Vec<AssetData> = Vec::new();
        let mut i: usize = 0;
        while i < self.assets.len()
            invariant
                i <= self.assets.len(),
                self.assets@ == old(self).assets@,
                kept@ == without_asset(self.assets@.take(i as int), id@),
            decreases self.assets.len() - i,
        {
            proof {
                lemma_filter_take_next(
                    self.assets@,
                    |asset: AssetData| asset.id@ != id@,
                    i as int,
                );
            }
            if !str_is(self.assets[i].id.as_str(), id) {
                kept.push(self.assets[i].duplicate());
            }
            i += 1;
        }
        proof {
            assert(self.assets@.take(i as int) == self.assets@);
        }
        self.assets = kept;
    }

    fn update_asset(&mut self, asset: AssetData) {
        let mut i: usize = 0;
        while i < self.assets.len()
            invariant
                i <= self.assets.len(),
                self.assets@ == old(self).assets@,
                asset_index_from(self.assets@, asset.id@, 0) == asset_index_from(
                    self.assets@,
                    asset.id@,
                    i as int,
                ),
            decreases self.assets.len() - i,
        {
            if self.assets[i].id == asset.id {
                self.assets[i] = asset;
                return ;
            }
            i += 1;
        }
    }
}

} // verus!
